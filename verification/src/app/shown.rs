//! The view's range, the events that it shows, the selection, and the overlays.

use super::{
    App, DragSession, DragState, History, Mode, MutationState, TimelineViewportOwner, View,
    VisibleRangeState,
};
use crate::backend::BackendState;
use crate::config::Config;
use crate::hit_test::CalendarHitTarget;
use crate::model::{
    calendar_at, find_calendar, index_view, CalendarCapabilities, CalendarInfo, Event, EventSpan,
    Snapshot,
};
use crate::search::{
    find_events, found, local_days_of, tokens, EventDays, SearchQuery, SearchQueryView,
};
use crate::seqs::{first_from, first_where};
use crate::sorting::{
    indices, key_less, key_views, law_order_is_complete, law_order_is_sorted, lemma_same_choice,
    order_chosen, ordered,
};
use crate::text::{ascii_lower, same_ignoring_case, same_text};
use crate::time::{
    first_day_of_month, instant_or_utc, local_midnight, local_today, may_be_today, month_first_day,
    read_first, read_or_utc, Date, Timestamp, WallTime, EPOCH_DAY, MAX_DAY, MIN_DAY,
};
use vstd::prelude::*;
use vstd::view::View as _;

verus! {

/// The dates that a view shows around an active date, from the first to before the last. A week is
/// the seven days from the active date on; a month is six weeks from the one that holds its first
/// day.
pub open spec fn view_window(view: View, active: Date, sunday_first: bool) -> (Date, Date) {
    match view {
        View::Day => (active, active.clamped_shift(1)),
        View::Week => (active, active.clamped_shift(7)),
        View::Month => {
            let first = Date { day: month_first_day(active.clamped().day) };
            let offset = if sunday_first {
                (first.weekday() + 1) % 7
            } else {
                first.weekday()
            };
            let start = first.clamped_shift(-offset);
            (start, start.clamped_shift(42))
        },
        View::Agenda => (active, active.clamped_shift(60)),
    }
}

/// Whether the calendar with an identity is shown.
pub open spec fn is_enabled(calendars: Seq<CalendarInfo>, id: Seq<char>) -> bool {
    exists|i: int| 0 <= i < calendars.len() && (#[trigger] calendars[i]).enabled && calendars[i].id@
        == id
}

/// Whether an event is shown between two dates that begin at two instants: its calendar is shown,
/// and it takes place there, by its dates where it is an all-day event with known dates, else by
/// its instants.
pub open spec fn is_shown(
    event: Event,
    calendars: Seq<CalendarInfo>,
    dates: (Date, Date),
    start: Timestamp,
    end: Timestamp,
) -> bool {
    is_enabled(calendars, event.calendar_id@) && (if event.date_range() is Some {
        event.dates_intersect(dates.0, dates.1)
    } else {
        event.start.nanos < end.nanos && event.end.nanos > start.nanos
    })
}

/// The keys by which shown events are ordered: start and end.
pub open spec fn event_keys(events: Seq<Event>) -> Seq<Seq<i128>> {
    events.map_values(|event: Event| seq![event.start.nanos, event.end.nanos])
}

/// The indices of the events that are shown, in the order of start and end.
pub open spec fn shown_events(
    events: Seq<Event>,
    calendars: Seq<CalendarInfo>,
    dates: (Date, Date),
    start: Timestamp,
    end: Timestamp,
) -> Seq<int> {
    ordered(
        event_keys(events),
        |i: int| is_shown(events[i], calendars, dates, start, end),
        events.len() as int,
    )
}

/// The indices of the events with an identity.
pub open spec fn names(events: Seq<Event>, id: Seq<char>) -> spec_fn(int) -> bool {
    |i: int| events[i].id@ == id
}

/// The place in a list of indices of the first event with an identity.
pub open spec fn place_of(events: Seq<Event>, list: Seq<int>, id: Seq<char>) -> Option<int> {
    first_where(list, names(events, id))
}

/// Whether days can be those of events: an all-day event with known dates has its own, and any
/// other those on which a calendar may show its instants.
pub open spec fn days_fit(events: Seq<Event>, days: Seq<EventDays>) -> bool {
    &&& days.len() == events.len()
    &&& forall|i: int| 0 <= i < events.len() ==> (#[trigger] events[i]).may_last(days[i])
}

/// The first of the days of each event.
pub open spec fn first_days(days: Seq<EventDays>) -> Seq<Date> {
    days.map_values(|d: EventDays| d.first)
}

/// The element of a list at a place, where there is one.
pub open spec fn at_place(list: Seq<int>, place: int) -> Option<int> {
    if 0 <= place < list.len() {
        Some(list[place])
    } else {
        None
    }
}

/// The selected event among those shown. In a month it must take place on the active date: a
/// selection carried over from another day is none.
pub open spec fn selected_among(
    list: Seq<int>,
    place: int,
    view: View,
    active: Date,
    days: Seq<EventDays>,
) -> Option<int> {
    match at_place(list, place) {
        Some(i) => if view == View::Month && !days[i].hold(active) {
            None
        } else {
            Some(i)
        },
        None => None,
    }
}

impl App {
    /// Whether weeks start on Sunday.
    pub open spec fn sunday_first(self) -> bool {
        ascii_lower(self.config.week_start@) == ascii_lower("sunday"@)
    }

    /// The dates that are shown.
    pub open spec fn window(self) -> (Date, Date) {
        view_window(self.view, self.active_date, self.sunday_first())
    }

    /// The events that are shown where the shown dates begin at two instants.
    pub open spec fn shown_between(self, start: Timestamp, end: Timestamp) -> Seq<int> {
        shown_events(
            self.snapshot.events@,
            self.snapshot.calendars@,
            self.window(),
            start,
            end,
        )
    }

    /// Whether a list can be the events that are shown, for what a clock may say of the shown dates:
    /// they begin near their midnights in UTC.
    pub open spec fn may_show(self, list: Seq<int>) -> bool {
        exists|start: Timestamp, end: Timestamp|
            near_midnight(start, self.window().0) && near_midnight(end, self.window().1) && list
                == #[trigger] self.shown_between(start, end)
    }

    /// What is searched for.
    pub open spec fn query(self) -> SearchQueryView {
        SearchQueryView::of_tokens(tokens(self.search_query@))
    }

    /// The events that the search finds where events take place on given days.
    pub open spec fn found_on(self, days: Seq<EventDays>) -> Seq<int> {
        found(
            self.query(),
            self.snapshot.events@,
            self.snapshot.calendars@,
            self.active_date,
            first_days(days),
        )
    }

    /// Whether a list can be the events that the search finds.
    pub open spec fn may_find(self, list: Seq<int>) -> bool {
        exists|days: Seq<EventDays>|
            days_fit(self.snapshot.events@, days) && list == #[trigger] self.found_on(days)
    }

    /// The selected event among those shown, where events take place on given days.
    pub open spec fn selected_in(self, list: Seq<int>, days: Seq<EventDays>) -> Option<int> {
        selected_among(list, self.selected_event as int, self.view, self.active_date, days)
    }

    /// Whether an event can be the selected one: among those found while the user searches, else
    /// among those shown.
    pub open spec fn may_select(self, index: Option<int>) -> bool {
        if self.mode == Mode::Search {
            exists|list: Seq<int>| #[trigger]
                self.may_find(list) && index == at_place(list, self.search_selected as int)
        } else {
            exists|list: Seq<int>, days: Seq<EventDays>|
                self.may_show(list) && days_fit(self.snapshot.events@, days) && index
                    == #[trigger] self.selected_in(list, days)
        }
    }

    /// Whether an event with an identity can stand at a place of those shown, or at none.
    pub open spec fn may_locate(self, id: Seq<char>, place: Option<int>) -> bool {
        exists|list: Seq<int>| #[trigger]
            self.may_show(list) && place == place_of(self.snapshot.events@, list, id)
    }

    /// The index of the first calendar with an identity.
    pub open spec fn calendar_index(self, id: Seq<char>) -> Option<int> {
        calendar_at(self.snapshot.calendars@, id)
    }

    /// Whether the calendar with an identity is there and can be written to.
    pub open spec fn writable(self, id: Seq<char>) -> bool {
        self.calendar_index(id) matches Some(i) && self.snapshot.calendars@[i].is_writable
    }

    /// The overlay's state is well formed.
    pub open spec fn wf(self) -> bool {
        &&& self.form matches Some(form) ==> form.wf()
        &&& self.calendar_form matches Some(form) ==> form.wf()
        &&& self.history.wf()
    }

    /// The state in which the application starts, on a date.
    pub open spec fn is_initial(self, config: Config, snapshot: Snapshot, date: Date) -> bool {
        &&& self.config == config
        &&& self.snapshot == snapshot
        &&& self.active_date == date
        &&& self.view == View::named(config.default_view@)
        &&& self.mode == Mode::Normal
        &&& self.modal_stack@.len() == 0
        &&& self.selected_event == 0
        &&& self.selected_calendar == 0
        &&& self.calendar_capabilities == (CalendarCapabilities {
            can_list_sources: false,
            can_create: false,
            can_update: false,
            can_delete: false,
            can_change_color: false,
        })
        &&& self.calendar_sources@.len() == 0
        &&& !self.sidebar_visible
        &&& self.timeline_start_minute == 420
        &&& self.timeline_viewport_owner == TimelineViewportOwner::Auto
        &&& self.drag_session.is_idle()
        &&& self.search_query@.len() == 0
        &&& self.search_selected == 0
        &&& self.form is None
        &&& self.calendar_form is None
        &&& self.calendar_rename_form is None
        &&& self.calendar_color_form is None
        &&& self.calendar_delete_confirmation is None
        &&& self.quick_add_input@.len() == 0
        &&& !self.form_dirty
        &&& self.mutation_state == MutationState::Idle
        &&& self.delete_span == EventSpan::ThisEvent
        &&& self.delete_recurrence_scope is None
        &&& self.pending_recurring_mutation is None
        &&& self.pending_delete_event_id is None
        &&& self.palette_query@.len() == 0
        &&& self.palette_selected == 0
        &&& self.detail_scroll == 0
        &&& self.help_scroll == 0
        &&& !self.syncing
        &&& self.backend_state == BackendState::Starting
        &&& !self.should_quit
        &&& self.status is None
        &&& self.visible_range_request_id == 0
        &&& self.visible_range is None
        &&& self.visible_range_state == VisibleRangeState::Ready
        &&& self.pending_selection is None
        &&& self.interaction_context is None
        &&& self.next_mutation_session == 0
        &&& self.active_mutation_session is None
        &&& self.pending_calendar_selection is None
        &&& !self.pending_g
        &&& self.history.undo_stack@.len() == 0
        &&& self.history.redo_stack@.len() == 0
        &&& self.history.pending is None
    }

    /// The application on a date, with nothing begun.
    pub fn starting_on(config: Config, snapshot: Snapshot, date: Date) -> (r: Self)
        ensures
            r.is_initial(config, snapshot, date),
            r.wf(),
    {
        let view = View::from_config(config.default_view.as_str());
        App {
            config,
            snapshot,
            active_date: date,
            view,
            mode: Mode::Normal,
            modal_stack: Vec::new(),
            selected_event: 0,
            selected_calendar: 0,
            calendar_capabilities: CalendarCapabilities::default(),
            calendar_sources: Vec::new(),
            sidebar_visible: false,
            timeline_start_minute: 420,
            timeline_viewport_owner: TimelineViewportOwner::Auto,
            drag_session: DragSession::idle(),
            search_query: String::new(),
            search_selected: 0,
            form: None,
            calendar_form: None,
            calendar_rename_form: None,
            calendar_color_form: None,
            calendar_delete_confirmation: None,
            quick_add_input: String::new(),
            form_dirty: false,
            mutation_state: MutationState::Idle,
            delete_span: EventSpan::ThisEvent,
            delete_recurrence_scope: None,
            pending_recurring_mutation: None,
            pending_delete_event_id: None,
            palette_query: String::new(),
            palette_selected: 0,
            detail_scroll: 0,
            help_scroll: 0,
            syncing: false,
            backend_state: BackendState::Starting,
            should_quit: false,
            status: None,
            visible_range_request_id: 0,
            visible_range: None,
            visible_range_state: VisibleRangeState::Ready,
            pending_selection: None,
            interaction_context: None,
            next_mutation_session: 0,
            active_mutation_session: None,
            pending_calendar_selection: None,
            pending_g: false,
            history: History {
                undo_stack: Vec::new(),
                redo_stack: Vec::new(),
                pending: None,
            },
        }
    }

    /// The application on the current date, with nothing begun.
    pub fn new(config: Config, snapshot: Snapshot) -> (r: Self)
        ensures
            exists|today: Date|
                may_be_today(today) && #[trigger] r.is_initial(config, snapshot, today),
            r.wf(),
    {
        let today = local_today();
        Self::starting_on(config, snapshot, today)
    }

    /// The dates that are shown, from the first to before the last.
    pub fn view_date_range(&self) -> (r: (Date, Date))
        ensures
            r == self.window(),
    {
        let active = self.active_date;
        match self.view {
            View::Day => (active, active.saturating_plus(1)),
            View::Week => (active, active.saturating_plus(7)),
            View::Month => {
                let first = Date { day: first_day_of_month(active.nearest().day) };
                let monday: u32 = first.days_from_monday();
                let offset: u32 = if same_ignoring_case(
                    self.config.week_start.as_str(),
                    "sunday",
                ) {
                    (monday + 1) % 7
                } else {
                    monday
                };
                let start = first.saturating_plus(-(offset as i32));
                (start, start.saturating_plus(42))
            },
            View::Agenda => (active, active.saturating_plus(60)),
        }
    }

    /// The instants at which the shown dates begin and end on this machine: each within a day of
    /// its date's midnight in UTC.
    pub fn view_range(&self) -> (r: (Timestamp, Timestamp))
        ensures
            near_midnight(r.0, self.window().0),
            near_midnight(r.1, self.window().1),
    {
        let (start, end) = self.view_date_range();
        (midnight_or_utc(start), midnight_or_utc(end))
    }

    fn calendar_is_enabled(&self, id: &str) -> (r: bool)
        ensures
            r == is_enabled(self.snapshot.calendars@, id@),
    {
        let mut i: usize = 0;
        while i < self.snapshot.calendars.len()
            invariant
                i <= self.snapshot.calendars@.len(),
                forall|j: int|
                    0 <= j < i ==> !((#[trigger] self.snapshot.calendars@[j]).enabled
                        && self.snapshot.calendars@[j].id@ == id@),
            decreases self.snapshot.calendars@.len() - i,
        {
            if self.snapshot.calendars[i].enabled && same_text(
                self.snapshot.calendars[i].id.as_str(),
                id,
            ) {
                return true;
            }
            i += 1;
        }
        false
    }

    /// The events that are shown, where the shown dates begin at two instants.
    pub fn visible_between(&self, start: Timestamp, end: Timestamp) -> (r: Vec<usize>)
        ensures
            indices(r@) == self.shown_between(start, end),
            forall|i: int| 0 <= i < r@.len() ==> #[trigger] r@[i] < self.snapshot.events@.len(),
    {
        let dates = self.view_date_range();
        let ghost events = self.snapshot.events@;
        let ghost picks = |i: int|
            is_shown(events[i], self.snapshot.calendars@, dates, start, end);
        let mut keys: Vec<Vec<i128>> = Vec::new();
        let mut chosen: Vec<bool> = Vec::new();
        let mut i: usize = 0;
        while i < self.snapshot.events.len()
            invariant
                i <= self.snapshot.events@.len(),
                events == self.snapshot.events@,
                picks == (|i: int|
                    is_shown(events[i], self.snapshot.calendars@, dates, start, end)),
                keys@.len() == i,
                chosen@.len() == i,
                forall|j: int| 0 <= j < i ==> (#[trigger] keys@[j])@ == event_keys(events)[j],
                forall|j: int| 0 <= j < i ==> #[trigger] chosen@[j] == picks(j),
            decreases self.snapshot.events@.len() - i,
        {
            let event = &self.snapshot.events[i];
            let inside = if event.all_day_date_range().is_some() {
                event.all_day_intersects_dates(dates.0, dates.1)
            } else {
                event.start.nanos < end.nanos && event.end.nanos > start.nanos
            };
            chosen.push(inside && self.calendar_is_enabled(event.calendar_id.as_str()));
            let key: Vec<i128> = vec![event.start.nanos, event.end.nanos];
            proof {
                assert(key@ =~= event_keys(events)[i as int]);
            }
            keys.push(key);
            i += 1;
        }
        let r = order_chosen(&keys, &chosen);
        proof {
            assert(key_views(keys@) =~= event_keys(events));
            lemma_same_choice(event_keys(events), |i: int| chosen@[i], picks, events.len() as int);
        }
        r
    }

    /// The indices of the events that are shown, in the order of start and end.
    pub fn visible_indices(&self) -> (r: Vec<usize>)
        ensures
            self.may_show(indices(r@)),
            forall|i: int| 0 <= i < r@.len() ==> #[trigger] r@[i] < self.snapshot.events@.len(),
    {
        let (start, end) = self.view_range();
        self.visible_between(start, end)
    }

    /// The events that are shown, in the order of start and end.
    pub fn visible_events(&self) -> (r: Vec<&Event>)
        ensures
            exists|list: Seq<int>| #[trigger]
                self.may_show(list) && is_events_at(self.snapshot.events@, list, r@),
    {
        let list = self.visible_indices();
        let r = self.events_at(&list);
        proof {
            assert(self.may_show(indices(list@)));
        }
        r
    }

    fn events_at(&self, list: &Vec<usize>) -> (r: Vec<&Event>)
        requires
            forall|i: int|
                0 <= i < list@.len() ==> #[trigger] list@[i] < self.snapshot.events@.len(),
        ensures
            is_events_at(self.snapshot.events@, indices(list@), r@),
    {
        let mut out: Vec<&Event> = Vec::new();
        let mut i: usize = 0;
        while i < list.len()
            invariant
                i <= list@.len(),
                out@.len() == i,
                forall|i: int|
                    0 <= i < list@.len() ==> #[trigger] list@[i] < self.snapshot.events@.len(),
                forall|j: int|
                    0 <= j < i ==> *(#[trigger] out@[j])
                        == self.snapshot.events@[list@[j] as int],
            decreases list@.len() - i,
        {
            out.push(&self.snapshot.events[list[i]]);
            i += 1;
        }
        out
    }

    /// The indices of the events that the search finds, where events take place on given days.
    pub fn search_on(&self, days: &Vec<EventDays>) -> (r: Vec<usize>)
        requires
            days@.len() == self.snapshot.events@.len(),
        ensures
            indices(r@) == self.found_on(days@),
            forall|i: int| 0 <= i < r@.len() ==> #[trigger] r@[i] < self.snapshot.events@.len(),
    {
        let query = SearchQuery::parse(self.search_query.as_str());
        let mut firsts: Vec<Date> = Vec::new();
        let mut i: usize = 0;
        while i < days.len()
            invariant
                i <= days@.len(),
                firsts@ == first_days(days@).take(i as int),
            decreases days@.len() - i,
        {
            firsts.push(days[i].first);
            proof {
                assert(first_days(days@).take(i + 1) =~= first_days(days@).take(i as int).push(
                    days@[i as int].first,
                ));
            }
            i += 1;
        }
        proof {
            assert(first_days(days@).take(i as int) =~= first_days(days@));
        }
        find_events(
            &query,
            &self.snapshot.events,
            &self.snapshot.calendars,
            self.active_date,
            &firsts,
        )
    }

    /// The indices of the events that the search finds.
    pub fn search_indices(&self) -> (r: Vec<usize>)
        ensures
            self.may_find(indices(r@)),
            forall|i: int| 0 <= i < r@.len() ==> #[trigger] r@[i] < self.snapshot.events@.len(),
    {
        let days = local_days_of(&self.snapshot.events);
        self.search_on(&days)
    }

    /// The events that the search finds, the best first.
    pub fn search_results(&self) -> (r: Vec<&Event>)
        ensures
            exists|list: Seq<int>| #[trigger]
                self.may_find(list) && is_events_at(self.snapshot.events@, list, r@),
    {
        let list = self.search_indices();
        let r = self.events_at(&list);
        proof {
            assert(self.may_find(indices(list@)));
        }
        r
    }

    /// The selected event among those shown, where events take place on given days.
    pub fn selected_on(&self, list: &Vec<usize>, days: &Vec<EventDays>) -> (r: Option<usize>)
        requires
            days@.len() == self.snapshot.events@.len(),
            forall|i: int|
                0 <= i < list@.len() ==> #[trigger] list@[i] < self.snapshot.events@.len(),
        ensures
            index_view(r) == self.selected_in(indices(list@), days@),
            r matches Some(i) ==> i < self.snapshot.events@.len(),
    {
        if self.selected_event < list.len() {
            let i: usize = list[self.selected_event];
            proof {
                assert(indices(list@)[self.selected_event as int] == i);
            }
            if self.view == View::Month && !days[i].contains(self.active_date) {
                None
            } else {
                Some(i)
            }
        } else {
            None
        }
    }

    /// The index of the selected event.
    pub fn selected_event_index(&self) -> (r: Option<usize>)
        ensures
            self.may_select(index_view(r)),
            r matches Some(i) ==> i < self.snapshot.events@.len(),
    {
        if self.mode == Mode::Search {
            let list = self.search_indices();
            proof {
                assert(self.may_find(indices(list@)));
            }
            if self.search_selected < list.len() {
                proof {
                    assert(indices(list@)[self.search_selected as int]
                        == list@[self.search_selected as int]);
                }
                Some(list[self.search_selected])
            } else {
                None
            }
        } else {
            let list = self.visible_indices();
            let days = local_days_of(&self.snapshot.events);
            let r = self.selected_on(&list, &days);
            proof {
                assert(self.may_show(indices(list@)));
                assert(index_view(r) == self.selected_in(indices(list@), days@));
            }
            r
        }
    }

    /// The selected event.
    pub fn selected_event_ref(&self) -> (r: Option<&Event>)
        ensures
            exists|index: Option<int>| #[trigger]
                self.may_select(index) && is_event_at(self.snapshot.events@, index, r),
    {
        let index = self.selected_event_index();
        proof {
            assert(self.may_select(index_view(index)));
        }
        match index {
            Some(i) => Some(&self.snapshot.events[i]),
            None => None,
        }
    }

    /// The place in a list of indices of the first event with an identity.
    pub fn place_in(&self, list: &Vec<usize>, id: &str) -> (r: Option<usize>)
        requires
            forall|i: int|
                0 <= i < list@.len() ==> #[trigger] list@[i] < self.snapshot.events@.len(),
        ensures
            index_view(r) == place_of(self.snapshot.events@, indices(list@), id@),
            r matches Some(k) ==> k < list@.len() && self.snapshot.events@[list@[k as int] as int].id@
                == id@,
    {
        let ghost events = self.snapshot.events@;
        let ghost all = indices(list@);
        let ghost same = names(events, id@);
        let mut k: usize = 0;
        while k < list.len()
            invariant
                k <= list@.len(),
                all == indices(list@),
                events == self.snapshot.events@,
                same == names(events, id@),
                forall|i: int|
                    0 <= i < list@.len() ==> #[trigger] list@[i] < self.snapshot.events@.len(),
                first_where(all, same) == first_from(all, same, k as int),
            decreases list@.len() - k,
        {
            proof {
                assert(all[k as int] == list@[k as int]);
            }
            if same_text(self.snapshot.events[list[k]].id.as_str(), id) {
                return Some(k);
            }
            k += 1;
        }
        None
    }

    /// The place of an event among those shown.
    pub fn visible_place(&self, id: &str) -> (r: Option<usize>)
        ensures
            self.may_locate(id@, index_view(r)),
    {
        let list = self.visible_indices();
        let r = self.place_in(&list, id);
        proof {
            assert(self.may_show(indices(list@)));
        }
        r
    }

    /// The event that details are shown of: the one that they were opened for, while it is shown.
    pub fn details_event_ref(&self) -> (r: Option<&Event>)
        ensures
            match self.interaction_context {
                None => r is None,
                Some(context) => exists|list: Seq<int>| #[trigger]
                    self.may_show(list) && match place_of(
                        self.snapshot.events@,
                        list,
                        context.occurrence_id@,
                    ) {
                        Some(k) => r == Some(&self.snapshot.events@[list[k]]),
                        None => r is None,
                    },
            },
    {
        match &self.interaction_context {
            None => None,
            Some(context) => {
                let list = self.visible_indices();
                let place = self.place_in(&list, context.occurrence_id.as_str());
                proof {
                    assert(self.may_show(indices(list@)));
                }
                match place {
                    Some(k) => {
                        proof {
                            assert(indices(list@)[k as int] == list@[k as int]);
                        }
                        Some(&self.snapshot.events[list[k]])
                    },
                    None => None,
                }
            },
        }
    }

    /// The calendar with an identity.
    pub fn calendar(&self, id: &str) -> (r: Option<&CalendarInfo>)
        ensures
            match self.calendar_index(id@) {
                Some(i) => r == Some(&self.snapshot.calendars@[i]),
                None => r is None,
            },
    {
        match find_calendar(&self.snapshot.calendars, id) {
            Some(i) => Some(&self.snapshot.calendars[i]),
            None => None,
        }
    }

    /// Whether the calendar with an identity is there and can be written to.
    pub fn calendar_is_writable(&self, id: &str) -> (r: bool)
        ensures
            r == self.writable(id@),
    {
        match self.calendar(id) {
            Some(calendar) => calendar.is_writable,
            None => false,
        }
    }
}

/// Whether an instant is that at which a date begins: the first at which the machine's clock shows
/// its midnight, or its midnight in UTC where the clock does not show it. It is within a day of the
/// latter. A date out of range stands for the nearest one.
pub open spec fn near_midnight(at: Timestamp, date: Date) -> bool {
    &&& exists|shown: Option<Timestamp>| #[trigger]
        read_first(WallTime { date: date.clamped(), second: 0 }, shown) && at == read_or_utc(
            shown,
            WallTime { date: date.clamped(), second: 0 },
        )
    &&& (date.clamped().day - EPOCH_DAY - 1) * 86_400_000_000_000 < at.nanos < (date.clamped().day
        - EPOCH_DAY + 1) * 86_400_000_000_000
}

fn midnight_or_utc(date: Date) -> (r: Timestamp)
    ensures
        near_midnight(r, date),
{
    let date = date.nearest();
    let shown = local_midnight(date);
    proof {
        assert(read_first(WallTime { date, second: 0 }, shown));
    }
    instant_or_utc(shown, WallTime { date, second: 0 })
}

/// Whether references are to the events at the indices of a list.
pub open spec fn is_events_at(events: Seq<Event>, list: Seq<int>, r: Seq<&Event>) -> bool {
    r.len() == list.len() && forall|i: int|
        0 <= i < list.len() ==> *(#[trigger] r[i]) == events[list[i]]
}

/// Whether a reference is to the event at an index.
pub open spec fn is_event_at(events: Seq<Event>, index: Option<int>, r: Option<&Event>) -> bool {
    match index {
        Some(i) => r == Some(&events[i]),
        None => r is None,
    }
}

/// The events shown are those of shown calendars that take place between the shown dates, each
/// once, and no others.
pub proof fn law_shown_events_are_complete(app: App, start: Timestamp, end: Timestamp)
    ensures
        app.shown_between(start, end).no_duplicates(),
        forall|i: int|
            #[trigger] app.shown_between(start, end).contains(i) <==> 0 <= i
                < app.snapshot.events@.len() && is_shown(
                app.snapshot.events@[i],
                app.snapshot.calendars@,
                app.window(),
                start,
                end,
            ),
{
    let events = app.snapshot.events@;
    law_order_is_complete(
        event_keys(events),
        |i: int| is_shown(events[i], app.snapshot.calendars@, app.window(), start, end),
        events.len() as int,
    );
}

/// Whatever the clock says, a timed event that ends a day after the shown dates begin or later, and
/// starts a day before they end or earlier, is shown where its calendar is; one that stays a day
/// away from them is not.
pub proof fn law_timed_events_are_shown_on_their_days(app: App, list: Seq<int>, i: int)
    requires
        app.may_show(list),
        0 <= i < app.snapshot.events@.len(),
        app.snapshot.events@[i].date_range() is None,
    ensures
        ({
            let event = app.snapshot.events@[i];
            let day = 86_400_000_000_000int;
            let first = app.window().0.clamped().day - EPOCH_DAY;
            let end = app.window().1.clamped().day - EPOCH_DAY;
            &&& is_enabled(app.snapshot.calendars@, event.calendar_id@) && event.start.nanos <= (end
                - 1) * day && event.end.nanos >= (first + 1) * day ==> list.contains(i)
            &&& event.start.nanos >= (end + 1) * day || event.end.nanos <= (first - 1) * day
                ==> !list.contains(i)
        }),
{
    let (start, end) = choose|start: Timestamp, end: Timestamp|
        near_midnight(start, app.window().0) && near_midnight(end, app.window().1) && list
            == #[trigger] app.shown_between(start, end);
    law_shown_events_are_complete(app, start, end);
}

/// The events shown are in the order in which they start, and those that start together in the
/// order in which they end.
pub proof fn law_shown_events_are_in_order(
    app: App,
    start: Timestamp,
    end: Timestamp,
    i: int,
    j: int,
)
    requires
        0 <= i < j < app.shown_between(start, end).len(),
    ensures
        ({
            let a = app.snapshot.events@[app.shown_between(start, end)[i]];
            let b = app.snapshot.events@[app.shown_between(start, end)[j]];
            a.start.nanos < b.start.nanos || (a.start.nanos == b.start.nanos && a.end.nanos
                <= b.end.nanos)
        }),
{
    let events = app.snapshot.events@;
    let picks = |i: int|
        is_shown(events[i], app.snapshot.calendars@, app.window(), start, end);
    let keys = event_keys(events);
    let list = app.shown_between(start, end);
    law_order_is_sorted(keys, picks, events.len() as int);
    law_order_is_complete(keys, picks, events.len() as int);
    assert(list.contains(list[i]) && list.contains(list[j]));
    let a = keys[list[i]];
    let b = keys[list[j]];
    assert(!key_less(b, a));
    assert(a[0] == events[list[i]].start.nanos && a[1] == events[list[i]].end.nanos);
    assert(b[0] == events[list[j]].start.nanos && b[1] == events[list[j]].end.nanos);
    assert(b.drop_first()[0] == b[1] && a.drop_first()[0] == a[1]);
    reveal_with_fuel(key_less, 3);
}

/// The dates of a month's view hold the active date, and are six weeks that start on the first day
/// of a week.
pub proof fn law_month_window(active: Date, sunday_first: bool, first: i32)
    requires
        first == month_first_day(active.clamped().day),
        first <= active.day < first + 31,
        MIN_DAY + 7 <= first <= MAX_DAY - 42,
    ensures
        ({
            let window = view_window(View::Month, active, sunday_first);
            &&& window.1.day == window.0.day + 42
            &&& window.0.day <= active.day < window.1.day
            &&& window.0.weekday() == (if sunday_first {
                6int
            } else {
                0int
            })
        }),
{
}

impl DragSession {
    /// No move is being tried.
    pub open spec fn is_idle(self) -> bool {
        self.event_id is None && self.origin is None && self.current_target is None && self.state
            == DragState::Idle
    }

    /// No move.
    pub fn idle() -> (r: Self)
        ensures
            r.is_idle(),
    {
        DragSession { event_id: None, origin: None, current_target: None, state: DragState::Idle }
    }

    /// Begins to try a move.
    pub fn start(&mut self, event_id: String, origin: CalendarHitTarget)
        ensures
            *final(self) == (DragSession {
                event_id: Some(event_id),
                origin: Some(origin),
                current_target: None,
                state: DragState::Pressed,
            }),
    {
        self.event_id = Some(event_id);
        self.origin = Some(origin);
        self.current_target = None;
        self.state = DragState::Pressed;
    }

    /// Tries a target.
    pub fn update(&mut self, target: CalendarHitTarget, preview_is_valid: bool)
        ensures
            *final(self) == (DragSession {
                current_target: Some(target),
                state: if preview_is_valid {
                    DragState::Preview
                } else {
                    DragState::Dragging
                },
                ..*old(self)
            }),
    {
        self.current_target = Some(target);
        self.state = if preview_is_valid {
            DragState::Preview
        } else {
            DragState::Dragging
        };
    }

    /// Gives up the move.
    pub fn cancel(&mut self)
        ensures
            final(self).is_idle(),
    {
        *self = Self::idle();
    }
}

impl Default for DragSession {
    fn default() -> (r: Self)
        ensures
            r.is_idle(),
    {
        Self::idle()
    }
}

} // verus!
