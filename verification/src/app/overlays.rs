//! Overlays and what they return to, the selection, and moving through dates and views.

use super::shown::{near_midnight, place_of};
use super::{
    message, says, App, InteractionContext, Mode, ModalFrame, MutationState, SelectionContext,
    TimelineViewportOwner, View, VisibleRangeState,
};
use crate::model::{index_view, CalendarDateRange, Event, RangePriority, RangeReason, RangeRequest};
use crate::search::{local_days_of, EventDays};
use crate::seqs::{first_from, first_where, neighbour, step_index};
use crate::sorting::indices;
use crate::text::opt_view;
use crate::time::{
    day_next_month, day_previous_month, next_month_day, previous_month_day, Date, Timestamp,
};
use vstd::prelude::*;
use vstd::view::View as _;

verus! {

/// The overlays with one more on top.
pub open spec fn frames_entered(frames: Seq<ModalFrame>, from: Mode, mode: Mode) -> Seq<
    ModalFrame,
> {
    frames.push(ModalFrame { current: mode, return_to: from })
}

/// The overlays with the top one turned into another, which returns to the same place.
pub open spec fn frames_replaced(frames: Seq<ModalFrame>, mode: Mode) -> Seq<ModalFrame> {
    if frames.len() > 0 {
        frames.drop_last().push(ModalFrame { current: mode, return_to: frames.last().return_to })
    } else {
        frames.push(ModalFrame { current: mode, return_to: Mode::Normal })
    }
}

/// The overlays without the top one.
pub open spec fn frames_left(frames: Seq<ModalFrame>) -> Seq<ModalFrame> {
    if frames.len() > 0 {
        frames.drop_last()
    } else {
        frames
    }
}

/// Where the top overlay returns to.
pub open spec fn return_mode(frames: Seq<ModalFrame>) -> Mode {
    if frames.len() > 0 {
        frames.last().return_to
    } else {
        Mode::Normal
    }
}

/// The number after that of a request; the numbers start again at one.
pub open spec fn next_number(n: u64) -> u64 {
    if n == u64::MAX {
        1
    } else {
        (n + 1) as u64
    }
}

/// A place in a list, or one that no list has.
pub open spec fn place_or_none(place: Option<int>) -> usize {
    match place {
        Some(k) => k as usize,
        None => usize::MAX,
    }
}

/// The place `delta` from another among `count`, not beyond the first and the last; from outside,
/// the first, or going backwards the last.
pub open spec fn moved_place(place: usize, delta: int, count: int) -> usize {
    if count == 0 {
        usize::MAX
    } else if place >= count {
        if delta < 0 {
            (count - 1) as usize
        } else {
            0
        }
    } else if place + delta < 0 {
        0
    } else if place + delta > count - 1 {
        (count - 1) as usize
    } else {
        (place + delta) as usize
    }
}

/// The places in a list of the events that take place on a date.
pub open spec fn places_on(list: Seq<int>, days: Seq<EventDays>, date: Date, n: int) -> Seq<int>
    decreases n,
{
    if n <= 0 {
        Seq::empty()
    } else {
        let rest = places_on(list, days, date, n - 1);
        if days[list[n - 1]].hold(date) {
            rest.push(n - 1)
        } else {
            rest
        }
    }
}

/// The index of a place among some.
pub open spec fn index_of_place(places: Seq<int>, place: int) -> Option<int> {
    first_where(places, is_place(place))
}

/// Whether a place is another.
pub open spec fn is_place(place: int) -> spec_fn(int) -> bool {
    |p: int| p == place
}

/// The next of some places, round them; from outside, the first, or going backwards the last.
pub open spec fn next_place(places: Seq<int>, place: int, backwards: bool) -> Option<int> {
    if places.len() == 0 {
        None
    } else {
        match index_of_place(places, place) {
            Some(k) => Some(places[neighbour(k, backwards, places.len() as int)]),
            None => if backwards {
                Some(places.last())
            } else {
                Some(places[0])
            },
        }
    }
}

fn find_place(places: &Vec<usize>, place: usize) -> (r: Option<usize>)
    ensures
        index_view(r) == index_of_place(indices(places@), place as int),
        r matches Some(k) ==> k < places@.len(),
{
    let ghost all = indices(places@);
    let ghost same = is_place(place as int);
    let mut k: usize = 0;
    while k < places.len()
        invariant
            k <= places@.len(),
            all == indices(places@),
            same == is_place(place as int),
            first_where(all, same) == first_from(all, same, k as int),
        decreases places@.len() - k,
    {
        proof {
            assert(all[k as int] == places@[k as int]);
        }
        if places[k] == place {
            return Some(k);
        }
        k += 1;
    }
    None
}

impl App {
    /// The reason for which the shown range is wanted.
    pub open spec fn range_reason(self) -> RangeReason {
        match self.view {
            View::Day => RangeReason::VisibleDay,
            View::Week => RangeReason::VisibleWeek,
            View::Month => RangeReason::VisibleMonth,
            View::Agenda => RangeReason::AgendaPage,
        }
    }

    /// Whether a request is for what is shown: for its dates, and for instants near their
    /// midnights.
    pub open spec fn is_range_request(self, request: RangeRequest) -> bool {
        &&& request.id == self.visible_range_request_id
        &&& near_midnight(request.start, self.window().0)
        &&& near_midnight(request.end, self.window().1)
        &&& request.all_day_range == Some(
            CalendarDateRange { start_date: self.window().0, end_date_exclusive: self.window().1 },
        )
        &&& request.reason == self.range_reason()
        &&& request.priority == RangePriority::Interactive
    }

    /// Whether what is shown has just been asked for, after a request with a number.
    pub open spec fn is_loading(self, last: u64, request: RangeRequest) -> bool {
        &&& self.visible_range_request_id == next_number(last)
        &&& self.visible_range == Some(request)
        &&& self.visible_range_state == VisibleRangeState::Loading
        &&& self.is_range_request(request)
    }

    /// Asks for what is shown. Each request has a new number.
    pub fn visible_range_request(&mut self) -> (r: RangeRequest)
        ensures
            *final(self) == (App {
                visible_range_request_id: final(self).visible_range_request_id,
                visible_range: final(self).visible_range,
                visible_range_state: final(self).visible_range_state,
                ..*old(self)
            }),
            final(self).is_loading(old(self).visible_range_request_id, r),
    {
        let (start, end) = self.view_range();
        let (start_date, end_date_exclusive) = self.view_date_range();
        let id: u64 = if self.visible_range_request_id == u64::MAX {
            1
        } else {
            self.visible_range_request_id + 1
        };
        let request = RangeRequest {
            id,
            start,
            end,
            all_day_range: Some(CalendarDateRange { start_date, end_date_exclusive }),
            reason: match self.view {
                View::Day => RangeReason::VisibleDay,
                View::Week => RangeReason::VisibleWeek,
                View::Month => RangeReason::VisibleMonth,
                View::Agenda => RangeReason::AgendaPage,
            },
            priority: RangePriority::Interactive,
        };
        self.visible_range_request_id = id;
        self.visible_range = Some(request);
        self.visible_range_state = VisibleRangeState::Loading;
        request
    }

    /// Opens an overlay over the current mode.
    pub fn enter_modal(&mut self, mode: Mode)
        ensures
            *final(self) == (App { mode, modal_stack: final(self).modal_stack, ..*old(self) }),
            final(self).modal_stack@ == frames_entered(
                old(self).modal_stack@,
                old(self).mode,
                mode,
            ),
    {
        self.modal_stack.push(ModalFrame { current: mode, return_to: self.mode });
        self.mode = mode;
    }

    /// Turns the overlay into its next step, which returns to where the overlay would have.
    pub fn replace_modal(&mut self, mode: Mode)
        ensures
            *final(self) == (App { mode, modal_stack: final(self).modal_stack, ..*old(self) }),
            final(self).modal_stack@ == frames_replaced(old(self).modal_stack@, mode),
    {
        let return_to = match self.modal_stack.pop() {
            Some(frame) => frame.return_to,
            None => Mode::Normal,
        };
        proof {
            assert(old(self).modal_stack@.len() > 0 ==> self.modal_stack@
                =~= old(self).modal_stack@.drop_last());
        }
        self.modal_stack.push(ModalFrame { current: mode, return_to });
        self.mode = mode;
    }

    /// Closes the overlay.
    pub fn leave_modal(&mut self)
        ensures
            *final(self) == (App {
                mode: return_mode(old(self).modal_stack@),
                modal_stack: final(self).modal_stack,
                ..*old(self)
            }),
            final(self).modal_stack@ == frames_left(old(self).modal_stack@),
    {
        self.mode = match self.modal_stack.pop() {
            Some(frame) => frame.return_to,
            None => Mode::Normal,
        };
        proof {
            assert(old(self).modal_stack@.len() > 0 ==> self.modal_stack@
                =~= old(self).modal_stack@.drop_last());
        }
    }

    /// Closes all overlays.
    pub fn close_all_modals(&mut self)
        ensures
            *final(self) == (App {
                mode: Mode::Normal,
                modal_stack: final(self).modal_stack,
                ..*old(self)
            }),
            final(self).modal_stack@.len() == 0,
    {
        self.modal_stack.clear();
        self.mode = Mode::Normal;
    }

    /// Whether a context is that of an event: where it was opened from, and its identities.
    pub open spec fn is_context_of(self, event: Event, context: InteractionContext) -> bool {
        &&& context.source_view == self.view
        &&& context.source_active_date == self.active_date
        &&& context.occurrence_id == event.id
        &&& event.may_begin_on(context.occurrence_local_date)
        &&& context.provider_id == event.provider_id
        &&& context.calendar_id == event.calendar_id
        &&& context.canonical_occurrence_start == event.start
    }

    /// The context of an event.
    pub fn interaction_context_for(&self, event: &Event) -> (r: InteractionContext)
        ensures
            self.is_context_of(*event, r),
    {
        InteractionContext {
            source_view: self.view,
            source_active_date: self.active_date,
            occurrence_id: event.id.clone(),
            occurrence_local_date: event.display_start_date(),
            provider_id: event.provider_id.clone(),
            calendar_id: event.calendar_id.clone(),
            canonical_occurrence_start: event.start,
        }
    }

    /// Whether the context is about an event after it was made sure of: a context of that event is
    /// kept, any other gives way to a new one.
    pub open spec fn has_context(self, event: Event, post: Option<InteractionContext>) -> bool {
        if self.interaction_context matches Some(context) && context.occurrence_id@ == event.id@ {
            post == self.interaction_context
        } else {
            post matches Some(context) && self.is_context_of(event, context)
        }
    }

    /// Makes sure that the context is about an event.
    pub fn context_ensured(&self, event: &Event) -> (r: Option<InteractionContext>)
        ensures
            match r {
                Some(context) => !(self.interaction_context matches Some(kept)
                    && kept.occurrence_id@ == event.id@) && self.is_context_of(*event, context),
                None => self.interaction_context matches Some(kept) && kept.occurrence_id@
                    == event.id@,
            },
    {
        match &self.interaction_context {
            Some(context) => if context.occurrence_id == event.id {
                None
            } else {
                Some(self.interaction_context_for(event))
            },
            None => Some(self.interaction_context_for(event)),
        }
    }

    /// The selection on an event that is shown, or on none.
    pub open spec fn has_selected(self, id: Seq<char>) -> bool {
        exists|place: Option<int>| #[trigger]
            self.may_locate(id, place) && self.selected_event == place_or_none(place)
    }

    /// Selects an event that is shown; where it is not, the selection stays.
    pub fn select_visible_event_id(&mut self, id: &str) -> (r: bool)
        ensures
            exists|place: Option<int>| #[trigger]
                old(self).may_locate(id@, place) && r == (place is Some) && *final(self) == (App {
                    selected_event: match place {
                        Some(k) => k as usize,
                        None => old(self).selected_event,
                    },
                    ..*old(self)
                }),
    {
        let place = self.visible_place(id);
        proof {
            assert(old(self).may_locate(id@, index_view(place)));
        }
        match place {
            Some(k) => {
                self.selected_event = k;
                true
            },
            None => false,
        }
    }

    /// The context of the selection: the active date, and the selected event with its first day.
    pub open spec fn is_selection_context(self, context: SelectionContext) -> bool {
        &&& context.active_date == self.active_date
        &&& exists|index: Option<int>| #[trigger]
            self.may_select(index) && match index {
                Some(i) => {
                    let event = self.snapshot.events@[i];
                    &&& opt_view(context.selected_event_id) == Some(event.id@)
                    &&& context.selected_event_date matches Some(date) && event.may_begin_on(date)
                },
                None => context.selected_event_id is None && context.selected_event_date is None,
            }
    }

    /// The context of the selection.
    pub fn selection_context(&self) -> (r: SelectionContext)
        ensures
            self.is_selection_context(r),
    {
        let index = self.selected_event_index();
        proof {
            assert(self.may_select(index_view(index)));
        }
        match index {
            Some(i) => SelectionContext {
                active_date: self.active_date,
                selected_event_id: Some(self.snapshot.events[i].id.clone()),
                selected_event_date: Some(self.snapshot.events[i].display_start_date()),
            },
            None => SelectionContext {
                active_date: self.active_date,
                selected_event_id: None,
                selected_event_date: None,
            },
        }
    }

    /// The state with the selection as a context has it: on the event's day, and on the event while
    /// it is shown.
    pub open spec fn selection_restored(self, context: SelectionContext, post: App) -> bool {
        &&& post == (App {
            active_date: match context.selected_event_date {
                Some(date) => date,
                None => context.active_date,
            },
            selected_event: post.selected_event,
            ..self
        })
        &&& match context.selected_event_id {
            Some(id) => post.has_selected(id@),
            None => post.selected_event == usize::MAX,
        }
    }

    /// Restores the selection from a context.
    pub fn restore_selection_context(&mut self, context: SelectionContext)
        ensures
            old(self).selection_restored(context, *final(self)),
    {
        self.active_date = match context.selected_event_date {
            Some(date) => date,
            None => context.active_date,
        };
        self.selected_event = usize::MAX;
        match &context.selected_event_id {
            Some(id) => {
                let place = self.visible_place(id.as_str());
                let ghost before = *self;
                match place {
                    Some(k) => self.selected_event = k,
                    None => {},
                }
                proof {
                    assert(before.may_locate(id@, index_view(place)));
                    lemma_same_view(before, *self, id@, index_view(place));
                    assert(self.may_locate(id@, index_view(place)));
                }
            },
            None => {},
        }
    }

    /// Changes the view, and keeps the selected event selected while it is shown.
    pub fn set_view(&mut self, view: View)
        ensures
            exists|context: SelectionContext| #[trigger]
                old(self).is_selection_context(context) && (App {
                    view,
                    ..*old(self)
                }).selection_restored(context, *final(self)),
    {
        let context = self.selection_context();
        proof {
            assert(old(self).is_selection_context(context));
        }
        self.view = view;
        self.restore_selection_context(context);
    }

    /// The state after details are closed: back where they were opened from, with the event
    /// selected while it is shown.
    pub open spec fn details_closed(self, post: App) -> bool {
        &&& post == (App {
            mode: return_mode(self.modal_stack@),
            modal_stack: post.modal_stack,
            view: match self.interaction_context {
                Some(context) => context.source_view,
                None => self.view,
            },
            active_date: match self.interaction_context {
                Some(context) => context.source_active_date,
                None => self.active_date,
            },
            selected_event: post.selected_event,
            interaction_context: None,
            detail_scroll: 0,
            ..self
        })
        &&& post.modal_stack@ == frames_left(self.modal_stack@)
        &&& match self.interaction_context {
            Some(context) => post.has_selected(context.occurrence_id@),
            None => post.selected_event == self.selected_event,
        }
    }

    /// Closes details.
    pub fn close_details(&mut self)
        ensures
            old(self).details_closed(*final(self)),
    {
        self.leave_modal();
        let context = self.interaction_context.take();
        self.detail_scroll = 0;
        match context {
            Some(context) => {
                self.view = context.source_view;
                self.active_date = context.source_active_date;
                let place = self.visible_place(context.occurrence_id.as_str());
                let ghost before = *self;
                self.selected_event = match place {
                    Some(k) => k,
                    None => usize::MAX,
                };
                proof {
                    let id = context.occurrence_id@;
                    lemma_same_view(before, *self, id, index_view(place));
                    assert(self.may_locate(id, index_view(place)));
                }
            },
            None => {},
        }
    }

    /// The state after an editor is left: back where it was opened from, with the event selected
    /// where it is shown.
    pub open spec fn interaction_returned(self, post: App) -> bool {
        match self.interaction_context {
            None => post == self,
            Some(context) => {
                &&& post == (App {
                    view: context.source_view,
                    active_date: context.source_active_date,
                    selected_event: post.selected_event,
                    interaction_context: None,
                    ..self
                })
                &&& exists|place: Option<int>| #[trigger]
                    post.may_locate(context.occurrence_id@, place) && post.selected_event == (
                    match place {
                        Some(k) => k as usize,
                        None => self.selected_event,
                    })
            },
        }
    }

    /// Goes back where an editor was opened from.
    pub fn finish_interaction_return(&mut self)
        ensures
            old(self).interaction_returned(*final(self)),
    {
        match self.interaction_context.take() {
            Some(context) => {
                self.view = context.source_view;
                self.active_date = context.source_active_date;
                let place = self.visible_place(context.occurrence_id.as_str());
                let ghost before = *self;
                match place {
                    Some(k) => self.selected_event = k,
                    None => {},
                }
                proof {
                    let id = context.occurrence_id@;
                    lemma_same_view(before, *self, id, index_view(place));
                    assert(self.may_locate(id, index_view(place)));
                }
            },
            None => {},
        }
    }

    /// The state after an editor is left without saving: what was typed is gone. An editor that
    /// was opened from details returns to them; any other goes back where it was opened from.
    pub open spec fn editor_cancelled(self, post: App) -> bool {
        let closed = App {
            form: None,
            form_dirty: false,
            mutation_state: MutationState::Idle,
            pending_recurring_mutation: None,
            mode: return_mode(self.modal_stack@),
            modal_stack: post.modal_stack,
            ..self
        };
        &&& post.modal_stack@ == frames_left(self.modal_stack@)
        &&& if return_mode(self.modal_stack@) == Mode::Details {
            post == closed
        } else {
            closed.interaction_returned(post)
        }
    }

    /// Leaves an editor without saving.
    pub fn finish_editor_cancel(&mut self)
        ensures
            old(self).editor_cancelled(*final(self)),
    {
        self.form = None;
        self.form_dirty = false;
        self.mutation_state = MutationState::Idle;
        self.pending_recurring_mutation = None;
        self.leave_modal();
        if self.mode != Mode::Details {
            self.finish_interaction_return();
        }
    }

    /// Moves the selection by a number of places among the events shown.
    pub fn move_selection(&mut self, delta: i32)
        ensures
            exists|list: Seq<int>| #[trigger]
                old(self).may_show(list) && *final(self) == (App {
                    selected_event: moved_place(
                        old(self).selected_event,
                        delta as int,
                        list.len() as int,
                    ),
                    ..*old(self)
                }),
    {
        let list = self.visible_indices();
        proof {
            assert(old(self).may_show(indices(list@)));
            assert(indices(list@).len() == list@.len());
        }
        self.move_selection_among(delta, list.len());
    }

    /// Moves the selection by a number of places among a number of events shown.
    pub fn move_selection_among(&mut self, delta: i32, count: usize)
        ensures
            *final(self) == (App {
                selected_event: moved_place(
                    old(self).selected_event,
                    delta as int,
                    count as int,
                ),
                ..*old(self)
            }),
    {
        if count == 0 {
            self.selected_event = usize::MAX;
        } else if self.selected_event >= count {
            self.selected_event = if delta < 0 {
                count - 1
            } else {
                0
            };
        } else {
            let next: i128 = self.selected_event as i128 + delta as i128;
            self.selected_event = if next < 0 {
                0
            } else if next > (count - 1) as i128 {
                count - 1
            } else {
                next as usize
            };
        }
    }

    fn find_places_on(&self, list: &Vec<usize>, days: &Vec<EventDays>, date: Date) -> (r: Vec<usize>)
        requires
            days@.len() == self.snapshot.events@.len(),
            forall|i: int|
                0 <= i < list@.len() ==> #[trigger] list@[i] < self.snapshot.events@.len(),
        ensures
            indices(r@) == places_on(indices(list@), days@, date, list@.len() as int),
    {
        let ghost all = indices(list@);
        let mut out: Vec<usize> = Vec::new();
        let mut k: usize = 0;
        proof {
            assert(indices(out@) =~= Seq::<int>::empty());
        }
        while k < list.len()
            invariant
                k <= list@.len(),
                all == indices(list@),
                days@.len() == self.snapshot.events@.len(),
                forall|i: int|
                    0 <= i < list@.len() ==> #[trigger] list@[i] < self.snapshot.events@.len(),
                indices(out@) == places_on(all, days@, date, k as int),
            decreases list@.len() - k,
        {
            proof {
                assert(all[k as int] == list@[k as int]);
            }
            if days[list[k]].contains(date) {
                let ghost before = out@;
                out.push(k);
                proof {
                    assert(indices(out@) =~= indices(before).push(k as int));
                }
            }
            k += 1;
        }
        out
    }

    /// The state after the selection has moved to the next of some places; where there is none the
    /// user is told.
    pub open spec fn moved_on_date(self, places: Seq<int>, backwards: bool, post: App) -> bool {
        match next_place(places, self.selected_event as int, backwards) {
            Some(place) => post == (App { selected_event: place as usize, ..self }),
            None => {
                &&& post == (App { selected_event: usize::MAX, status: post.status, ..self })
                &&& says(post.status, "No events on the active date"@, false)
            },
        }
    }

    /// Moves the selection to the next of some places.
    pub fn move_among_places(&mut self, places: &Vec<usize>, backwards: bool)
        ensures
            old(self).moved_on_date(indices(places@), backwards, *final(self)),
    {
        let count: usize = places.len();
        if count == 0 {
            self.selected_event = usize::MAX;
            self.status = message("No events on the active date".to_owned(), false);
            return;
        }
        let ghost all = indices(places@);
        match find_place(places, self.selected_event) {
            Some(k) => {
                let next: usize = step_index(k, backwards, count);
                proof {
                    assert(all[next as int] == places@[next as int]);
                }
                self.selected_event = places[next];
                return;
            },
            None => {},
        }
        proof {
            assert(all[0] == places@[0]);
            assert(all.last() == places@[count - 1]);
        }
        self.selected_event = if backwards {
            places[count - 1]
        } else {
            places[0]
        };
    }

    /// Moves the selection to the next event of the active date, round them.
    pub fn move_month_event_selection(&mut self, backwards: bool)
        ensures
            exists|list: Seq<int>, days: Seq<EventDays>|
                old(self).may_show(list) && super::shown::days_fit(
                    old(self).snapshot.events@,
                    days,
                ) && old(self).moved_on_date(
                    #[trigger] places_on(list, days, old(self).active_date, list.len() as int),
                    backwards,
                    *final(self),
                ),
    {
        let list = self.visible_indices();
        let days = local_days_of(&self.snapshot.events);
        let places = self.find_places_on(&list, &days, self.active_date);
        proof {
            assert(old(self).may_show(indices(list@)));
            assert(indices(list@).len() == list@.len());
        }
        self.move_among_places(&places, backwards);
    }

    /// Who positions the timeline once the date has changed.
    pub open spec fn owner_after_move(self) -> TimelineViewportOwner {
        if self.view == View::Day || self.view == View::Week {
            TimelineViewportOwner::Auto
        } else {
            self.timeline_viewport_owner
        }
    }

    /// The state on another date, with nothing selected.
    pub open spec fn on_date(self, date: Date) -> App {
        App {
            active_date: date,
            selected_event: usize::MAX,
            timeline_viewport_owner: self.owner_after_move(),
            ..self
        }
    }

    /// Goes to a date, with nothing selected.
    pub fn go_to(&mut self, date: Date)
        ensures
            *final(self) == old(self).on_date(date),
    {
        self.active_date = date;
        self.selected_event = usize::MAX;
        if self.view == View::Day || self.view == View::Week {
            self.timeline_viewport_owner = TimelineViewportOwner::Auto;
        }
    }

    /// Moves the active date by days.
    pub fn navigate_date(&mut self, direction: i32)
        ensures
            *final(self) == old(self).on_date(
                old(self).active_date.clamped_shift(direction as int),
            ),
    {
        let date = self.active_date.saturating_plus(direction);
        self.go_to(date);
    }

    /// The date one period from the active one: a month, a week or a day, as the view shows them.
    pub open spec fn next_period(self, backwards: bool) -> Date {
        let active = self.active_date;
        match self.view {
            View::Month => {
                let day = if backwards {
                    previous_month_day(active.clamped().day)
                } else {
                    next_month_day(active.clamped().day)
                };
                match day {
                    Some(day) => Date { day },
                    None => active,
                }
            },
            View::Week => active.clamped_shift(
                if backwards {
                    -7
                } else {
                    7
                },
            ),
            _ => active.clamped_shift(
                if backwards {
                    -1
                } else {
                    1
                },
            ),
        }
    }

    /// Moves the active date by a period.
    pub fn navigate_period(&mut self, backwards: bool)
        ensures
            *final(self) == old(self).on_date(old(self).next_period(backwards)),
    {
        let active = self.active_date;
        let date = match self.view {
            View::Month => {
                let day = if backwards {
                    day_previous_month(active.nearest().day)
                } else {
                    day_next_month(active.nearest().day)
                };
                match day {
                    Some(day) => Date { day },
                    None => active,
                }
            },
            View::Week => active.saturating_plus(
                if backwards {
                    -7
                } else {
                    7
                },
            ),
            _ => active.saturating_plus(
                if backwards {
                    -1
                } else {
                    1
                },
            ),
        };
        self.go_to(date);
    }

    /// The minute at which a timeline that is scrolled starts: within the day, at least an hour
    /// before its end.
    pub open spec fn scrolled(self, delta: int) -> u16 {
        let next = self.timeline_start_minute + delta;
        if next < 0 {
            0
        } else if next > 1_380 {
            1_380
        } else {
            next as u16
        }
    }

    /// Scrolls the timeline; from then on the user positions it.
    pub fn scroll_timeline(&mut self, delta: i32)
        ensures
            *final(self) == (App {
                timeline_start_minute: old(self).scrolled(delta as int),
                timeline_viewport_owner: TimelineViewportOwner::Manual,
                ..*old(self)
            }),
    {
        let next: i64 = self.timeline_start_minute as i64 + delta as i64;
        self.timeline_start_minute = if next < 0 {
            0
        } else if next > 1_380 {
            1_380
        } else {
            next as u16
        };
        self.timeline_viewport_owner = TimelineViewportOwner::Manual;
    }
}

/// Where an event stands among those shown depends on the events, the calendars and the view alone.
pub proof fn lemma_same_view(a: App, b: App, id: Seq<char>, place: Option<int>)
    requires
        a.may_locate(id, place),
        a.snapshot == b.snapshot,
        a.window() == b.window(),
    ensures
        b.may_locate(id, place),
{
    let list = choose|list: Seq<int>| #[trigger]
        a.may_show(list) && place == place_of(a.snapshot.events@, list, id);
    let (start, end) = choose|start: Timestamp, end: Timestamp|
        near_midnight(start, a.window().0) && near_midnight(end, a.window().1) && list
            == #[trigger] a.shown_between(start, end);
    assert(list == b.shown_between(start, end));
    assert(b.may_show(list));
}

/// Leaving an overlay leads back to the mode and the overlays from before it was entered.
pub proof fn law_leaving_undoes_entering(frames: Seq<ModalFrame>, from: Mode, mode: Mode)
    ensures
        return_mode(frames_entered(frames, from, mode)) == from,
        frames_left(frames_entered(frames, from, mode)) == frames,
{
    assert(frames.push(ModalFrame { current: mode, return_to: from }).drop_last() =~= frames);
}

/// An overlay that was turned into another returns to where it would have returned itself.
pub proof fn law_replacing_keeps_the_way_back(frames: Seq<ModalFrame>, mode: Mode)
    ensures
        return_mode(frames_replaced(frames, mode)) == return_mode(frames),
        frames_left(frames_replaced(frames, mode)) == frames_left(frames),
{
    assert(frames_replaced(frames, mode).drop_last() =~= frames_left(frames));
}

/// Going a day forward and a day back leads to the same date.
pub proof fn law_day_steps_cancel(app: App, days: int)
    requires
        app.active_date.valid(),
        app.active_date.shifted(days) is Some,
    ensures
        app.on_date(app.active_date.clamped_shift(days)).active_date.clamped_shift(-days)
            == app.active_date,
{
}

/// The timeline never starts outside the day, nor in its last hour.
pub proof fn law_scrolling_stays_in_the_day(app: App, delta: int)
    ensures
        app.scrolled(delta) <= 1_380,
{
}

} // verus!
