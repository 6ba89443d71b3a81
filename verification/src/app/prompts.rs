//! Details, the search, the palette, the jump to a date, and quick add.

use super::actions::EventAction;
use super::calendars::{next_index, previous_index, step_back, step_forward};
use super::palette::PaletteEntry;
use super::shown::{at_place, days_fit};
use super::{
    command_view, App, Mode, MutationState, UserAction, View, WorkerCommand, WorkerCommandView,
};
use crate::alarm::{AlarmEditorState, AlarmEditorView};
use crate::calendar_form::{text_after_key, type_key};
use crate::event_form::{EditorMode, EditorModeView, EventForm, EventFormView};
use crate::input::{KeyCode, KeyEvent};
use crate::model::{
    find_calendar, index_view, rule_views, Availability, EventDraft, EventDraftView, EventSpan,
    EventTimeInput, TimeZoneProvenance,
};
use crate::quick_add::{QuickAddDraft, QuickAddParseResult, QuickAddStatus};
use crate::recurrence::{RecurrenceEditorState, RecurrenceEditorView, WeekdayCursor, WeekdaySet};
use crate::search::{local_days_of, EventDays};
use crate::sorting::indices;
use crate::text::{
    ascii_lower, concat3, same_text, signed_decimal, to_ascii_lower, to_signed_decimal, trim,
    trimmed,
};
use crate::time::{
    day_year, iso_date, iso_date_text, iso_text, local_today, local_wall_time, local_zone_name,
    was_zone, may_be_today, parse_day, parse_iso_date, parsed_day, shows_near, wall_text,
    wall_time_text, year_of_day, Date, Timestamp, WallTime,
};
use vstd::prelude::*;
use vstd::view::View as _;

verus! {

/// The date that a text names on a day: today, tomorrow, yesterday, or a date in one of three
/// forms, the last of them in the current year.
pub open spec fn jump_date(input: Seq<char>, today: Date) -> Option<Date> {
    let value = trimmed(input);
    let lower = ascii_lower(value);
    if lower == "today"@ {
        Some(today)
    } else if lower == "tomorrow"@ {
        Some(today.clamped_shift(1))
    } else if lower == "yesterday"@ {
        Some(today.clamped_shift(-1))
    } else {
        let with_year = value + " "@ + signed_decimal(year_of_day(today.clamped().day) as int);
        match (
            iso_date(value),
            parsed_day(value, "%d.%m.%Y"@),
            parsed_day(with_year, "%b %d %Y"@),
        ) {
            (Some(date), _, _) => Some(date),
            (None, Some(day), _) => Some(Date { day }),
            (None, None, Some(day)) => Some(Date { day }),
            (None, None, None) => None,
        }
    }
}

/// The date that a text names on a day.
pub fn date_jump_on(input: &str, today: Date) -> (r: Option<Date>)
    ensures
        r == jump_date(input@, today),
{
    let value = trim(input);
    let lower = to_ascii_lower(value.as_str());
    if same_text(lower.as_str(), "today") {
        return Some(today);
    }
    if same_text(lower.as_str(), "tomorrow") {
        return Some(today.saturating_plus(1));
    }
    if same_text(lower.as_str(), "yesterday") {
        return Some(today.saturating_plus(-1));
    }
    match parse_iso_date(value.as_str()) {
        Some(date) => return Some(date),
        None => {},
    }
    match parse_day(value.as_str(), "%d.%m.%Y") {
        Some(day) => return Some(Date { day }),
        None => {},
    }
    let year = to_signed_decimal(day_year(today.nearest().day) as i64);
    match parse_day(concat3(value.as_str(), " ", year.as_str()).as_str(), "%b %d %Y") {
        Some(day) => Some(Date { day }),
        None => None,
    }
}

/// The date that a text names today.
pub fn parse_date_jump(input: &str) -> (r: Option<Date>)
    ensures
        exists|today: Date| may_be_today(today) && r == #[trigger] jump_date(input@, today),
{
    let today = local_today();
    date_jump_on(input, today)
}

/// A position scrolled by a number of lines, within what it can be.
pub open spec fn scrolled_by(position: u16, lines: int) -> u16 {
    if position + lines < 0 {
        0
    } else if position + lines > u16::MAX {
        u16::MAX
    } else {
        (position + lines) as u16
    }
}

pub(crate) fn scroll_by(position: u16, lines: i32) -> (r: u16)
    ensures
        r == scrolled_by(position, lines as int),
{
    let next: i64 = position as i64 + lines as i64;
    if next < 0 {
        0
    } else if next > u16::MAX as i64 {
        u16::MAX
    } else {
        next as u16
    }
}

/// The lines by which a key scrolls a text.
pub open spec fn scroll_lines(code: KeyCode) -> Option<i32> {
    if code == KeyCode::Down || code == KeyCode::Char('j') {
        Some(1)
    } else if code == KeyCode::Up || code == KeyCode::Char('k') {
        Some((-1) as i32)
    } else if code == KeyCode::PageDown {
        Some(8)
    } else if code == KeyCode::PageUp {
        Some((-8) as i32)
    } else {
        None
    }
}

pub(crate) fn lines_of(code: KeyCode) -> (r: Option<i32>)
    ensures
        r == scroll_lines(code),
{
    if code == KeyCode::Down || code == KeyCode::Char('j') {
        Some(1)
    } else if code == KeyCode::Up || code == KeyCode::Char('k') {
        Some(-1)
    } else if code == KeyCode::PageDown {
        Some(8)
    } else if code == KeyCode::PageUp {
        Some(-8)
    } else {
        None
    }
}

/// The draft of an event that quick add made.
pub open spec fn quick_draft(draft: QuickAddDraft, zone: Seq<char>) -> EventDraftView {
    EventDraftView {
        id: None,
        occurrence_id: None,
        occurrence_start: None,
        occurrence_calendar_id: None,
        calendar_id: draft.calendar_id@,
        title: draft.title@,
        time: draft.time,
        location: draft.location@,
        notes: draft.notes@,
        url: Seq::empty(),
        time_zone: zone,
        availability: Availability::Busy,
        attendees: Seq::empty(),
        alarms: draft.alarms@,
        recurrence: rule_views(draft.recurrence@),
    }
}

/// The form of an event that quick add made, whose times are shown by two texts.
pub open spec fn quick_form(
    draft: QuickAddDraft,
    calendar_index: int,
    start: Seq<char>,
    end: Seq<char>,
    zone: Seq<char>,
) -> EventFormView {
    EventFormView {
        editor_mode: EditorModeView::Create,
        id: None,
        occurrence_id: None,
        occurrence_start: None,
        occurrence_calendar_id: None,
        title: draft.title@,
        calendar_index,
        start,
        end,
        all_day: draft.time is AllDay,
        location: draft.location@,
        notes: draft.notes@,
        url: Seq::empty(),
        alarm_state: AlarmEditorView::of_existing(draft.alarms@),
        recurrence: RecurrenceEditorView::of_rules(rule_views(draft.recurrence@)),
        weekday_cursor: WeekdayCursor::Monday,
        weekday_selection: WeekdaySet::none(),
        time_zone: zone,
        time_zone_provenance: TimeZoneProvenance::ExplicitEvent,
        availability: Availability::Busy,
        span: EventSpan::ThisEvent,
        recurrence_scope: None,
        selected: 0,
        all_day_editor: None,
        create_all_day_timed_backup: None,
    }
}

/// The texts that show the times of an event that quick add made, where its instants show as
/// `start` and `end` on the clock; there are none for dates that are not known.
pub open spec fn quick_times(time: EventTimeInput, start: WallTime, end: WallTime) -> Option<
    (Seq<char>, Seq<char>),
> {
    match time {
        EventTimeInput::Timed { .. } => Some((wall_text(start), wall_text(end))),
        EventTimeInput::AllDay { start_date, end_date_exclusive } => Some(
            (iso_text(start_date), iso_text(end_date_exclusive.clamped_shift(-1))),
        ),
        EventTimeInput::LegacyAllDayUnknown { .. } => None,
    }
}

/// Whether a clock may show wall times for the start and the end of what was read.
pub open spec fn may_be_shown(
    parsed: QuickAddParseResult,
    start: WallTime,
    end: WallTime,
) -> bool {
    match parsed.draft {
        Some(draft) => match draft.time {
            EventTimeInput::Timed { start: first, end: last } => shows_near(first, start)
                && shows_near(last, end),
            _ => true,
        },
        None => true,
    }
}

fn quick_time_texts(time: EventTimeInput, start: WallTime, end: WallTime) -> (r: Option<
    (String, String),
>)
    requires
        start.valid(),
        end.valid(),
    ensures
        match r {
            Some(shown) => quick_times(time, start, end) == Some((shown.0@, shown.1@)),
            None => quick_times(time, start, end) is None,
        },
{
    match time {
        EventTimeInput::Timed { .. } => Some((wall_time_text(start), wall_time_text(end))),
        EventTimeInput::AllDay { start_date, end_date_exclusive } => Some(
            (iso_date_text(start_date), iso_date_text(end_date_exclusive.saturating_plus(-1))),
        ),
        EventTimeInput::LegacyAllDayUnknown { .. } => None,
    }
}

impl App {
    /// The state after a key in details.
    pub open spec fn after_details_key(self, key: KeyEvent, post: App, r: Option<WorkerCommand>) -> bool {
        let code = key.code;
        if code == KeyCode::Char('o') {
            self.after_open_link(post, r)
        } else {
            &&& r is None
            &&& if code == KeyCode::Esc || code == KeyCode::Char('q') {
                self.details_closed(post)
            } else if code == KeyCode::Char('e') {
                self.after_details_action(EventAction::Edit, post)
            } else if code == KeyCode::Char('D') {
                self.after_details_action(EventAction::Duplicate, post)
            } else if code == KeyCode::Char('d') {
                self.after_details_action(EventAction::Delete, post)
            } else {
                match scroll_lines(code) {
                    Some(lines) => post == (App {
                        detail_scroll: scrolled_by(self.detail_scroll, lines as int),
                        ..self
                    }),
                    None => post == self,
                }
            }
        }
    }

    /// Handles a key in details.
    pub fn handle_details(&mut self, key: KeyEvent) -> (r: Option<WorkerCommand>)
        requires
            old(self).wf(),
        ensures
            old(self).after_details_key(key, *final(self), r),
            final(self).wf(),
    {
        match key.code {
            KeyCode::Char('o') => return self.open_detail_link(),
            KeyCode::Esc | KeyCode::Char('q') => self.close_details(),
            KeyCode::Char('e') => self.details_event_action(EventAction::Edit),
            KeyCode::Char('D') => self.details_event_action(EventAction::Duplicate),
            KeyCode::Char('d') => self.details_event_action(EventAction::Delete),
            code => match lines_of(code) {
                Some(lines) => self.detail_scroll = scroll_by(self.detail_scroll, lines),
                None => {},
            },
        }
        None
    }

    /// The state on a found event: its first day in the agenda, with the event selected while it is
    /// shown, and with the context of details where they are asked for.
    pub open spec fn result_taken(
        self,
        id: Seq<char>,
        date: Date,
        details: bool,
        post: App,
    ) -> bool {
        let there = App { active_date: date, view: View::Agenda, ..self };
        &&& post == (App {
            selected_event: post.selected_event,
            interaction_context: post.interaction_context,
            ..there
        })
        &&& post.has_selected(id)
        &&& if details {
            exists|index: Option<int>| #[trigger]
                post.may_act_on(id, index) && match index {
                    Some(i) => post.interaction_context matches Some(context)
                        && there.is_context_of(self.snapshot.events@[i], context),
                    None => post.interaction_context == self.interaction_context,
                }
        } else {
            post.interaction_context == self.interaction_context
        }
    }

    fn take_result(&mut self, id: &str, date: Date, details: bool)
        ensures
            old(self).result_taken(id@, date, details, *final(self)),
            old(self).wf() ==> final(self).wf(),
    {
        self.active_date = date;
        self.view = View::Agenda;
        let list = self.visible_indices();
        let ghost there = *self;
        let place = self.place_in(&list, id);
        let context = match place {
            Some(k) => {
                proof {
                    assert(indices(list@)[k as int] == list@[k as int]);
                }
                if details {
                    Some(self.interaction_context_for(&self.snapshot.events[list[k]]))
                } else {
                    None
                }
            },
            None => None,
        };
        self.selected_event = match place {
            Some(k) => k,
            None => usize::MAX,
        };
        match context {
            Some(context) => self.interaction_context = Some(context),
            None => {},
        }
        proof {
            assert(there.may_show(indices(list@)));
            super::update::lemma_same_shown(there, *self, indices(list@));
            assert(self.may_show(indices(list@)));
            assert(self.may_locate(id@, index_view(place)));
            let index = match place {
                Some(k) => Some(list@[k as int] as int),
                None => None::<int>,
            };
            assert(self.may_act_on(id@, index));
        }
    }

    /// The state after a found event is taken, where events take place on given days.
    pub open spec fn after_search_enter(
        self,
        days: Seq<EventDays>,
        details: bool,
        post: App,
        r: Option<WorkerCommand>,
    ) -> bool {
        match at_place(self.found_on(days), self.search_selected as int) {
            None => r is None && post == self,
            Some(i) => exists|taken: App, turned: App| #[trigger]
                self.result_taken(self.snapshot.events@[i].id@, days[i].first, details, taken)
                    && (if details {
                    taken.modal_entered(Mode::Details, turned)
                } else {
                    taken.modal_left(turned)
                }) && #[trigger] turned.range_asked(false, post, r),
        }
    }

    fn take_search_result(&mut self, details: bool) -> (r: Option<WorkerCommand>)
        ensures
            exists|days: Seq<EventDays>|
                days_fit(old(self).snapshot.events@, days) && #[trigger] old(
                    self,
                ).after_search_enter(days, details, *final(self), r),
            old(self).wf() ==> final(self).wf(),
    {
        let days = local_days_of(&self.snapshot.events);
        let list = self.search_on(&days);
        proof {
            assert(indices(list@).len() == list@.len());
        }
        if self.search_selected >= list.len() {
            proof {
                assert(old(self).after_search_enter(days@, details, *self, None));
            }
            return None;
        }
        let i: usize = list[self.search_selected];
        proof {
            assert(indices(list@)[self.search_selected as int] == i);
        }
        let id = self.snapshot.events[i].id.clone();
        self.take_result(id.as_str(), days[i].first, details);
        let ghost taken = *self;
        if details {
            self.enter_modal(Mode::Details);
        } else {
            self.leave_modal();
        }
        let ghost turned = *self;
        let r = self.ask_range(false);
        proof {
            assert(old(self).result_taken(id@, days@[i as int].first, details, taken));
            assert(turned.range_asked(false, *self, r));
            assert(old(self).after_search_enter(days@, details, *self, r));
        }
        r
    }

    /// Whether a key changes a text that it is typed into, or would.
    pub open spec fn is_typing(key: KeyEvent) -> bool {
        key.code == KeyCode::Backspace || (key.code is Char && !key.modifiers.control)
    }

    /// The state after a key is typed into the search; what is found then is looked at anew.
    pub open spec fn search_typed(self, key: KeyEvent, post: App) -> bool {
        &&& post == (App {
            search_query: post.search_query,
            search_selected: if Self::is_typing(key) {
                0
            } else {
                self.search_selected
            },
            ..self
        })
        &&& post.search_query@ == text_after_key(self.search_query@, key)
    }

    fn key_types(key: KeyEvent) -> (r: bool)
        ensures
            r == Self::is_typing(key),
    {
        match key.code {
            KeyCode::Backspace => true,
            KeyCode::Char(_) => !key.modifiers.control,
            _ => false,
        }
    }

    fn type_search(&mut self, key: KeyEvent)
        ensures
            old(self).search_typed(key, *final(self)),
            old(self).wf() ==> final(self).wf(),
    {
        let selected: usize = if Self::key_types(key) {
            0
        } else {
            self.search_selected
        };
        type_key(&mut self.search_query, key);
        self.search_selected = selected;
    }

    /// The state with the search left.
    pub open spec fn search_left(self, post: App) -> bool {
        &&& (App { search_query: post.search_query, ..self }).modal_left(post)
        &&& post.search_query@.len() == 0
    }

    fn leave_search(&mut self)
        ensures
            old(self).search_left(*final(self)),
            old(self).wf() ==> final(self).wf(),
    {
        self.search_query = String::new();
        self.leave_modal();
    }

    /// The state with the next of the found events chosen.
    pub open spec fn next_result(self, post: App) -> bool {
        exists|list: Seq<int>| #[trigger]
            self.may_find(list) && post == (App {
                search_selected: next_index(self.search_selected, list.len() as int),
                ..self
            })
    }

    fn choose_next_result(&mut self)
        ensures
            old(self).next_result(*final(self)),
            old(self).wf() ==> final(self).wf(),
    {
        let list = self.search_indices();
        proof {
            assert(old(self).may_find(indices(list@)));
            assert(indices(list@).len() == list@.len());
        }
        self.search_selected = step_forward(self.search_selected, list.len());
    }

    /// The state after a key in the search.
    pub open spec fn after_search_key(self, key: KeyEvent, post: App, r: Option<WorkerCommand>) -> bool {
        let code = key.code;
        if code == KeyCode::Enter {
            exists|days: Seq<EventDays>|
                days_fit(self.snapshot.events@, days) && #[trigger] self.after_search_enter(
                    days,
                    key.modifiers.shift,
                    post,
                    r,
                )
        } else {
            &&& r is None
            &&& if code == KeyCode::Esc {
                self.search_left(post)
            } else if code == KeyCode::Down || code == KeyCode::Tab {
                self.next_result(post)
            } else if code == KeyCode::Up || code == KeyCode::BackTab {
                post == (App { search_selected: previous_index(self.search_selected), ..self })
            } else {
                self.search_typed(key, post)
            }
        }
    }

    /// Handles a key in the search.
    pub fn handle_search(&mut self, key: KeyEvent) -> (r: Option<WorkerCommand>)
        requires
            old(self).wf(),
        ensures
            old(self).after_search_key(key, *final(self), r),
            final(self).wf(),
    {
        match key.code {
            KeyCode::Enter => return self.take_search_result(key.modifiers.shift),
            KeyCode::Esc => self.leave_search(),
            KeyCode::Down => self.choose_next_result(),
            KeyCode::Tab => self.choose_next_result(),
            KeyCode::Up => self.search_selected = step_back(self.search_selected),
            KeyCode::BackTab => self.search_selected = step_back(self.search_selected),
            _ => self.type_search(key),
        }
        None
    }

    /// The state after the chosen entry of the palette is carried out; where its command cannot be
    /// used the user is told why.
    pub open spec fn entry_taken(
        self,
        entries: Seq<PaletteEntry>,
        post: App,
        r: Option<WorkerCommand>,
    ) -> bool {
        if self.palette_selected >= entries.len() {
            r is None && post == self
        } else {
            let entry = entries[self.palette_selected as int];
            if entry.enabled {
                self.after_palette_command(entry.command, post, r)
            } else {
                r is None && self.told(
                    match entry.reason {
                        Some(reason) => reason@,
                        None => "This command is unavailable"@,
                    },
                    true,
                    post,
                )
            }
        }
    }

    fn take_entry(&mut self) -> (r: Option<WorkerCommand>)
        requires
            old(self).wf(),
        ensures
            exists|selected: Option<int>, entries: Seq<PaletteEntry>|
                old(self).may_select(selected) && #[trigger] old(self).are_entries(
                    selected,
                    entries,
                ) && old(self).entry_taken(entries, *final(self), r),
            final(self).wf(),
    {
        let selected = self.selected_event_index();
        let entries = self.palette_entries_for(selected);
        proof {
            assert(old(self).may_select(index_view(selected)));
            assert(old(self).are_entries(index_view(selected), entries@));
        }
        if self.palette_selected >= entries.len() {
            return None;
        }
        let entry = entries[self.palette_selected];
        if entry.enabled {
            self.execute_palette(entry.command)
        } else {
            self.tell(entry.unavailable_reason(), true);
            None
        }
    }

    /// The state after a key is typed into the palette; what is found then is looked at anew.
    pub open spec fn palette_typed(self, key: KeyEvent, post: App) -> bool {
        &&& post == (App {
            palette_query: post.palette_query,
            palette_selected: if Self::is_typing(key) {
                0
            } else {
                self.palette_selected
            },
            ..self
        })
        &&& post.palette_query@ == text_after_key(self.palette_query@, key)
    }

    fn type_palette(&mut self, key: KeyEvent)
        ensures
            old(self).palette_typed(key, *final(self)),
            old(self).wf() ==> final(self).wf(),
    {
        let selected: usize = if Self::key_types(key) {
            0
        } else {
            self.palette_selected
        };
        type_key(&mut self.palette_query, key);
        self.palette_selected = selected;
    }

    /// The state with the next entry of the palette chosen.
    pub open spec fn next_entry(self) -> App {
        App {
            palette_selected: next_index(
                self.palette_selected,
                self.found_commands().len() as int,
            ),
            ..self
        }
    }

    fn choose_next_entry(&mut self)
        ensures
            *final(self) == old(self).next_entry(),
    {
        let entries = self.palette_entries();
        self.palette_selected = step_forward(self.palette_selected, entries.len());
    }

    /// The state after a key in the palette.
    pub open spec fn after_palette_key(self, key: KeyEvent, post: App, r: Option<WorkerCommand>) -> bool {
        let code = key.code;
        if code == KeyCode::Enter {
            exists|selected: Option<int>, entries: Seq<PaletteEntry>|
                self.may_select(selected) && #[trigger] self.are_entries(selected, entries)
                    && self.entry_taken(entries, post, r)
        } else {
            &&& r is None
            &&& if code == KeyCode::Esc {
                self.modal_left(post)
            } else if code == KeyCode::Down || code == KeyCode::Tab {
                post == self.next_entry()
            } else if code == KeyCode::Up || code == KeyCode::BackTab {
                post == (App { palette_selected: previous_index(self.palette_selected), ..self })
            } else {
                self.palette_typed(key, post)
            }
        }
    }

    /// Handles a key in the palette.
    pub fn handle_palette(&mut self, key: KeyEvent) -> (r: Option<WorkerCommand>)
        requires
            old(self).wf(),
        ensures
            old(self).after_palette_key(key, *final(self), r),
            final(self).wf(),
    {
        match key.code {
            KeyCode::Enter => return self.take_entry(),
            KeyCode::Esc => self.leave_modal(),
            KeyCode::Down => self.choose_next_entry(),
            KeyCode::Tab => self.choose_next_entry(),
            KeyCode::Up => self.palette_selected = step_back(self.palette_selected),
            KeyCode::BackTab => self.palette_selected = step_back(self.palette_selected),
            _ => self.type_palette(key),
        }
        None
    }

    /// The state after a key in the jump to a date.
    pub open spec fn after_date_key(self, key: KeyEvent, post: App, r: Option<WorkerCommand>) -> bool {
        if key.code == KeyCode::Enter {
            exists|today: Date|
                may_be_today(today) && match #[trigger] jump_date(self.palette_query@, today) {
                    Some(date) => self.after_action(UserAction::GoToDate(date), post, r),
                    None => r is None && self.told(
                        "Use YYYY-MM-DD, DD.MM.YYYY, today, tomorrow, or yesterday"@,
                        true,
                        post,
                    ),
                }
        } else if key.code == KeyCode::Esc {
            r is None && self.modal_left(post)
        } else {
            &&& r is None
            &&& post == (App { palette_query: post.palette_query, ..self })
            &&& post.palette_query@ == text_after_key(self.palette_query@, key)
        }
    }

    /// Handles a key in the jump to a date.
    pub fn handle_date_jump(&mut self, key: KeyEvent) -> (r: Option<WorkerCommand>)
        requires
            old(self).wf(),
        ensures
            old(self).after_date_key(key, *final(self), r),
            final(self).wf(),
    {
        match key.code {
            KeyCode::Enter => match parse_date_jump(self.palette_query.as_str()) {
                Some(date) => self.execute_action(UserAction::GoToDate(date)),
                None => {
                    self.tell(
                        "Use YYYY-MM-DD, DD.MM.YYYY, today, tomorrow, or yesterday",
                        true,
                    );
                    None
                },
            },
            KeyCode::Esc => {
                self.leave_modal();
                None
            },
            _ => {
                type_key(&mut self.palette_query, key);
                None
            },
        }
    }

    /// Whether events may be created in the calendar with an identity.
    pub open spec fn may_create_in(self, id: Seq<char>) -> bool {
        self.calendar_index(id) matches Some(i)
            && self.snapshot.calendars@[i].permissions.can_create_events
    }

    /// The state after quick add is saved.
    pub open spec fn after_quick_save(
        self,
        parsed: QuickAddParseResult,
        zone: Seq<char>,
        post: App,
        r: Option<WorkerCommand>,
    ) -> bool {
        if self.mutation_state == MutationState::Saving {
            r is None && post == self
        } else {
            match parsed.draft {
                None => r is None && self.told(parsed.first_warning(), true, post),
                Some(draft) => if parsed.status != QuickAddStatus::Ready {
                    r is None && post == self
                } else if !self.may_create_in(draft.calendar_id@) {
                    r is None && self.told("Calendar is read-only"@, true, post)
                } else {
                    &&& post == (App { mutation_state: MutationState::Saving, ..self })
                    &&& command_view(r) == Some(WorkerCommandView::Create(quick_draft(draft, zone)))
                },
            }
        }
    }

    fn build_quick(draft: QuickAddDraft, time_zone: String) -> (r: EventDraft)
        ensures
            r@ == quick_draft(draft, time_zone@),
    {
        let made = EventDraft {
            id: None,
            occurrence_id: None,
            occurrence_start: None,
            occurrence_calendar_id: None,
            calendar_id: draft.calendar_id,
            title: draft.title,
            time: draft.time,
            location: draft.location,
            notes: draft.notes,
            url: String::new(),
            time_zone,
            availability: Availability::Busy,
            attendees: Vec::new(),
            alarms: draft.alarms,
            recurrence: draft.recurrence,
        };
        proof {
            assert(made@ =~= quick_draft(draft, time_zone@));
        }
        made
    }

    /// Saves quick add, whose text has been read.
    pub fn save_quick_add(&mut self, parsed: QuickAddParseResult, time_zone: String) -> (r: Option<
        WorkerCommand,
    >)
        ensures
            old(self).after_quick_save(parsed, time_zone@, *final(self), r),
            old(self).wf() ==> final(self).wf(),
    {
        if self.mutation_state == MutationState::Saving {
            return None;
        }
        let draft = match parsed.draft {
            None => {
                if parsed.warnings.len() > 0 {
                    self.tell(parsed.warnings[0].as_str(), true);
                } else {
                    self.tell("Quick Add needs more information", true);
                }
                return None;
            },
            Some(draft) => draft,
        };
        if parsed.status != QuickAddStatus::Ready {
            return None;
        }
        let allowed = match self.calendar(draft.calendar_id.as_str()) {
            Some(calendar) => calendar.permissions.can_create_events,
            None => false,
        };
        if !allowed {
            self.tell("Calendar is read-only", true);
            return None;
        }
        self.mutation_state = MutationState::Saving;
        Some(WorkerCommand::Create(Self::build_quick(draft, time_zone)))
    }

    /// The state after quick add is turned into the event form, where its instants show as `start`
    /// and `end` on the clock.
    pub open spec fn after_quick_edit(
        self,
        parsed: QuickAddParseResult,
        start: WallTime,
        end: WallTime,
        zone: Seq<char>,
        post: App,
    ) -> bool {
        match parsed.draft {
            None => self.told("Fix Quick Add before editing details"@, true, post),
            Some(draft) => match (
                self.calendar_index(draft.calendar_id@),
                quick_times(draft.time, start, end),
            ) {
                (None, _) => post == self,
                (Some(_), None) => self.told(
                    "Quick Add cannot edit a legacy all-day draft"@,
                    true,
                    post,
                ),
                (Some(i), Some(shown)) => {
                    &&& (App { form: post.form, form_dirty: true, ..self }).modal_replaced(
                        Mode::Form,
                        post,
                    )
                    &&& post.form matches Some(form) && form.wf() && form@ == quick_form(
                        draft,
                        i,
                        shown.0,
                        shown.1,
                        zone,
                    )
                },
            },
        }
    }

    fn build_quick_form(
        draft: QuickAddDraft,
        calendar_index: usize,
        start: String,
        end: String,
        time_zone: String,
    ) -> (r: EventForm)
        ensures
            r@ == quick_form(draft, calendar_index as int, start@, end@, time_zone@),
            r.wf(),
    {
        let all_day = match draft.time {
            EventTimeInput::AllDay { .. } => true,
            _ => false,
        };
        EventForm {
            editor_mode: EditorMode::Create,
            id: None,
            occurrence_id: None,
            occurrence_start: None,
            occurrence_calendar_id: None,
            title: draft.title,
            calendar_index,
            start,
            end,
            all_day,
            location: draft.location,
            notes: draft.notes,
            url: String::new(),
            alarm_state: AlarmEditorState::from_existing(&draft.alarms),
            recurrence: RecurrenceEditorState::from_rules(&draft.recurrence),
            weekday_cursor: WeekdayCursor::Monday,
            weekday_selection: WeekdaySet::new(),
            time_zone,
            time_zone_provenance: TimeZoneProvenance::ExplicitEvent,
            availability: Availability::Busy,
            span: EventSpan::ThisEvent,
            recurrence_scope: None,
            selected: 0,
            all_day_editor: None,
            create_all_day_timed_backup: None,
        }
    }

    /// Turns quick add, whose text has been read, into the event form.
    pub fn edit_quick_add(
        &mut self,
        parsed: QuickAddParseResult,
        start: WallTime,
        end: WallTime,
        time_zone: String,
    )
        requires
            old(self).wf(),
            start.valid(),
            end.valid(),
        ensures
            old(self).after_quick_edit(parsed, start, end, time_zone@, *final(self)),
            final(self).wf(),
    {
        let draft = match parsed.draft {
            None => {
                self.tell("Fix Quick Add before editing details", true);
                return;
            },
            Some(draft) => draft,
        };
        let calendar_index: usize = match find_calendar(
            &self.snapshot.calendars,
            draft.calendar_id.as_str(),
        ) {
            Some(i) => i,
            None => return,
        };
        let (start, end) = match quick_time_texts(draft.time, start, end) {
            Some(shown) => shown,
            None => {
                self.tell("Quick Add cannot edit a legacy all-day draft", true);
                return;
            },
        };
        let form = Self::build_quick_form(draft, calendar_index, start, end, time_zone);
        self.form = Some(form);
        self.form_dirty = true;
        self.replace_modal(Mode::Form);
    }

    /// The state after a key in quick add, where its text was read as `parsed`.
    pub open spec fn after_quick_key(
        self,
        key: KeyEvent,
        parsed: QuickAddParseResult,
        post: App,
        r: Option<WorkerCommand>,
    ) -> bool {
        if key.modifiers.control && key.code == KeyCode::Char('s') {
            exists|zone: Seq<char>|
                was_zone(zone) && #[trigger] self.after_quick_save(parsed, zone, post, r)
        } else if key.modifiers.control && key.code == KeyCode::Char('e') {
            &&& r is None
            &&& exists|start: WallTime, end: WallTime, zone: Seq<char>|
                was_zone(zone) && may_be_shown(parsed, start, end) && #[trigger] self.after_quick_edit(
                    parsed,
                    start,
                    end,
                    zone,
                    post,
                )
        } else if key.code == KeyCode::Esc {
            &&& r is None
            &&& (App { mutation_state: MutationState::Idle, ..self }).modal_left(post)
        } else {
            &&& r is None
            &&& post == (App { quick_add_input: post.quick_add_input, ..self })
            &&& post.quick_add_input@ == text_after_key(self.quick_add_input@, key)
        }
    }

    /// Handles a key in quick add, whose text has been read.
    pub fn handle_quick_add(&mut self, key: KeyEvent, parsed: QuickAddParseResult) -> (r: Option<
        WorkerCommand,
    >)
        requires
            old(self).wf(),
        ensures
            old(self).after_quick_key(key, parsed, *final(self), r),
            final(self).wf(),
    {
        if key.modifiers.control && key.code == KeyCode::Char('s') {
            let zone = local_zone_name();
            let r = self.save_quick_add(parsed, zone);
            proof {
                assert(old(self).after_quick_save(parsed, zone@, *self, r));
            }
            return r;
        }
        if key.modifiers.control && key.code == KeyCode::Char('e') {
            let zone = local_zone_name();
            let (start, end) = match &parsed.draft {
                Some(draft) => match draft.time {
                    EventTimeInput::Timed { start, end } => (
                        local_wall_time(start),
                        local_wall_time(end),
                    ),
                    _ => (local_wall_time(Timestamp { nanos: 0 }), local_wall_time(
                        Timestamp { nanos: 0 },
                    )),
                },
                None => (local_wall_time(Timestamp { nanos: 0 }), local_wall_time(
                    Timestamp { nanos: 0 },
                )),
            };
            self.edit_quick_add(parsed, start, end, zone);
            proof {
                assert(old(self).after_quick_edit(parsed, start, end, zone@, *self));
            }
            return None;
        }
        if key.code == KeyCode::Esc {
            self.mutation_state = MutationState::Idle;
            self.leave_modal();
            return None;
        }
        type_key(&mut self.quick_add_input, key);
        None
    }
}

} // verus!
