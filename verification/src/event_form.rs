//! The form in which an event is created, edited or duplicated.

use crate::alarm::{
    browsing, law_untouched_alarms_are_preserved, outcome_view, popped, AlarmEditorState,
    AlarmEditorView, AlarmKeyOutcome, EditableAlarm,
};
use crate::input::{KeyCode, KeyEvent};
use crate::model::{
    calendar_at, calendar_named, find_calendar, nine_on, rule_views, Alarm, AlarmMutation,
    Availability, CalendarInfo, Event, EventDraft, EventDraftView, EventSpan, EventTimeInput,
    EventTimeMutation, EventView, RecurrenceFrequency, RecurrenceMutationScope, RecurrenceRule,
    RecurrenceRuleView, TimeZoneProvenance,
};
use crate::recurrence::{
    rules_view, RecurrenceEditorDataView, RecurrenceEditorState, RecurrenceEditorView,
    RecurrenceEndMode, WeekdayCursor, WeekdaySet,
};
use crate::seqs::{lemma_first_from, lemma_wrap, neighbour, step_index};
use crate::text::{
    contains, decimal, is_blank, join, joined, lemma_texts_push, occurs_in, opt_view, result_view,
    texts, to_decimal, trim, trimmed,
};
use crate::time::{
    falls_near, iso_date, iso_date_text, iso_text, lemma_read_and_shown, local_single, local_today,
    local_wall_time, may_be_today, parse_iso_date, parse_wall_time, read_as, read_once, reads_near,
    shows_near, wall_text, wall_time, wall_time_text, was_zone, Date, Timestamp, WallTime,
};
use vstd::prelude::*;
use vstd::string::StringExecFns;

verus! {

/// A line of the form.
#[derive(Clone, Copy, Debug, PartialEq, Eq, Structural)]
pub enum FormField {
    Title,
    Calendar,
    Start,
    End,
    AllDay,
    Location,
    Notes,
    Url,
    Alarms,
    Recurrence,
    RecurrenceInterval,
    Weekdays,
    RecurrenceEnds,
    RecurrenceEndDate,
    RecurrenceOccurrences,
    TimeZone,
    Availability,
    Scope,
}

/// The lines of the form, in order. The scope of an edit is chosen elsewhere.
pub open spec fn all_fields() -> Seq<FormField> {
    seq![
        FormField::Title,
        FormField::Calendar,
        FormField::Start,
        FormField::End,
        FormField::AllDay,
        FormField::Location,
        FormField::Notes,
        FormField::Url,
        FormField::Alarms,
        FormField::Recurrence,
        FormField::RecurrenceInterval,
        FormField::Weekdays,
        FormField::RecurrenceEnds,
        FormField::RecurrenceEndDate,
        FormField::RecurrenceOccurrences,
        FormField::TimeZone,
        FormField::Availability,
    ]
}

impl FormField {
    /// The lines of the form, in order.
    pub fn all() -> (r: Vec<FormField>)
        ensures
            r@ == all_fields(),
    {
        let fields = vec![
            FormField::Title,
            FormField::Calendar,
            FormField::Start,
            FormField::End,
            FormField::AllDay,
            FormField::Location,
            FormField::Notes,
            FormField::Url,
            FormField::Alarms,
            FormField::Recurrence,
            FormField::RecurrenceInterval,
            FormField::Weekdays,
            FormField::RecurrenceEnds,
            FormField::RecurrenceEndDate,
            FormField::RecurrenceOccurrences,
            FormField::TimeZone,
            FormField::Availability,
        ];
        proof {
            assert(fields@ =~= all_fields());
        }
        fields
    }

    /// The name of the line.
    pub open spec fn text(self) -> Seq<char> {
        match self {
            FormField::Title => "Title"@,
            FormField::Calendar => "Calendar"@,
            FormField::Start => "Start"@,
            FormField::End => "End"@,
            FormField::AllDay => "All day"@,
            FormField::Location => "Location"@,
            FormField::Notes => "Notes"@,
            FormField::Url => "URL"@,
            FormField::Alarms => "Alerts"@,
            FormField::Recurrence => "Repeat"@,
            FormField::RecurrenceInterval => "Interval"@,
            FormField::Weekdays => "Days"@,
            FormField::RecurrenceEnds => "Ends"@,
            FormField::RecurrenceEndDate => "End date"@,
            FormField::RecurrenceOccurrences => "Occurrences"@,
            FormField::TimeZone => "Time zone"@,
            FormField::Availability => "Availability"@,
            FormField::Scope => "Edit scope"@,
        }
    }

    /// The name of the line.
    pub fn label(self) -> (r: &'static str)
        ensures
            r@ == self.text(),
    {
        match self {
            FormField::Title => "Title",
            FormField::Calendar => "Calendar",
            FormField::Start => "Start",
            FormField::End => "End",
            FormField::AllDay => "All day",
            FormField::Location => "Location",
            FormField::Notes => "Notes",
            FormField::Url => "URL",
            FormField::Alarms => "Alerts",
            FormField::Recurrence => "Repeat",
            FormField::RecurrenceInterval => "Interval",
            FormField::Weekdays => "Days",
            FormField::RecurrenceEnds => "Ends",
            FormField::RecurrenceEndDate => "End date",
            FormField::RecurrenceOccurrences => "Occurrences",
            FormField::TimeZone => "Time zone",
            FormField::Availability => "Availability",
            FormField::Scope => "Edit scope",
        }
    }
}

/// What the form is for. A duplicate is not an ordinary new event, though it has no identity yet.
#[derive(Debug, PartialEq, Eq)]
pub enum EditorMode {
    Create,
    Edit { event_id: String },
    Duplicate { source_id: String },
}

/// What the form is for, as values of mathematics.
pub ghost enum EditorModeView {
    Create,
    Edit { event_id: Seq<char> },
    Duplicate { source_id: Seq<char> },
}

impl View for EditorMode {
    type V = EditorModeView;

    open spec fn view(&self) -> EditorModeView {
        match self {
            EditorMode::Create => EditorModeView::Create,
            EditorMode::Edit { event_id } => EditorModeView::Edit { event_id: event_id@ },
            EditorMode::Duplicate { source_id } => EditorModeView::Duplicate {
                source_id: source_id@,
            },
        }
    }
}

impl Clone for EditorMode {
    fn clone(&self) -> (r: Self)
        ensures
            r == *self,
    {
        match self {
            EditorMode::Create => EditorMode::Create,
            EditorMode::Edit { event_id } => EditorMode::Edit { event_id: event_id.clone() },
            EditorMode::Duplicate { source_id } => EditorMode::Duplicate {
                source_id: source_id.clone(),
            },
        }
    }
}

/// The dates that an all-day event had when its edit began.
#[derive(Clone, Copy, Debug, PartialEq, Eq, Structural)]
pub struct AllDayEditorState {
    pub original_start: Date,
    pub original_end_exclusive: Date,
}

pub open spec fn backup_view(backup: Option<(String, String)>) -> Option<(Seq<char>, Seq<char>)> {
    match backup {
        Some(texts) => Some((texts.0@, texts.1@)),
        None => None,
    }
}

/// The form in which an event is created, edited or duplicated.
#[derive(Debug, PartialEq, Eq)]
pub struct EventForm {
    pub editor_mode: EditorMode,
    pub id: Option<String>,
    pub occurrence_id: Option<String>,
    pub occurrence_start: Option<Timestamp>,
    pub occurrence_calendar_id: Option<String>,
    pub title: String,
    pub calendar_index: usize,
    pub start: String,
    pub end: String,
    pub all_day: bool,
    pub location: String,
    pub notes: String,
    pub url: String,
    pub alarm_state: AlarmEditorState,
    pub recurrence: RecurrenceEditorState,
    pub weekday_cursor: WeekdayCursor,
    pub weekday_selection: WeekdaySet,
    pub time_zone: String,
    pub time_zone_provenance: TimeZoneProvenance,
    pub availability: Availability,
    pub span: EventSpan,
    /// The occurrences that the user chose to change before the edit began.
    pub recurrence_scope: Option<RecurrenceMutationScope>,
    pub selected: usize,
    /// The dates that an all-day event had when the edit began, where they are known.
    pub all_day_editor: Option<AllDayEditorState>,
    /// What was typed for a timed event, while a new event is switched to all day.
    pub create_all_day_timed_backup: Option<(String, String)>,
}

/// The form, as values of mathematics.
#[verifier::ext_equal]
pub ghost struct EventFormView {
    pub editor_mode: EditorModeView,
    pub id: Option<Seq<char>>,
    pub occurrence_id: Option<Seq<char>>,
    pub occurrence_start: Option<Timestamp>,
    pub occurrence_calendar_id: Option<Seq<char>>,
    pub title: Seq<char>,
    pub calendar_index: int,
    pub start: Seq<char>,
    pub end: Seq<char>,
    pub all_day: bool,
    pub location: Seq<char>,
    pub notes: Seq<char>,
    pub url: Seq<char>,
    pub alarm_state: AlarmEditorView,
    pub recurrence: RecurrenceEditorView,
    pub weekday_cursor: WeekdayCursor,
    pub weekday_selection: WeekdaySet,
    pub time_zone: Seq<char>,
    pub time_zone_provenance: TimeZoneProvenance,
    pub availability: Availability,
    pub span: EventSpan,
    pub recurrence_scope: Option<RecurrenceMutationScope>,
    pub selected: int,
    pub all_day_editor: Option<AllDayEditorState>,
    pub create_all_day_timed_backup: Option<(Seq<char>, Seq<char>)>,
}

impl View for EventForm {
    type V = EventFormView;

    open spec fn view(&self) -> EventFormView {
        EventFormView {
            editor_mode: self.editor_mode@,
            id: opt_view(self.id),
            occurrence_id: opt_view(self.occurrence_id),
            occurrence_start: self.occurrence_start,
            occurrence_calendar_id: opt_view(self.occurrence_calendar_id),
            title: self.title@,
            calendar_index: self.calendar_index as int,
            start: self.start@,
            end: self.end@,
            all_day: self.all_day,
            location: self.location@,
            notes: self.notes@,
            url: self.url@,
            alarm_state: self.alarm_state@,
            recurrence: self.recurrence@,
            weekday_cursor: self.weekday_cursor,
            weekday_selection: self.weekday_selection,
            time_zone: self.time_zone@,
            time_zone_provenance: self.time_zone_provenance,
            availability: self.availability,
            span: self.span,
            recurrence_scope: self.recurrence_scope,
            selected: self.selected as int,
            all_day_editor: self.all_day_editor,
            create_all_day_timed_backup: backup_view(self.create_all_day_timed_backup),
        }
    }
}

impl Clone for EventForm {
    fn clone(&self) -> (r: Self)
        ensures
            r@ == self@,
    {
        let create_all_day_timed_backup = match &self.create_all_day_timed_backup {
            Some((start, end)) => Some((start.clone(), end.clone())),
            None => None,
        };
        EventForm {
            editor_mode: self.editor_mode.clone(),
            id: self.id.clone(),
            occurrence_id: self.occurrence_id.clone(),
            occurrence_start: self.occurrence_start,
            occurrence_calendar_id: self.occurrence_calendar_id.clone(),
            title: self.title.clone(),
            calendar_index: self.calendar_index,
            start: self.start.clone(),
            end: self.end.clone(),
            all_day: self.all_day,
            location: self.location.clone(),
            notes: self.notes.clone(),
            url: self.url.clone(),
            alarm_state: self.alarm_state.clone(),
            recurrence: self.recurrence.clone(),
            weekday_cursor: self.weekday_cursor,
            weekday_selection: self.weekday_selection,
            time_zone: self.time_zone.clone(),
            time_zone_provenance: self.time_zone_provenance,
            availability: self.availability,
            span: self.span,
            recurrence_scope: self.recurrence_scope,
            selected: self.selected,
            all_day_editor: self.all_day_editor,
            create_all_day_timed_backup,
        }
    }
}

/// The lines that a form shows.
pub open spec fn lines_of(form: EventFormView) -> spec_fn(FormField) -> bool {
    |field: FormField| form.shows(field)
}

impl EventFormView {
    /// The repetition under edit, where the editor can show it.
    pub open spec fn structured(self) -> Option<RecurrenceEditorDataView> {
        match self.recurrence {
            RecurrenceEditorView::Structured(data) => Some(data),
            _ => None,
        }
    }

    /// Whether the event repeats by the week.
    pub open spec fn is_weekly(self) -> bool {
        self.structured() matches Some(data) && data.rule.frequency == RecurrenceFrequency::Weekly
    }

    /// Whether a line is shown: those of a repetition where it can be edited, and of its end those
    /// that the chosen end needs.
    pub open spec fn shows(self, field: FormField) -> bool {
        match field {
            FormField::RecurrenceInterval => self.structured() is Some,
            FormField::Weekdays => self.is_weekly(),
            FormField::RecurrenceEnds => self.structured() is Some,
            FormField::RecurrenceEndDate => self.structured() matches Some(data) && data.end_mode
                == RecurrenceEndMode::OnDate,
            FormField::RecurrenceOccurrences => self.structured() matches Some(data)
                && data.end_mode == RecurrenceEndMode::AfterOccurrences,
            _ => true,
        }
    }

    /// The lines that are shown, in order.
    #[verifier::opaque]
    pub open spec fn fields(self) -> Seq<FormField> {
        all_fields().filter(lines_of(self))
    }

    /// The line that the cursor is on.
    pub open spec fn current(self) -> FormField {
        if 0 <= self.selected < self.fields().len() {
            self.fields()[self.selected]
        } else {
            FormField::Title
        }
    }

    /// The form with the cursor on a line that is shown.
    pub open spec fn normalized(self) -> EventFormView {
        EventFormView {
            selected: if self.selected < self.fields().len() {
                self.selected
            } else {
                self.fields().len() - 1
            },
            ..self
        }
    }
}

proof fn lemma_fields_nonempty(form: EventFormView)
    ensures
        form.fields().len() > 0,
{
    reveal(EventFormView::fields);
    let shown = lines_of(form);
    all_fields().lemma_filter_contains(shown, 0);
    assert(form.fields().contains(all_fields()[0]));
}

/// The form of a new event that takes place at wall times.
pub open spec fn new_form(
    calendar_index: int,
    start: WallTime,
    end: WallTime,
    time_zone: Seq<char>,
) -> EventFormView {
    EventFormView {
        editor_mode: EditorModeView::Create,
        id: None,
        occurrence_id: None,
        occurrence_start: None,
        occurrence_calendar_id: None,
        title: Seq::empty(),
        calendar_index,
        start: wall_text(start),
        end: wall_text(end),
        all_day: false,
        location: Seq::empty(),
        notes: Seq::empty(),
        url: Seq::empty(),
        alarm_state: AlarmEditorView::EditableBasic {
            data: browsing(
                Seq::empty(),
                seq![EditableAlarm::Relative { relative_seconds: (-900) as i64 }],
            ),
        },
        recurrence: RecurrenceEditorView::Never,
        weekday_cursor: WeekdayCursor::Monday,
        weekday_selection: WeekdaySet::none(),
        time_zone,
        time_zone_provenance: TimeZoneProvenance::ExplicitEvent,
        availability: Availability::Busy,
        span: EventSpan::ThisEvent,
        recurrence_scope: None,
        selected: 0,
        all_day_editor: None,
        create_all_day_timed_backup: None,
    }
}

/// The index of the first calendar with an identity, or the first calendar.
pub open spec fn calendar_position(calendars: Seq<CalendarInfo>, id: Seq<char>) -> int {
    match calendar_at(calendars, id) {
        Some(i) => i,
        None => 0,
    }
}

/// The days of the week on which a first rule repeats by the week.
pub open spec fn rule_days(rules: Seq<RecurrenceRuleView>) -> WeekdaySet {
    if rules.len() > 0 && rules[0].frequency == RecurrenceFrequency::Weekly {
        WeekdaySet::of_codes(rules[0].days_of_week)
    } else {
        WeekdaySet::none()
    }
}

/// The first chosen day, or `default`.
pub open spec fn first_day(days: WeekdaySet, default: WeekdayCursor) -> WeekdayCursor {
    match days.first_from(0) {
        Some(day) => day,
        None => default,
    }
}

/// The form in which an event is edited, whose wall times are `start` and `end`. An all-day event
/// with known dates is shown by its first and its last day.
pub open spec fn edit_form(
    event: EventView,
    dates: Option<(Date, Date)>,
    calendars: Seq<CalendarInfo>,
    start: WallTime,
    end: WallTime,
) -> EventFormView {
    EventFormView {
        editor_mode: EditorModeView::Edit { event_id: event.id },
        id: event.provider_id,
        occurrence_id: Some(event.id),
        occurrence_start: Some(event.start),
        occurrence_calendar_id: Some(event.calendar_id),
        title: event.title,
        calendar_index: calendar_position(calendars, event.calendar_id),
        start: match dates {
            Some(dates) => iso_text(dates.0),
            None => wall_text(start),
        },
        end: match dates {
            Some(dates) => match dates.1.shifted(-1) {
                Some(last) => iso_text(last),
                None => wall_text(end),
            },
            None => wall_text(end),
        },
        all_day: event.all_day,
        location: event.location,
        notes: event.notes,
        url: event.url,
        alarm_state: AlarmEditorView::of_event(
            event.alarms,
            event.all_day,
            event.time_zone_provenance,
        ),
        recurrence: RecurrenceEditorView::of_rules(event.recurrence),
        weekday_cursor: first_day(rule_days(event.recurrence), WeekdayCursor::Monday),
        weekday_selection: rule_days(event.recurrence),
        time_zone: event.time_zone,
        time_zone_provenance: event.time_zone_provenance,
        availability: event.availability,
        span: EventSpan::ThisEvent,
        recurrence_scope: None,
        selected: 0,
        all_day_editor: match dates {
            Some(dates) => Some(
                AllDayEditorState { original_start: dates.0, original_end_exclusive: dates.1 },
            ),
            None => None,
        },
        create_all_day_timed_backup: None,
    }
}

/// The form in which an event is duplicated: that of an edit without the event's identity and
/// without its repetition.
pub open spec fn duplicate_form(edit: EventFormView, source_id: Seq<char>) -> EventFormView {
    EventFormView {
        editor_mode: EditorModeView::Duplicate { source_id },
        id: None,
        occurrence_id: None,
        occurrence_start: None,
        occurrence_calendar_id: None,
        recurrence: RecurrenceEditorView::Never,
        weekday_selection: WeekdaySet::none(),
        span: EventSpan::ThisEvent,
        ..edit
    }
}

/// When a new event is to start: at a minute of a day, the hour being at most the last of the day.
pub open spec fn new_start(date: Date, start_minute: int) -> WallTime {
    let hour = if start_minute / 60 > 23 {
        23
    } else {
        start_minute / 60
    };
    WallTime { date: date.clamped(), second: (hour * 3_600 + start_minute % 60 * 60) as u32 }
}

/// When a new event is to start.
pub fn wanted_start(date: Date, start_minute: u16) -> (r: WallTime)
    ensures
        r == new_start(date, start_minute as int),
        r.valid(),
{
    let hour: u32 = if start_minute / 60 > 23 {
        23
    } else {
        (start_minute / 60) as u32
    };
    WallTime { date: date.nearest(), second: hour * 3_600 + (start_minute % 60) as u32 * 60 }
}

/// When a new event begins: at the instant at which the clock shows the time that it is to start at,
/// or, where it does not show that once, as a blank draft does.
pub open spec fn beginning(shown: Option<Timestamp>, blank: Timestamp) -> Timestamp {
    match shown {
        Some(at) => at,
        None => blank,
    }
}

/// When a new event begins, where the clock shows its start at `shown` and a blank draft starts at
/// `blank`.
pub fn begin_of(shown: Option<Timestamp>, blank: Timestamp) -> (r: Timestamp)
    ensures
        r == beginning(shown, blank),
{
    match shown {
        Some(at) => at,
        None => blank,
    }
}

/// Whether a new event may begin at an instant, for what a clock may say of the time that it is to
/// start at and of that at which a blank draft starts.
pub open spec fn may_begin(date: Date, start_minute: int, start: Timestamp) -> bool {
    exists|shown: Option<Timestamp>, blank: Timestamp|
        read_once(new_start(date, start_minute), shown) && read_as(nine_on(date), blank) && start
            == #[trigger] beginning(shown, blank)
}

/// When a new event is to end: after a number of minutes, but at least one.
pub open spec fn new_end(start: Timestamp, duration_minutes: int) -> Timestamp {
    start.shifted(
        (if duration_minutes == 0 {
            1
        } else {
            duration_minutes
        }) * 60,
    )
}

/// When a new event is to end.
pub fn wanted_end(start: Timestamp, duration_minutes: u16) -> (r: Timestamp)
    ensures
        r == new_end(start, duration_minutes as int),
{
    let minutes: u16 = if duration_minutes == 0 {
        1
    } else {
        duration_minutes
    };
    start.plus_seconds(minutes as i64 * 60)
}

impl EventForm {
    /// Whether what is typed into the form is well formed.
    pub open spec fn wf(self) -> bool {
        self.alarm_state@.wf()
    }

    /// The form of a new event that takes place at wall times.
    pub fn new_at(calendar_index: usize, start: WallTime, end: WallTime, time_zone: String) -> (r:
        Self)
        requires
            start.valid(),
            end.valid(),
        ensures
            r@ == new_form(calendar_index as int, start, end, time_zone@),
            r.wf(),
    {
        let form = EventForm {
            editor_mode: EditorMode::Create,
            id: None,
            occurrence_id: None,
            occurrence_start: None,
            occurrence_calendar_id: None,
            title: String::new(),
            calendar_index,
            start: wall_time_text(start),
            end: wall_time_text(end),
            all_day: false,
            location: String::new(),
            notes: String::new(),
            url: String::new(),
            alarm_state: AlarmEditorState::new_event(),
            recurrence: RecurrenceEditorState::none(),
            weekday_cursor: WeekdayCursor::Monday,
            weekday_selection: WeekdaySet::new(),
            time_zone,
            time_zone_provenance: TimeZoneProvenance::ExplicitEvent,
            availability: Availability::Busy,
            span: EventSpan::ThisEvent,
            recurrence_scope: None,
            selected: 0,
            all_day_editor: None,
            create_all_day_timed_backup: None,
        };
        form
    }

    /// The form of a new event on `date`, from a minute of the day and for a number of minutes, as
    /// the machine's clock shows them. Where it does not show the start exactly once, the event
    /// starts as a blank draft does.
    pub fn new(
        calendar_index: usize,
        calendars: &Vec<CalendarInfo>,
        date: Date,
        start_minute: u16,
        duration_minutes: u16,
    ) -> (r: Self)
        requires
            calendar_index < calendars@.len(),
        ensures
            r.creates(calendar_index as int, date, start_minute as int, duration_minutes as int),
            r.wf(),
    {
        let draft = EventDraft::new(calendars[calendar_index].id.clone(), date);
        let shown = local_single(wanted_start(date, start_minute));
        let blank = match draft.time {
            EventTimeInput::Timed { start, .. } => start,
            _ => date.utc_midnight(),
        };
        let start = begin_of(shown, blank);
        let end = wanted_end(start, duration_minutes);
        let start_wall = local_wall_time(start);
        let end_wall = local_wall_time(end);
        let zone = draft.time_zone;
        let ghost name = zone@;
        let form = Self::new_at(calendar_index, start_wall, end_wall, zone);
        proof {
            assert(start == beginning(shown, blank));
            assert(may_begin(date, start_minute as int, start));
            assert(form@ == new_form(calendar_index as int, start_wall, end_wall, name));
        }
        form
    }

    /// The form in which an event is edited, whose wall times are `start` and `end`. Saved as it
    /// is, the form of an all-day event with known dates keeps them.
    pub fn from_event_at(
        event: &Event,
        calendars: &Vec<CalendarInfo>,
        start: WallTime,
        end: WallTime,
    ) -> (r: Self)
        requires
            start.valid(),
            end.valid(),
        ensures
            r@ == edit_form(event@, event.date_range(), calendars@, start, end),
            r.wf(),
            event.date_range() matches Some(dates) && dates.0.valid() && dates.1.valid()
                ==> r@.changed_time() == Ok::<EventTimeMutation, Seq<char>>(
                EventTimeMutation::Preserve,
            ),
    {
        let dates = event.all_day_date_range();
        let mut weekday_selection = WeekdaySet::new();
        if event.recurrence.len() > 0 {
            proof {
                assert(rule_views(event.recurrence@)[0] == event.recurrence@[0]@);
            }
            if event.recurrence[0].frequency == RecurrenceFrequency::Weekly {
                weekday_selection = WeekdaySet::from_codes(&event.recurrence[0].days_of_week);
            }
        }
        let weekday_cursor = match weekday_selection.first() {
            Some(day) => day,
            None => WeekdayCursor::Monday,
        };
        let calendar_index: usize = match find_calendar(calendars, event.calendar_id.as_str()) {
            Some(i) => i,
            None => 0,
        };
        let start_text = match dates {
            Some((first, _)) => iso_date_text(first),
            None => wall_time_text(start),
        };
        let end_text = match dates {
            Some((_, last)) => match last.plus_days(-1) {
                Some(last) => iso_date_text(last),
                None => wall_time_text(end),
            },
            None => wall_time_text(end),
        };
        let all_day_editor = match dates {
            Some((first, last)) => Some(
                AllDayEditorState { original_start: first, original_end_exclusive: last },
            ),
            None => None,
        };
        EventForm {
            editor_mode: EditorMode::Edit { event_id: event.id.clone() },
            id: event.provider_id.clone(),
            occurrence_id: Some(event.id.clone()),
            occurrence_start: Some(event.start),
            occurrence_calendar_id: Some(event.calendar_id.clone()),
            title: event.title.clone(),
            calendar_index,
            start: start_text,
            end: end_text,
            all_day: event.all_day,
            location: event.location.clone(),
            notes: event.notes.clone(),
            url: event.url.clone(),
            alarm_state: AlarmEditorState::from_event_alarms(
                &event.alarms,
                event.all_day,
                event.time_zone_provenance,
            ),
            recurrence: RecurrenceEditorState::from_rules(&event.recurrence),
            weekday_cursor,
            weekday_selection,
            time_zone: event.time_zone.clone(),
            time_zone_provenance: event.time_zone_provenance,
            availability: event.availability,
            span: EventSpan::ThisEvent,
            recurrence_scope: None,
            selected: 0,
            all_day_editor,
            create_all_day_timed_backup: None,
        }
    }

    /// The form in which an event is edited, its times as the machine's clock shows them.
    pub fn from_event(event: &Event, calendars: &Vec<CalendarInfo>) -> (r: Self)
        ensures
            r.edits(*event, calendars@),
            r.wf(),
    {
        Self::from_event_at(
            event,
            calendars,
            local_wall_time(event.start),
            local_wall_time(event.end),
        )
    }

    /// The form in which an event is duplicated.
    pub fn duplicate_from(event: &Event, calendars: &Vec<CalendarInfo>) -> (r: Self)
        ensures
            r.duplicates(*event, calendars@),
            r.wf(),
    {
        let mut form = Self::from_event(event, calendars);
        form.editor_mode = EditorMode::Duplicate { source_id: event.id.clone() };
        form.id = None;
        form.occurrence_id = None;
        form.occurrence_start = None;
        form.occurrence_calendar_id = None;
        form.recurrence = RecurrenceEditorState::none();
        form.weekday_selection = WeekdaySet::new();
        form.span = EventSpan::ThisEvent;
        form
    }

    fn field_is_shown(&self, field: FormField) -> (r: bool)
        ensures
            r == self@.shows(field),
    {
        match field {
            FormField::RecurrenceInterval | FormField::RecurrenceEnds => match &self.recurrence {
                RecurrenceEditorState::Structured(_) => true,
                _ => false,
            },
            FormField::Weekdays => match &self.recurrence {
                RecurrenceEditorState::Structured(data) => data.rule.frequency
                    == RecurrenceFrequency::Weekly,
                _ => false,
            },
            FormField::RecurrenceEndDate => match &self.recurrence {
                RecurrenceEditorState::Structured(data) => data.end_mode
                    == RecurrenceEndMode::OnDate,
                _ => false,
            },
            FormField::RecurrenceOccurrences => match &self.recurrence {
                RecurrenceEditorState::Structured(data) => data.end_mode
                    == RecurrenceEndMode::AfterOccurrences,
                _ => false,
            },
            _ => true,
        }
    }

    /// The lines that are shown, in order.
    pub fn visible_fields(&self) -> (r: Vec<FormField>)
        ensures
            r@ == self@.fields(),
            r@.len() > 0,
    {
        let all = FormField::all();
        let ghost shown = lines_of(self@);
        let mut fields: Vec<FormField> = Vec::new();
        let mut i: usize = 0;
        proof {
            assert(all@.take(0).filter(shown) =~= Seq::<FormField>::empty());
        }
        while i < all.len()
            invariant
                i <= all@.len(),
                shown == lines_of(self@),
                fields@ == all@.take(i as int).filter(shown),
            decreases all@.len() - i,
        {
            proof {
                assert(all@.take(i + 1) =~= all@.take(i as int).push(all@[i as int]));
                all@.take(i as int).lemma_filter_push(all@[i as int], shown);
            }
            if self.field_is_shown(all[i]) {
                fields.push(all[i]);
            }
            i += 1;
        }
        proof {
            assert(all@.take(i as int) =~= all@);
            reveal(EventFormView::fields);
            lemma_fields_nonempty(self@);
        }
        fields
    }

    /// The line that the cursor is on.
    pub fn field(&self) -> (r: FormField)
        ensures
            r == self@.current(),
    {
        let fields = self.visible_fields();
        if self.selected < fields.len() {
            fields[self.selected]
        } else {
            FormField::Title
        }
    }

    /// Keeps the selected field among those that are shown.
    pub fn normalize_cursor(&mut self)
        ensures
            final(self)@ == old(self)@.normalized(),
            old(self).wf() ==> final(self).wf(),
    {
        let count: usize = self.visible_fields().len();
        if self.selected >= count {
            self.selected = count - 1;
        }
    }

    /// Moves the cursor to the next line, after the last to the first.
    pub fn next_field(&mut self)
        ensures
            *final(self) == (EventForm { selected: final(self).selected, ..*old(self) }),
            final(self).selected == (old(self).selected + 1) % old(self)@.fields().len() as int,
    {
        let count: usize = self.visible_fields().len();
        let current: usize = self.selected % count;
        proof {
            lemma_wrap(current as int, count as int);
            vstd::arithmetic::div_mod::lemma_add_mod_noop(self.selected as int, 1, count as int);
            vstd::arithmetic::div_mod::lemma_add_mod_noop(current as int, 1, count as int);
            vstd::arithmetic::div_mod::lemma_mod_twice(self.selected as int, count as int);
        }
        self.selected = if current + 1 == count {
            0
        } else {
            current + 1
        };
    }

    /// Moves the cursor to the previous line, before the first to the last.
    pub fn previous_field(&mut self)
        ensures
            *final(self) == (EventForm { selected: final(self).selected, ..*old(self) }),
            final(self).selected == (old(self).selected + old(self)@.fields().len() - 1)
                % old(self)@.fields().len() as int,
    {
        let count: usize = self.visible_fields().len();
        let current: usize = self.selected % count;
        proof {
            let n = count as int;
            lemma_wrap(current as int, n);
            vstd::arithmetic::div_mod::lemma_add_mod_noop(self.selected as int, n - 1, n);
            vstd::arithmetic::div_mod::lemma_add_mod_noop(current as int, n - 1, n);
            vstd::arithmetic::div_mod::lemma_mod_twice(self.selected as int, n);
        }
        self.selected = if current == 0 {
            count - 1
        } else {
            current - 1
        };
    }

    /// Whether the line is chosen from, not typed into.
    pub fn is_toggle(&self) -> (r: bool)
        ensures
            r == self@.at_choice(),
    {
        match self.field() {
            FormField::Calendar
            | FormField::AllDay
            | FormField::Availability
            | FormField::Recurrence
            | FormField::RecurrenceInterval
            | FormField::RecurrenceEnds => true,
            _ => false,
        }
    }
}

/// The date that a text shows, with or without a time.
pub open spec fn shown_date(text: Seq<char>) -> Option<Date> {
    match iso_date(trimmed(text)) {
        Some(date) => Some(date),
        None => match wall_time(trimmed(text)) {
            Some(at) => Some(at.date),
            None => None,
        },
    }
}

/// The date that a text shows, with or without a time. No instant is made of it.
pub fn form_calendar_date(text: &str) -> (r: Option<Date>)
    ensures
        r == shown_date(text@),
{
    let text = trim(text);
    match parse_iso_date(text.as_str()) {
        Some(date) => Some(date),
        None => match parse_wall_time(text.as_str()) {
            Some(at) => Some(at.date),
            None => None,
        },
    }
}

/// What reading a local time gives, where the machine's clock shows `instant` for it.
pub open spec fn local_reading(text: Seq<char>, instant: Option<Timestamp>) -> Result<
    Timestamp,
    Seq<char>,
> {
    if wall_time(trimmed(text)) is None {
        Err("Date/time must use YYYY-MM-DD HH:MM"@)
    } else {
        match instant {
            Some(instant) => Ok(instant),
            None => Err("Date/time is ambiguous or invalid in the local time zone"@),
        }
    }
}

/// What reading a local time gives, where the machine's clock shows `instant` for it.
pub fn read_local(text: &str, instant: Option<Timestamp>) -> (r: Result<Timestamp, String>)
    ensures
        result_view(r) == local_reading(text@, instant),
{
    match parse_wall_time(trim(text).as_str()) {
        None => Err("Date/time must use YYYY-MM-DD HH:MM".to_owned()),
        Some(_) => match instant {
            Some(instant) => Ok(instant),
            None => Err("Date/time is ambiguous or invalid in the local time zone".to_owned()),
        },
    }
}

/// Whether a text is read as an instant, or as none: the one at which the machine's clock shows the
/// wall time that the text writes.
pub open spec fn may_read(text: Seq<char>, instant: Option<Timestamp>) -> bool {
    match wall_time(trimmed(text)) {
        Some(wall) => wall.valid() && read_once(wall, instant),
        None => instant is None,
    }
}

/// The one instant at which the machine's clock shows the time that a text writes.
pub fn local_instant_of(text: &str) -> (r: Option<Timestamp>)
    ensures
        may_read(text@, r),
{
    match parse_wall_time(trim(text).as_str()) {
        None => None,
        Some(at) => local_single(at),
    }
}

/// The date on which an event starts: the one that the calendar shows for its start, or, where its
/// start gives no instant, the current one.
pub open spec fn starting_date(shown: Option<Date>, today: Date) -> Date {
    match shown {
        Some(date) => date,
        None => today,
    }
}

/// The date on which an event starts, where the calendar shows `shown` for its start.
pub fn start_date_of(shown: Option<Date>, today: Date) -> (r: Date)
    ensures
        r == starting_date(shown, today),
{
    match shown {
        Some(date) => date,
        None => today,
    }
}

/// Whether the machine's calendar shows a date for the start that a text writes, or none where the
/// text gives no instant. A date is within two days of the text's.
pub open spec fn may_show_start(text: Seq<char>, shown: Option<Date>) -> bool {
    &&& exists|instant: Option<Timestamp>| #[trigger]
        may_read(text, instant) && match instant {
            Some(at) => shown matches Some(date) && falls_near(at, date),
            None => shown is None,
        }
    &&& shown matches Some(date) ==> date.valid() && (wall_time(trimmed(text)) matches Some(at)
        && at.date.day - 2 <= date.day <= at.date.day + 2)
}

/// Whether an event whose start is written as a text may start on a date, for what a calendar may
/// show for the start and for now.
pub open spec fn may_start_on(text: Seq<char>, date: Date) -> bool {
    exists|shown: Option<Date>, today: Date|
        may_show_start(text, shown) && may_be_today(today) && date == #[trigger] starting_date(
            shown,
            today,
        )
}

/// Reads a local time.
pub fn parse_local(text: &str) -> (r: Result<Timestamp, String>)
    ensures
        exists|instant: Option<Timestamp>|
            may_read(text@, instant) && result_view(r) == #[trigger] local_reading(text@, instant),
        r matches Ok(instant) ==> (wall_time(trimmed(text@)) matches Some(at) && reads_near(
            at,
            instant,
        )),
{
    let instant = local_instant_of(text);
    read_local(text, instant)
}

/// The name of a day as the form shows it.
pub open spec fn short_day(day: WeekdayCursor) -> Seq<char> {
    match day {
        WeekdayCursor::Monday => "Mon"@,
        WeekdayCursor::Tuesday => "Tue"@,
        WeekdayCursor::Wednesday => "Wed"@,
        WeekdayCursor::Thursday => "Thu"@,
        WeekdayCursor::Friday => "Fri"@,
        WeekdayCursor::Saturday => "Sat"@,
        WeekdayCursor::Sunday => "Sun"@,
    }
}

/// A day as the form shows it: the cursor before it, the chosen ones in brackets.
pub open spec fn day_entry(day: WeekdayCursor, cursor: WeekdayCursor, chosen: bool) -> Seq<char> {
    (if day == cursor {
        ">"@
    } else {
        " "@
    }) + (if chosen {
        "["@
    } else {
        ""@
    }) + short_day(day) + (if chosen {
        "]"@
    } else {
        ""@
    })
}

/// The days of the week as the form shows them.
pub open spec fn day_entries(cursor: WeekdayCursor, days: WeekdaySet) -> Seq<Seq<char>> {
    Seq::new(
        7,
        |i: int|
            day_entry(
                WeekdayCursor::at_position(i),
                cursor,
                days.holds(WeekdayCursor::at_position(i)),
            ),
    )
}

impl EventFormView {
    /// What the line under the cursor shows.
    pub open spec fn shown_value(self, calendars: Seq<CalendarInfo>) -> Seq<char> {
        match self.current() {
            FormField::Title => self.title,
            FormField::Calendar => if self.calendar_index < calendars.len() {
                calendars[self.calendar_index].title@
            } else {
                Seq::empty()
            },
            FormField::Start => self.start,
            FormField::End => self.end,
            FormField::AllDay => if self.all_day {
                "yes"@
            } else {
                "no"@
            },
            FormField::Location => self.location,
            FormField::Notes => self.notes,
            FormField::Url => self.url,
            FormField::Alarms => self.alarm_state.shown(self.time_zone),
            FormField::Recurrence => self.recurrence.picker_text(),
            FormField::RecurrenceInterval => match self.recurrence {
                RecurrenceEditorView::Structured(data) => decimal(data.rule.interval as nat),
                RecurrenceEditorView::Never => "—"@,
                RecurrenceEditorView::Unsupported { .. } => "protected"@,
            },
            FormField::Weekdays => joined(
                day_entries(self.weekday_cursor, self.weekday_selection),
                " "@,
            ),
            FormField::RecurrenceEnds => match self.structured() {
                Some(data) => match data.end_mode {
                    RecurrenceEndMode::Never => "Never"@,
                    RecurrenceEndMode::OnDate => "On date"@,
                    RecurrenceEndMode::AfterOccurrences => "After occurrences"@,
                    RecurrenceEndMode::InvalidExisting => "Existing condition is invalid"@,
                },
                None => Seq::empty(),
            },
            FormField::RecurrenceEndDate => match self.structured() {
                Some(data) => data.end_date_buffer,
                None => Seq::empty(),
            },
            FormField::RecurrenceOccurrences => match self.structured() {
                Some(data) => data.occurrence_count_buffer,
                None => Seq::empty(),
            },
            FormField::TimeZone => self.time_zone,
            FormField::Availability => self.availability.text(),
            FormField::Scope => match self.span {
                EventSpan::ThisEvent => "this event"@,
                EventSpan::FutureEvents => "this and future events"@,
            },
        }
    }

    /// The form with another text in the line under the cursor, where that is a line of text.
    pub open spec fn with_text(self, edit: spec_fn(Seq<char>) -> Seq<char>) -> Option<
        EventFormView,
    > {
        match self.current() {
            FormField::Title => Some(EventFormView { title: edit(self.title), ..self }),
            FormField::Start => Some(EventFormView { start: edit(self.start), ..self }),
            FormField::End => Some(EventFormView { end: edit(self.end), ..self }),
            FormField::Location => Some(EventFormView { location: edit(self.location), ..self }),
            FormField::Notes => Some(EventFormView { notes: edit(self.notes), ..self }),
            FormField::Url => Some(EventFormView { url: edit(self.url), ..self }),
            FormField::TimeZone => Some(EventFormView { time_zone: edit(self.time_zone), ..self }),
            _ => None,
        }
    }

    /// The form with the text under the cursor edited, and whether it holds text. The end of a
    /// repetition is read anew, its date for an event that starts on `event_start`.
    pub open spec fn edited(
        self,
        edit: spec_fn(Seq<char>) -> Seq<char>,
        event_start: Date,
    ) -> (EventFormView, bool) {
        match (self.current(), self.structured()) {
            (FormField::RecurrenceEndDate, Some(data)) => (
                EventFormView {
                    recurrence: RecurrenceEditorView::Structured(
                        RecurrenceEditorDataView {
                            end_date_buffer: edit(data.end_date_buffer),
                            ..data
                        }.with_end_date_read(event_start),
                    ),
                    ..self
                },
                true,
            ),
            (FormField::RecurrenceOccurrences, Some(data)) => (
                EventFormView {
                    recurrence: RecurrenceEditorView::Structured(
                        RecurrenceEditorDataView {
                            occurrence_count_buffer: edit(data.occurrence_count_buffer),
                            ..data
                        }.with_count_read(),
                    ),
                    ..self
                },
                true,
            ),
            _ => match self.with_text(edit) {
                Some(form) => (form, true),
                None => (self, false),
            },
        }
    }

    /// The form switched to all day, or back. A new event shows its dates alone, and what was typed
    /// comes back with the times; alarms that an all-day event cannot have go.
    pub open spec fn all_day_toggled(self) -> EventFormView {
        let all_day = !self.all_day;
        let times = if !(self.editor_mode is Create) {
            self
        } else if all_day {
            match (shown_date(self.start), shown_date(self.end)) {
                (Some(start), Some(end)) => EventFormView {
                    start: iso_text(start),
                    end: iso_text(end),
                    create_all_day_timed_backup: Some((self.start, self.end)),
                    ..self
                },
                _ => self,
            }
        } else {
            match self.create_all_day_timed_backup {
                Some(backup) => EventFormView {
                    start: backup.0,
                    end: backup.1,
                    create_all_day_timed_backup: None,
                    ..self
                },
                None => self,
            }
        };
        EventFormView {
            all_day,
            alarm_state: if !all_day {
                self.alarm_state
            } else if self.id is Some {
                AlarmEditorView::ProtectedExisting
            } else {
                AlarmEditorView::of_existing(Seq::empty())
            },
            ..times
        }
    }

    /// The date of the event for its repetition: that of its start, or `today`.
    pub open spec fn repeat_date(self, today: Date) -> Date {
        match wall_time(self.start) {
            Some(at) => at.date,
            None => today,
        }
    }

    /// The form with the repetition stepped to another choice, and the days of a weekly one chosen
    /// to match.
    pub open spec fn repeat_picked(self, direction: int, date: Date) -> EventFormView {
        let recurrence = self.recurrence.picked(direction, date);
        let picked = EventFormView { recurrence, ..self };
        let form = match recurrence {
            RecurrenceEditorView::Structured(data) => if data.rule.frequency
                == RecurrenceFrequency::Weekly {
                let days = WeekdaySet::of_codes(data.rule.days_of_week);
                EventFormView {
                    weekday_selection: days,
                    weekday_cursor: first_day(days, WeekdayCursor::at_position(date.weekday())),
                    ..picked
                }
            } else {
                EventFormView { weekday_selection: WeekdaySet::none(), ..picked }
            },
            _ => picked,
        };
        form.normalized()
    }

    /// The form with the choice under the cursor stepped in a direction.
    pub open spec fn adjusted(
        self,
        direction: int,
        calendars: Seq<CalendarInfo>,
        today: Date,
    ) -> EventFormView {
        match self.current() {
            FormField::Calendar => if calendars.len() == 0 {
                self
            } else {
                EventFormView {
                    calendar_index: next_writable(
                        self.calendar_index,
                        direction,
                        calendars,
                        calendars.len(),
                    ),
                    ..self
                }
            },
            FormField::AllDay => self.all_day_toggled(),
            FormField::Availability => EventFormView {
                availability: next_availability(self.availability, direction < 0),
                ..self
            },
            FormField::Recurrence => self.repeat_picked(direction, self.repeat_date(today)),
            FormField::RecurrenceInterval => match self.structured() {
                Some(data) => EventFormView {
                    recurrence: RecurrenceEditorView::Structured(
                        RecurrenceEditorDataView {
                            rule: RecurrenceRuleView {
                                interval: next_interval(data.rule.interval, direction < 0),
                                ..data.rule
                            },
                            ..data
                        },
                    ),
                    ..self
                },
                None => self,
            },
            FormField::RecurrenceEnds => match self.structured() {
                Some(data) => EventFormView {
                    recurrence: RecurrenceEditorView::Structured(
                        data.with_next_end_mode(direction),
                    ),
                    ..self
                }.normalized(),
                None => self,
            },
            FormField::Weekdays => EventFormView {
                weekday_cursor: self.weekday_cursor.moved(direction),
                ..self
            },
            _ => self,
        }
    }
}

/// The next calendar that can be written to, in a direction and within a number of steps; where
/// there is none, the calendar that the last step leads to.
pub open spec fn next_writable(
    index: int,
    direction: int,
    calendars: Seq<CalendarInfo>,
    steps: nat,
) -> int
    decreases steps,
{
    if steps == 0 {
        index
    } else {
        let next = neighbour(index, direction < 0, calendars.len() as int);
        if calendars[next].is_writable {
            next
        } else {
            next_writable(next, direction, calendars, (steps - 1) as nat)
        }
    }
}

/// The availability one step from another.
pub open spec fn next_availability(availability: Availability, backwards: bool) -> Availability {
    match (availability, backwards) {
        (Availability::Busy, true) => Availability::Unavailable,
        (Availability::Busy, false) => Availability::Free,
        (Availability::Free, true) => Availability::Busy,
        (Availability::Free, false) => Availability::Tentative,
        (Availability::Tentative, true) => Availability::Free,
        (Availability::Tentative, false) => Availability::Unavailable,
        (Availability::Unavailable, true) => Availability::Tentative,
        (Availability::Unavailable, false) => Availability::Busy,
    }
}

/// The interval one step from another; it stays at least one, and in range.
pub open spec fn next_interval(interval: u32, backwards: bool) -> u32 {
    if backwards {
        if interval > 1 {
            (interval - 1) as u32
        } else {
            1
        }
    } else if interval == u32::MAX {
        u32::MAX
    } else {
        (interval + 1) as u32
    }
}

/// A character added at the end.
pub open spec fn with_char(c: char) -> spec_fn(Seq<char>) -> Seq<char> {
    |s: Seq<char>| s.push(c)
}

/// The last character removed, where there is one.
pub open spec fn without_last() -> spec_fn(Seq<char>) -> Seq<char> {
    |s: Seq<char>| popped(s)
}

impl EventForm {
    fn short_day_text(day: WeekdayCursor) -> (r: &'static str)
        ensures
            r@ == short_day(day),
    {
        match day {
            WeekdayCursor::Monday => "Mon",
            WeekdayCursor::Tuesday => "Tue",
            WeekdayCursor::Wednesday => "Wed",
            WeekdayCursor::Thursday => "Thu",
            WeekdayCursor::Friday => "Fri",
            WeekdayCursor::Saturday => "Sat",
            WeekdayCursor::Sunday => "Sun",
        }
    }

    /// The days of the week as the form shows them.
    pub fn weekday_display(&self) -> (r: String)
        ensures
            r@ == joined(day_entries(self.weekday_cursor, self.weekday_selection), " "@),
    {
        let ghost all = day_entries(self.weekday_cursor, self.weekday_selection);
        let mut entries: Vec<String> = Vec::new();
        let mut i: u32 = 0;
        proof {
            assert(texts(entries@) =~= all.take(0));
        }
        while i < 7
            invariant
                i <= 7,
                all == day_entries(self.weekday_cursor, self.weekday_selection),
                texts(entries@) == all.take(i as int),
            decreases 7 - i,
        {
            let day = WeekdayCursor::from_index(i);
            let chosen = self.weekday_selection.contains(day);
            let mut entry = (if day == self.weekday_cursor {
                ">"
            } else {
                " "
            }).to_owned();
            entry.append(
                if chosen {
                    "["
                } else {
                    ""
                },
            );
            entry.append(Self::short_day_text(day));
            entry.append(
                if chosen {
                    "]"
                } else {
                    ""
                },
            );
            proof {
                lemma_texts_push(entries@, entry);
                assert(all.take(i + 1) =~= all.take(i as int).push(entry@));
            }
            entries.push(entry);
            i += 1;
        }
        proof {
            assert(all.take(7) =~= all);
        }
        join(&entries, " ")
    }

    /// What the line under the cursor shows.
    pub fn value(&self, calendars: &Vec<CalendarInfo>) -> (r: String)
        ensures
            r@ == self@.shown_value(calendars@),
    {
        match self.field() {
            FormField::Title => self.title.clone(),
            FormField::Calendar => if self.calendar_index < calendars.len() {
                calendars[self.calendar_index].title.clone()
            } else {
                String::new()
            },
            FormField::Start => self.start.clone(),
            FormField::End => self.end.clone(),
            FormField::AllDay => if self.all_day {
                "yes".to_owned()
            } else {
                "no".to_owned()
            },
            FormField::Location => self.location.clone(),
            FormField::Notes => self.notes.clone(),
            FormField::Url => self.url.clone(),
            FormField::Alarms => self.alarm_state.display_in_timezone(self.time_zone.as_str()),
            FormField::Recurrence => self.recurrence.picker_label().to_owned(),
            FormField::RecurrenceInterval => match &self.recurrence {
                RecurrenceEditorState::Structured(data) => to_decimal(data.rule.interval as u64),
                RecurrenceEditorState::Never => "—".to_owned(),
                RecurrenceEditorState::Unsupported { .. } => "protected".to_owned(),
            },
            FormField::Weekdays => self.weekday_display(),
            FormField::RecurrenceEnds => match &self.recurrence {
                RecurrenceEditorState::Structured(data) => match data.end_mode {
                    RecurrenceEndMode::Never => "Never".to_owned(),
                    RecurrenceEndMode::OnDate => "On date".to_owned(),
                    RecurrenceEndMode::AfterOccurrences => "After occurrences".to_owned(),
                    RecurrenceEndMode::InvalidExisting =>
                        "Existing condition is invalid".to_owned(),
                },
                _ => String::new(),
            },
            FormField::RecurrenceEndDate => match &self.recurrence {
                RecurrenceEditorState::Structured(data) => data.end_date_buffer.clone(),
                _ => String::new(),
            },
            FormField::RecurrenceOccurrences => match &self.recurrence {
                RecurrenceEditorState::Structured(data) => data.occurrence_count_buffer.clone(),
                _ => String::new(),
            },
            FormField::TimeZone => self.time_zone.clone(),
            FormField::Availability => self.availability.label().to_owned(),
            FormField::Scope => match self.span {
                EventSpan::ThisEvent => "this event".to_owned(),
                EventSpan::FutureEvents => "this and future events".to_owned(),
            },
        }
    }

    #[verifier::rlimit(40)]
    fn push_text(&mut self, character: char, field: FormField) -> (r: bool)
        requires
            field == old(self)@.current(),
        ensures
            match old(self)@.with_text(with_char(character)) {
                Some(form) => r && final(self)@ == form,
                None => !r && *final(self) == *old(self),
            },
            final(self).alarm_state == old(self).alarm_state,
    {
        match field {
            FormField::Title => {
                self.title.push(character);
                true
            },
            FormField::Start => {
                self.start.push(character);
                true
            },
            FormField::End => {
                self.end.push(character);
                true
            },
            FormField::Location => {
                self.location.push(character);
                true
            },
            FormField::Notes => {
                self.notes.push(character);
                true
            },
            FormField::Url => {
                self.url.push(character);
                true
            },
            FormField::TimeZone => {
                self.time_zone.push(character);
                true
            },
            _ => false,
        }
    }

    /// Types a character into the line under the cursor, for an event that starts on
    /// `event_start`; the result says whether the line holds text.
    pub fn push_on(&mut self, character: char, event_start: Date) -> (r: bool)
        ensures
            (final(self)@, r) == old(self)@.edited(with_char(character), event_start),
            final(self).alarm_state == old(self).alarm_state,
    {
        let field = self.field();
        match field {
            FormField::RecurrenceEndDate => {
                match &mut self.recurrence {
                    RecurrenceEditorState::Structured(data) => {
                        data.end_date_buffer.push(character);
                        data.refresh_end_date_validation(event_start);
                        true
                    },
                    _ => false,
                }
            },
            FormField::RecurrenceOccurrences => {
                match &mut self.recurrence {
                    RecurrenceEditorState::Structured(data) => {
                        data.occurrence_count_buffer.push(character);
                        data.refresh_occurrence_count_validation();
                        true
                    },
                    _ => false,
                }
            },
            _ => self.push_text(character, field),
        }
    }

    #[verifier::rlimit(40)]
    fn backspace_text(&mut self, field: FormField) -> (r: bool)
        requires
            field == old(self)@.current(),
        ensures
            match old(self)@.with_text(without_last()) {
                Some(form) => r && final(self)@ == form,
                None => !r && *final(self) == *old(self),
            },
            final(self).alarm_state == old(self).alarm_state,
    {
        match field {
            FormField::Title => {
                let _ = self.title.pop();
                true
            },
            FormField::Start => {
                let _ = self.start.pop();
                true
            },
            FormField::End => {
                let _ = self.end.pop();
                true
            },
            FormField::Location => {
                let _ = self.location.pop();
                true
            },
            FormField::Notes => {
                let _ = self.notes.pop();
                true
            },
            FormField::Url => {
                let _ = self.url.pop();
                true
            },
            FormField::TimeZone => {
                let _ = self.time_zone.pop();
                true
            },
            _ => false,
        }
    }

    /// Removes the last character of the line under the cursor, for an event that starts on
    /// `event_start`; the result says whether the line holds text.
    pub fn backspace_on(&mut self, event_start: Date) -> (r: bool)
        ensures
            (final(self)@, r) == old(self)@.edited(without_last(), event_start),
            final(self).alarm_state == old(self).alarm_state,
    {
        let field = self.field();
        match field {
            FormField::RecurrenceEndDate => {
                match &mut self.recurrence {
                    RecurrenceEditorState::Structured(data) => {
                        let _ = data.end_date_buffer.pop();
                        data.refresh_end_date_validation(event_start);
                        true
                    },
                    _ => false,
                }
            },
            FormField::RecurrenceOccurrences => {
                match &mut self.recurrence {
                    RecurrenceEditorState::Structured(data) => {
                        let _ = data.occurrence_count_buffer.pop();
                        data.refresh_occurrence_count_validation();
                        true
                    },
                    _ => false,
                }
            },
            _ => self.backspace_text(field),
        }
    }

    /// The date on which the event starts on this machine, or the current date.
    pub fn local_start_date(&self) -> (r: Date)
        ensures
            may_start_on(self.start@, r),
    {
        let instant = local_instant_of(self.start.as_str());
        let shown = match instant {
            Some(start) => {
                let clock = local_wall_time(start);
                let date = clock.date;
                proof {
                    assert(falls_near(start, date));
                    lemma_read_and_shown(wall_time(trimmed(self.start@))->0, start, date);
                }
                Some(date)
            },
            None => None,
        };
        let today = local_today();
        proof {
            assert(may_read(self.start@, instant));
            assert(may_show_start(self.start@, shown));
        }
        start_date_of(shown, today)
    }

    /// Types a character into the line under the cursor; the result says whether it holds text.
    pub fn push(&mut self, character: char) -> (r: bool)
        ensures
            exists|event_start: Date|
                may_start_on(old(self).start@, event_start) && (final(self)@, r) == #[trigger] old(
                self)@.edited(with_char(character), event_start),
            final(self).alarm_state == old(self).alarm_state,
    {
        let event_start = self.local_start_date();
        self.push_on(character, event_start)
    }

    /// Removes the last character of the line under the cursor; the result says whether the line
    /// holds text.
    pub fn backspace(&mut self) -> (r: bool)
        ensures
            exists|event_start: Date|
                may_start_on(old(self).start@, event_start) && (final(self)@, r) == #[trigger] old(
                self)@.edited(without_last(), event_start),
            final(self).alarm_state == old(self).alarm_state,
    {
        let event_start = self.local_start_date();
        self.backspace_on(event_start)
    }

    fn step_calendar(&mut self, direction: i32, calendars: &Vec<CalendarInfo>)
        requires
            calendars@.len() > 0,
        ensures
            *final(self) == (EventForm { calendar_index: final(self).calendar_index, ..*old(self) }),
            final(self).calendar_index == next_writable(
                old(self).calendar_index as int,
                direction as int,
                calendars@,
                calendars@.len(),
            ),
    {
        let count: usize = calendars.len();
        let mut left: usize = count;
        while left > 0
            invariant
                count == calendars@.len(),
                count > 0,
                left <= count,
                *self == (EventForm { calendar_index: self.calendar_index, ..*old(self) }),
                next_writable(
                    old(self).calendar_index as int,
                    direction as int,
                    calendars@,
                    calendars@.len(),
                ) == next_writable(
                    self.calendar_index as int,
                    direction as int,
                    calendars@,
                    left as nat,
                ),
            decreases left,
        {
            self.calendar_index = step_index(self.calendar_index, direction < 0, count);
            if calendars[self.calendar_index].is_writable {
                return;
            }
            left -= 1;
        }
    }

    fn toggle_all_day(&mut self)
        requires
            old(self).wf(),
        ensures
            final(self)@ == old(self)@.all_day_toggled(),
            final(self).wf(),
    {
        self.all_day = !self.all_day;
        match &self.editor_mode {
            EditorMode::Create => {
                if self.all_day {
                    match (
                        form_calendar_date(self.start.as_str()),
                        form_calendar_date(self.end.as_str()),
                    ) {
                        (Some(start), Some(end)) => {
                            self.create_all_day_timed_backup = Some(
                                (self.start.clone(), self.end.clone()),
                            );
                            self.start = iso_date_text(start);
                            self.end = iso_date_text(end);
                        },
                        _ => {},
                    }
                } else {
                    match self.create_all_day_timed_backup.take() {
                        Some((start, end)) => {
                            self.start = start;
                            self.end = end;
                        },
                        None => {},
                    }
                }
            },
            _ => {},
        }
        if self.all_day {
            self.alarm_state = if self.id.is_some() {
                AlarmEditorState::ProtectedExisting
            } else {
                let none: Vec<Alarm> = Vec::new();
                AlarmEditorState::from_existing(&none)
            };
        }
    }

    fn pick_repeat(&mut self, direction: i32, date: Date)
        requires
            old(self).wf(),
        ensures
            final(self)@ == old(self)@.repeat_picked(direction as int, date),
            final(self).wf(),
    {
        self.recurrence.cycle_mode(direction, date);
        match &self.recurrence {
            RecurrenceEditorState::Structured(data) => {
                if data.rule.frequency == RecurrenceFrequency::Weekly {
                    let days = WeekdaySet::from_codes(&data.rule.days_of_week);
                    self.weekday_cursor = match days.first() {
                        Some(day) => day,
                        None => WeekdayCursor::from_index(date.days_from_monday()),
                    };
                    self.weekday_selection = days;
                } else {
                    self.weekday_selection = WeekdaySet::new();
                }
            },
            _ => {},
        }
        self.normalize_cursor();
    }

    /// Steps the choice under the cursor in a direction; `today` stands in for a start that cannot
    /// be read.
    pub fn adjust_on(&mut self, direction: i32, calendars: &Vec<CalendarInfo>, today: Date)
        requires
            old(self).wf(),
        ensures
            final(self)@ == old(self)@.adjusted(direction as int, calendars@, today),
            final(self).wf(),
    {
        match self.field() {
            FormField::Calendar => {
                if calendars.len() > 0 {
                    self.step_calendar(direction, calendars);
                }
            },
            FormField::AllDay => self.toggle_all_day(),
            FormField::Availability => {
                self.availability = match (self.availability, direction < 0) {
                    (Availability::Busy, true) => Availability::Unavailable,
                    (Availability::Busy, false) => Availability::Free,
                    (Availability::Free, true) => Availability::Busy,
                    (Availability::Free, false) => Availability::Tentative,
                    (Availability::Tentative, true) => Availability::Free,
                    (Availability::Tentative, false) => Availability::Unavailable,
                    (Availability::Unavailable, true) => Availability::Tentative,
                    (Availability::Unavailable, false) => Availability::Busy,
                };
            },
            FormField::Recurrence => {
                let date = match parse_wall_time(self.start.as_str()) {
                    Some(at) => at.date,
                    None => today,
                };
                self.pick_repeat(direction, date);
            },
            FormField::RecurrenceInterval => {
                match &mut self.recurrence {
                    RecurrenceEditorState::Structured(data) => {
                        data.rule.interval = if direction < 0 {
                            if data.rule.interval > 1 {
                                data.rule.interval - 1
                            } else {
                                1
                            }
                        } else if data.rule.interval == u32::MAX {
                            u32::MAX
                        } else {
                            data.rule.interval + 1
                        };
                    },
                    _ => {},
                }
            },
            FormField::RecurrenceEnds => {
                let mut stepped = false;
                match &mut self.recurrence {
                    RecurrenceEditorState::Structured(data) => {
                        data.cycle_end_mode(direction);
                        stepped = true;
                    },
                    _ => {},
                }
                if stepped {
                    self.normalize_cursor();
                }
            },
            FormField::Weekdays => {
                self.weekday_cursor = self.weekday_cursor.move_by(direction);
            },
            _ => {},
        }
    }

    /// Steps the choice under the cursor in a direction.
    pub fn adjust(&mut self, direction: i32, calendars: &Vec<CalendarInfo>)
        requires
            old(self).wf(),
        ensures
            exists|today: Date|
                may_be_today(today) && final(self)@ == #[trigger] old(self)@.adjusted(
                    direction as int,
                    calendars@,
                    today,
                ),
            final(self).wf(),
    {
        let today = local_today();
        self.adjust_on(direction, calendars, today);
    }

    /// Chooses the day under the weekday cursor, or drops it.
    pub fn toggle_weekday(&mut self)
        ensures
            *final(self) == (EventForm {
                weekday_selection: old(self).weekday_selection.with(
                    old(self).weekday_cursor,
                    !old(self).weekday_selection.holds(old(self).weekday_cursor),
                ),
                ..*old(self)
            }),
    {
        let chosen = self.weekday_selection.contains(self.weekday_cursor);
        self.weekday_selection.set(self.weekday_cursor, !chosen);
    }
}

/// When the event of a form takes place, and the date on which it starts; or what is wrong.
pub type DraftTime = Result<(EventTimeInput, Date), Seq<char>>;

/// The dates of an all-day event that texts show by its first and its last day, the end as the day
/// after the last; or what is wrong.
pub open spec fn typed_dates(start: Seq<char>, end: Seq<char>) -> Result<(Date, Date), Seq<char>> {
    match (iso_date(trimmed(start)), iso_date(trimmed(end))) {
        (None, _) => Err("All-day start date must use YYYY-MM-DD"@),
        (Some(_), None) => Err("All-day end date must use YYYY-MM-DD"@),
        (Some(first), Some(last)) => if last.day < first.day {
            Err("All-day end date must not be before start date"@)
        } else {
            match last.shifted(1) {
                None => Err("All-day end date is out of range"@),
                Some(end) => Ok((first, end)),
            }
        },
    }
}

/// The dates of an all-day event that texts show by its first and its last day.
pub fn parse_typed_dates(start: &str, end: &str) -> (r: Result<(Date, Date), String>)
    ensures
        result_view(r) == typed_dates(start@, end@),
        r matches Ok(dates) ==> dates.0.day < dates.1.day,
{
    let first = match parse_iso_date(trim(start).as_str()) {
        Some(date) => date,
        None => return Err("All-day start date must use YYYY-MM-DD".to_owned()),
    };
    let last = match parse_iso_date(trim(end).as_str()) {
        Some(date) => date,
        None => return Err("All-day end date must use YYYY-MM-DD".to_owned()),
    };
    if last.day < first.day {
        return Err("All-day end date must not be before start date".to_owned());
    }
    match last.plus_days(1) {
        Some(end) => Ok((first, end)),
        None => Err("All-day end date is out of range".to_owned()),
    }
}

impl EventFormView {
    /// The instants between which a form's event takes place, where its times read as `start` and
    /// `end` on this machine.
    pub open spec fn draft_instants(self, start: Option<Timestamp>, end: Option<Timestamp>) -> Result<
        (Timestamp, Timestamp),
        Seq<char>,
    > {
        match self.all_day_editor {
            Some(state) => Ok(
                (state.original_start.midnight(), state.original_end_exclusive.midnight()),
            ),
            None => match (local_reading(self.start, start), local_reading(self.end, end)) {
                (Err(error), _) => Err(error),
                (Ok(_), Err(error)) => Err(error),
                (Ok(start), Ok(end)) => Ok((start, end)),
            },
        }
    }

    /// When the event of the form takes place. A duplicate keeps an all-day event's dates, a new
    /// all-day event has the dates that were typed, and any other has instants, of which the first
    /// falls on `start_date` on this machine.
    pub open spec fn draft_time(
        self,
        start: Option<Timestamp>,
        end: Option<Timestamp>,
        start_date: Date,
    ) -> DraftTime {
        if self.editor_mode is Duplicate && self.all_day {
            match self.all_day_editor {
                None => Err("Cannot safely duplicate legacy all-day event until refreshed"@),
                Some(state) => if state.original_start.day < state.original_end_exclusive.day {
                    Ok(
                        (
                            EventTimeInput::AllDay {
                                start_date: state.original_start,
                                end_date_exclusive: state.original_end_exclusive,
                            },
                            state.original_start,
                        ),
                    )
                } else {
                    Err("End must be after start"@)
                },
            }
        } else if self.editor_mode is Create && self.all_day {
            match typed_dates(self.start, self.end) {
                Err(error) => Err(error),
                Ok(dates) => Ok(
                    (
                        EventTimeInput::AllDay {
                            start_date: dates.0,
                            end_date_exclusive: dates.1,
                        },
                        dates.0,
                    ),
                ),
            }
        } else {
            match self.draft_instants(start, end) {
                Err(error) => Err(error),
                Ok(instants) => if instants.1.nanos <= instants.0.nanos {
                    Err("End must be after start"@)
                } else if self.all_day {
                    Ok(
                        (
                            EventTimeInput::LegacyAllDayUnknown {
                                start: instants.0,
                                end: instants.1,
                            },
                            start_date,
                        ),
                    )
                } else {
                    Ok((EventTimeInput::Timed { start: instants.0, end: instants.1 }, start_date))
                },
            }
        }
    }

    /// The rules that saving the form makes, a weekly one on the days that were chosen; or what is
    /// wrong.
    pub open spec fn saved_rules(self, event_start: Date) -> Result<
        Seq<RecurrenceRuleView>,
        Seq<char>,
    > {
        let state = match self.recurrence {
            RecurrenceEditorView::Structured(data) => if data.rule.frequency
                == RecurrenceFrequency::Weekly {
                RecurrenceEditorView::Structured(
                    RecurrenceEditorDataView {
                        rule: RecurrenceRuleView {
                            days_of_week: self.weekday_selection.letters(),
                            ..data.rule
                        },
                        ..data
                    },
                )
            } else {
                self.recurrence
            },
            _ => self.recurrence,
        };
        match state.saved(event_start) {
            Ok(rules) => Ok(rules),
            Err(error) => Err(error.text()),
        }
    }

    /// The draft that the form makes, the span of occurrences that it is for, and what it does to
    /// the event's alarms; or the first thing that is wrong with the form.
    pub open spec fn drafted(
        self,
        calendars: Seq<CalendarInfo>,
        start: Option<Timestamp>,
        end: Option<Timestamp>,
        start_date: Date,
    ) -> Result<(EventDraftView, EventSpan, Option<Seq<Alarm>>), Seq<char>> {
        if self.editor_mode is Edit && self.id is None {
            Err("Event provider identity is unavailable; refresh before editing"@)
        } else if trimmed(self.title).len() == 0 {
            Err("Title is required"@)
        } else if self.calendar_index >= calendars.len() {
            Err("Select a calendar"@)
        } else if !calendars[self.calendar_index].is_writable {
            Err("Selected calendar is read-only"@)
        } else {
            match self.draft_time(start, end, start_date) {
                Err(error) => Err(error),
                Ok(time) => if trimmed(self.url).len() > 0 && !occurs_in(
                    trimmed(self.url),
                    "://"@,
                ) {
                    Err("URL must include a scheme, such as https://"@)
                } else {
                    match (self.alarm_state.drafted(self.id is Some), self.saved_rules(time.1)) {
                        (Err(error), _) => Err(error),
                        (Ok(_), Err(error)) => Err(error),
                        (Ok(alarms), Ok(rules)) => Ok(
                            (
                                EventDraftView {
                                    id: self.id,
                                    occurrence_id: self.occurrence_id,
                                    occurrence_start: self.occurrence_start,
                                    occurrence_calendar_id: self.occurrence_calendar_id,
                                    calendar_id: calendars[self.calendar_index].id@,
                                    title: trimmed(self.title),
                                    time: time.0,
                                    location: trimmed(self.location),
                                    notes: trimmed(self.notes),
                                    url: trimmed(self.url),
                                    time_zone: trimmed(self.time_zone),
                                    availability: self.availability,
                                    attendees: Seq::empty(),
                                    alarms: alarms.0,
                                    recurrence: rules,
                                },
                                self.span,
                                alarms.1,
                            ),
                        ),
                    }
                },
            }
        }
    }

    /// What saving the form does to the event's time: an all-day event with known dates keeps them
    /// where they were not changed, and one without keeps its time.
    pub open spec fn changed_time(self) -> Result<EventTimeMutation, Seq<char>> {
        match self.all_day_editor {
            Some(state) => match typed_dates(self.start, self.end) {
                Err(error) => Err(error),
                Ok(dates) => if dates == (state.original_start, state.original_end_exclusive) {
                    Ok(EventTimeMutation::Preserve)
                } else {
                    Ok(
                        EventTimeMutation::ReplaceAllDay {
                            start_date: dates.0,
                            end_date_exclusive: dates.1,
                        },
                    )
                },
            },
            None => if self.id is Some && self.all_day {
                Ok(EventTimeMutation::Preserve)
            } else {
                Ok(EventTimeMutation::ReplaceLegacy)
            },
        }
    }
}

/// A draft, its span and its alarms, or what is wrong.
pub open spec fn draft_result_view(
    r: Result<(EventDraft, EventSpan, AlarmMutation), String>,
) -> Result<(EventDraftView, EventSpan, Option<Seq<Alarm>>), Seq<char>> {
    match r {
        Ok(drafted) => Ok((drafted.0@, drafted.1, drafted.2@)),
        Err(error) => Err(error@),
    }
}

impl EventForm {
    /// The rules that saving the form makes.
    pub fn rules_for_save(&self, event_start: Date) -> (r: Result<Vec<RecurrenceRule>, String>)
        ensures
            rules_view(r) == self@.saved_rules(event_start),
    {
        let mut state = self.recurrence.clone();
        match &mut state {
            RecurrenceEditorState::Structured(data) => {
                if data.rule.frequency == RecurrenceFrequency::Weekly {
                    data.rule.days_of_week = self.weekday_selection.codes();
                }
            },
            _ => {},
        }
        match state.to_rules(event_start) {
            Ok(rules) => Ok(rules),
            Err(error) => Err(error.message()),
        }
    }

    fn instants_for_draft(&self, start: Option<Timestamp>, end: Option<Timestamp>) -> (r: Result<
        (Timestamp, Timestamp),
        String,
    >)
        ensures
            result_view(r) == self@.draft_instants(start, end),
    {
        match self.all_day_editor {
            Some(state) => Ok(
                (state.original_start.utc_midnight(), state.original_end_exclusive.utc_midnight()),
            ),
            None => {
                let start = match read_local(self.start.as_str(), start) {
                    Ok(start) => start,
                    Err(error) => return Err(error),
                };
                let end = match read_local(self.end.as_str(), end) {
                    Ok(end) => end,
                    Err(error) => return Err(error),
                };
                Ok((start, end))
            },
        }
    }

    fn time_for_draft(
        &self,
        start: Option<Timestamp>,
        end: Option<Timestamp>,
        start_date: Date,
    ) -> (r: Result<(EventTimeInput, Date), String>)
        ensures
            result_view(r) == self@.draft_time(start, end, start_date),
    {
        match (&self.editor_mode, self.all_day) {
            (EditorMode::Duplicate { .. }, true) => match self.all_day_editor {
                None => Err(
                    "Cannot safely duplicate legacy all-day event until refreshed".to_owned(),
                ),
                Some(state) => match EventTimeInput::all_day(
                    state.original_start,
                    state.original_end_exclusive,
                ) {
                    Ok(time) => Ok((time, state.original_start)),
                    Err(error) => Err(error),
                },
            },
            (EditorMode::Create, true) => match parse_typed_dates(
                self.start.as_str(),
                self.end.as_str(),
            ) {
                Err(error) => Err(error),
                Ok((first, end)) => match EventTimeInput::all_day(first, end) {
                    Ok(time) => Ok((time, first)),
                    Err(error) => Err(error),
                },
            },
            _ => {
                let (start, end) = match self.instants_for_draft(start, end) {
                    Ok(instants) => instants,
                    Err(error) => return Err(error),
                };
                let time = if self.all_day {
                    EventTimeInput::legacy_all_day_unknown(start, end)
                } else {
                    EventTimeInput::timed(start, end)
                };
                match time {
                    Ok(time) => Ok((time, start_date)),
                    Err(error) => Err(error),
                }
            },
        }
    }

    /// The draft that the form makes, where its times read as `start` and `end` on this machine,
    /// and its first instant falls on `start_date`.
    pub fn to_draft_at(
        &self,
        calendars: &Vec<CalendarInfo>,
        start: Option<Timestamp>,
        end: Option<Timestamp>,
        start_date: Date,
    ) -> (r: Result<(EventDraft, EventSpan, AlarmMutation), String>)
        ensures
            draft_result_view(r) == self@.drafted(calendars@, start, end, start_date),
    {
        match &self.editor_mode {
            EditorMode::Edit { .. } => {
                if self.id.is_none() {
                    return Err(
                        "Event provider identity is unavailable; refresh before editing".to_owned(),
                    );
                }
            },
            _ => {},
        }
        if is_blank(self.title.as_str()) {
            return Err("Title is required".to_owned());
        }
        if self.calendar_index >= calendars.len() {
            return Err("Select a calendar".to_owned());
        }
        let calendar = &calendars[self.calendar_index];
        if !calendar.is_writable {
            return Err("Selected calendar is read-only".to_owned());
        }
        let (time, recurrence_start) = match self.time_for_draft(start, end, start_date) {
            Ok(time) => time,
            Err(error) => return Err(error),
        };
        let url = trim(self.url.as_str());
        if !url.as_str().is_empty() && !contains(url.as_str(), "://") {
            return Err("URL must include a scheme, such as https://".to_owned());
        }
        let (alarms, alarm_mutation) = match self.alarm_state.draft_alarms_and_mutation(
            self.id.is_some(),
        ) {
            Ok(drafted) => drafted,
            Err(error) => return Err(error),
        };
        let recurrence = match self.rules_for_save(recurrence_start) {
            Ok(rules) => rules,
            Err(error) => return Err(error),
        };
        let draft = EventDraft {
            id: self.id.clone(),
            occurrence_id: self.occurrence_id.clone(),
            occurrence_start: self.occurrence_start,
            occurrence_calendar_id: self.occurrence_calendar_id.clone(),
            calendar_id: calendar.id.clone(),
            title: trim(self.title.as_str()),
            time,
            location: trim(self.location.as_str()),
            notes: trim(self.notes.as_str()),
            url,
            time_zone: trim(self.time_zone.as_str()),
            availability: self.availability,
            attendees: Vec::new(),
            alarms,
            recurrence,
        };
        proof {
            assert(draft@.attendees =~= Seq::<Seq<char>>::empty());
        }
        Ok((draft, self.span, alarm_mutation))
    }

    /// The draft that the form makes, its times as the machine's clock shows them.
    pub fn to_draft(&self, calendars: &Vec<CalendarInfo>) -> (r: Result<
        (EventDraft, EventSpan, AlarmMutation),
        String,
    >)
        ensures
            self.may_draft(calendars@, draft_result_view(r)),
    {
        let start = local_instant_of(self.start.as_str());
        let end = local_instant_of(self.end.as_str());
        let start_date = match self.instants_for_draft(start, end) {
            Ok((start, _)) => local_wall_time(start).date,
            Err(_) => local_today(),
        };
        self.to_draft_at(calendars, start, end, start_date)
    }

    /// What saving the form does to the event's time.
    pub fn time_mutation(&self) -> (r: Result<EventTimeMutation, String>)
        ensures
            result_view(r) == self@.changed_time(),
    {
        match self.all_day_editor {
            Some(state) => match parse_typed_dates(self.start.as_str(), self.end.as_str()) {
                Err(error) => Err(error),
                Ok((first, end)) => if first.day == state.original_start.day && end.day
                    == state.original_end_exclusive.day {
                    Ok(EventTimeMutation::Preserve)
                } else {
                    Ok(
                        EventTimeMutation::ReplaceAllDay {
                            start_date: first,
                            end_date_exclusive: end,
                        },
                    )
                },
            },
            None => if self.id.is_some() && self.all_day {
                Ok(EventTimeMutation::Preserve)
            } else {
                Ok(EventTimeMutation::ReplaceLegacy)
            },
        }
    }
}

/// A step to the next line and a step back lead to the same line.
pub proof fn law_field_steps_cancel(form: EventFormView)
    requires
        0 <= form.selected < form.fields().len(),
    ensures
        ((form.selected + 1) % form.fields().len() as int + form.fields().len() - 1)
            % form.fields().len() as int == form.selected,
        ((form.selected + form.fields().len() - 1) % form.fields().len() as int + 1)
            % form.fields().len() as int == form.selected,
{
    let n = form.fields().len() as int;
    lemma_wrap(form.selected, n);
    lemma_wrap((form.selected + 1) % n, n);
    lemma_wrap((form.selected + n - 1) % n, n);
}

/// Stepping through the calendars never stops on one that cannot be written to while there is one
/// that can.
pub proof fn law_calendar_step_finds_a_writable(
    index: int,
    direction: int,
    calendars: Seq<CalendarInfo>,
    writable: int,
)
    requires
        0 <= index < calendars.len(),
        0 <= writable < calendars.len(),
        calendars[writable].is_writable,
    ensures
        calendars[next_writable(index, direction, calendars, calendars.len())].is_writable,
        0 <= next_writable(index, direction, calendars, calendars.len()) < calendars.len(),
{
    let n = calendars.len() as int;
    let distance = if direction < 0 {
        if writable < index {
            index - writable
        } else {
            index - writable + n
        }
    } else {
        if writable > index {
            writable - index
        } else {
            writable - index + n
        }
    };
    lemma_step_reaches(index, direction, calendars, calendars.len(), writable, distance);
}

proof fn lemma_step_reaches(
    index: int,
    direction: int,
    calendars: Seq<CalendarInfo>,
    steps: nat,
    writable: int,
    distance: int,
)
    requires
        0 <= index < calendars.len(),
        0 <= writable < calendars.len(),
        calendars[writable].is_writable,
        1 <= distance <= steps,
        distance <= calendars.len(),
        direction < 0 ==> distance == index - writable || distance == index - writable
            + calendars.len(),
        direction >= 0 ==> distance == writable - index || distance == writable - index
            + calendars.len(),
    ensures
        calendars[next_writable(index, direction, calendars, steps)].is_writable,
        0 <= next_writable(index, direction, calendars, steps) < calendars.len(),
    decreases steps,
{
    let n = calendars.len() as int;
    lemma_wrap(index, n);
    let next = neighbour(index, direction < 0, n);
    if !calendars[next].is_writable {
        assert(distance > 1);
        lemma_step_reaches(
            next,
            direction,
            calendars,
            (steps - 1) as nat,
            writable,
            distance - 1,
        );
    }
}

/// Switching a new event to all day and back gives the times back that were typed.
pub proof fn law_all_day_toggle_restores_times(form: EventFormView)
    requires
        form.editor_mode is Create,
        !form.all_day,
        form.create_all_day_timed_backup is None,
    ensures
        form.all_day_toggled().all_day,
        form.all_day_toggled().all_day_toggled() == (EventFormView {
            alarm_state: form.all_day_toggled().alarm_state,
            ..form
        }),
{
}

/// A draft is made only of a form with a title and a calendar that can be written to, and the
/// event of a draft ends after it starts.
pub proof fn law_draft_is_sound(
    form: EventFormView,
    calendars: Seq<CalendarInfo>,
    start: Option<Timestamp>,
    end: Option<Timestamp>,
    start_date: Date,
)
    requires
        form.drafted(calendars, start, end, start_date) is Ok,
        0 <= form.calendar_index,
    ensures
        ({
            let draft = form.drafted(calendars, start, end, start_date)->Ok_0.0;
            &&& draft.title.len() > 0
            &&& form.calendar_index < calendars.len()
            &&& calendars[form.calendar_index].is_writable
            &&& draft.calendar_id == calendars[form.calendar_index].id@
            &&& match draft.time {
                EventTimeInput::Timed { start, end } => start.nanos < end.nanos,
                EventTimeInput::AllDay { start_date, end_date_exclusive } => start_date.day
                    < end_date_exclusive.day,
                EventTimeInput::LegacyAllDayUnknown { start, end } => start.nanos < end.nanos,
            }
        }),
{
}

/// An event that is edited and saved as it was keeps what it says, but for white space at the ends,
/// and its alarms; a timed one also keeps its time.
pub proof fn law_unchanged_form_keeps_the_event(
    event: Event,
    calendars: Seq<CalendarInfo>,
    start_wall: WallTime,
    end_wall: WallTime,
    start_date: Date,
)
    requires
        calendar_at(calendars, event.calendar_id@) is Some,
        edit_form(event@, event.date_range(), calendars, start_wall, end_wall).drafted(
            calendars,
            Some(event.start),
            Some(event.end),
            start_date,
        ) is Ok,
    ensures
        ({
            let (draft, span, alarms) = edit_form(
                event@,
                event.date_range(),
                calendars,
                start_wall,
                end_wall,
            ).drafted(calendars, Some(event.start), Some(event.end), start_date)->Ok_0;
            &&& draft.calendar_id == event.calendar_id@
            &&& draft.title == trimmed(event.title@)
            &&& draft.location == trimmed(event.location@)
            &&& draft.notes == trimmed(event.notes@)
            &&& draft.url == trimmed(event.url@)
            &&& draft.time_zone == trimmed(event.time_zone@)
            &&& draft.availability == event.availability
            &&& event.recurrence@.len() == 0 ==> draft.recurrence.len() == 0
            &&& !event.all_day ==> draft.time == (EventTimeInput::Timed {
                start: event.start,
                end: event.end,
            })
            &&& span == EventSpan::ThisEvent
            &&& alarms is None
        }),
{
    law_untouched_alarms_are_preserved(
        event.alarms@,
        event.all_day,
        event.time_zone_provenance,
    );
    lemma_first_from(calendars, calendar_named(event.calendar_id@), 0);
    assert(event@.recurrence.len() == event.recurrence@.len());
}

/// An event that is edited keeps its identity in the draft; a duplicate has none of the original's,
/// and does not repeat.
pub proof fn law_draft_identity(
    event: EventView,
    dates: Option<(Date, Date)>,
    calendars: Seq<CalendarInfo>,
    start_wall: WallTime,
    end_wall: WallTime,
    start: Option<Timestamp>,
    end: Option<Timestamp>,
    start_date: Date,
)
    ensures
        ({
            let edit = edit_form(event, dates, calendars, start_wall, end_wall);
            let copy = duplicate_form(edit, event.id);
            &&& edit.drafted(calendars, start, end, start_date) matches Ok(made) ==> made.0.id
                == event.provider_id && made.0.occurrence_id == Some(event.id)
                && made.0.occurrence_start == Some(event.start) && made.0.occurrence_calendar_id
                == Some(event.calendar_id)
            &&& copy.drafted(calendars, start, end, start_date) matches Ok(made) ==> made.0.id
                is None && made.0.occurrence_id is None && made.0.occurrence_start is None
                && made.0.occurrence_calendar_id is None && made.0.recurrence.len() == 0
        }),
{
}

impl EventFormView {
    /// Whether the line under the cursor is chosen from, not typed into.
    pub open spec fn at_choice(self) -> bool {
        self.current() is Calendar || self.current() is AllDay || self.current() is Availability
            || self.current() is Recurrence || self.current() is RecurrenceInterval
            || self.current() is RecurrenceEnds
    }

    /// Whether the cursor is on alarms that an all-day event cannot have.
    pub open spec fn lacks_reminders(self) -> bool {
        self.current() is Alarms && self.all_day && !self.alarm_state.only_absolute()
    }

    /// The form after a key that is for the list of alarms, where the cursor is on it.
    pub open spec fn after_alarm_key(self, key: KeyEvent) -> (EventFormView, AlarmKeyOutcome) {
        if self.current() is Alarms {
            let (alarm_state, outcome) = self.alarm_state.after_key(key, self.time_zone);
            (EventFormView { alarm_state, ..self }, outcome)
        } else {
            (self, None)
        }
    }

    /// The form with the cursor a line further, or back.
    pub open spec fn cursor_moved(self, backwards: bool) -> EventFormView {
        EventFormView {
            selected: neighbour(self.selected, backwards, self.fields().len() as int),
            ..self
        }
    }

    /// The form after a key, and whether the key changed what it holds, where the machine's clock
    /// gives `today` for the current date and `event_start` for the day on which the event starts.
    pub open spec fn after_key(
        self,
        key: KeyEvent,
        calendars: Seq<CalendarInfo>,
        today: Date,
        event_start: Date,
    ) -> (EventFormView, bool) {
        match key.code {
            KeyCode::Tab => (self.cursor_moved(false), false),
            KeyCode::Down => (self.cursor_moved(false), false),
            KeyCode::BackTab => (self.cursor_moved(true), false),
            KeyCode::Up => (self.cursor_moved(true), false),
            KeyCode::Left => (self.adjusted(-1, calendars, today), self.at_choice()),
            KeyCode::Right => (self.adjusted(1, calendars, today), self.at_choice()),
            KeyCode::Backspace => self.edited(without_last(), event_start),
            KeyCode::Char(character) => if character == ' ' && self.current() is Weekdays {
                (
                    EventFormView {
                        weekday_selection: self.weekday_selection.with(
                            self.weekday_cursor,
                            !self.weekday_selection.holds(self.weekday_cursor),
                        ),
                        ..self
                    },
                    true,
                )
            } else if character == ' ' && self.at_choice() {
                (self.adjusted(1, calendars, today), true)
            } else if !key.modifiers.control {
                self.edited(with_char(character), event_start)
            } else {
                (self, false)
            },
            _ => (self, false),
        }
    }
}

impl EventForm {
    fn type_key(&mut self, key: KeyEvent, calendars: &Vec<CalendarInfo>, character: char, today: Date, event_start: Date) -> (r: bool)
        requires
            old(self).wf(),
            key.code == KeyCode::Char(character),
        ensures
            (final(self)@, r) == old(self)@.after_key(key, calendars@, today, event_start),
            final(self).wf(),
    {
        if character == ' ' {
            match self.field() {
                FormField::Weekdays => {
                    self.toggle_weekday();
                    return true;
                },
                _ => {},
            }
            if self.is_toggle() {
                self.adjust_on(1, calendars, today);
                return true;
            }
        }
        if !key.modifiers.control {
            self.push_on(character, event_start)
        } else {
            false
        }
    }

    /// Handles a key that is for the form's lines; the result says whether it changed what the form
    /// holds.
    pub fn handle_key_on(
        &mut self,
        key: KeyEvent,
        calendars: &Vec<CalendarInfo>,
        today: Date,
        event_start: Date,
    ) -> (r: bool)
        requires
            old(self).wf(),
        ensures
            (final(self)@, r) == old(self)@.after_key(key, calendars@, today, event_start),
            final(self).wf(),
    {
        match key.code {
            KeyCode::Tab => {
                self.next_field();
                false
            },
            KeyCode::Down => {
                self.next_field();
                false
            },
            KeyCode::BackTab => {
                self.previous_field();
                false
            },
            KeyCode::Up => {
                self.previous_field();
                false
            },
            KeyCode::Left => {
                let changes = self.is_toggle();
                self.adjust_on(-1, calendars, today);
                changes
            },
            KeyCode::Right => {
                let changes = self.is_toggle();
                self.adjust_on(1, calendars, today);
                changes
            },
            KeyCode::Backspace => self.backspace_on(event_start),
            KeyCode::Char(character) => self.type_key(key, calendars, character, today, event_start),
            _ => false,
        }
    }

    /// Handles a key that is for the form's lines; the result says whether it changed what the form
    /// holds.
    pub fn handle_key(&mut self, key: KeyEvent, calendars: &Vec<CalendarInfo>) -> (r: bool)
        requires
            old(self).wf(),
        ensures
            exists|today: Date, event_start: Date|
                may_be_today(today) && may_start_on(old(self).start@, event_start) && (
                final(self)@, r) == #[trigger] old(self)@.after_key(
                    key,
                    calendars@,
                    today,
                    event_start,
                ),
            final(self).wf(),
    {
        let today = local_today();
        let event_start = self.local_start_date();
        self.handle_key_on(key, calendars, today, event_start)
    }

    /// Handles a key that is for the list of alarms, where the cursor is on it.
    pub fn handle_alarm_key(&mut self, key: KeyEvent) -> (r: Option<Result<bool, String>>)
        requires
            old(self).wf(),
        ensures
            (final(self)@, outcome_view(r)) == old(self)@.after_alarm_key(key),
            r is None ==> *final(self) == *old(self),
            final(self).wf(),
    {
        match self.field() {
            FormField::Alarms => self.alarm_state.handle_key(key, self.time_zone.as_str()),
            _ => None,
        }
    }

    /// Whether the cursor is on alarms that an all-day event cannot have.
    pub fn reminders_unavailable(&self) -> (r: bool)
        ensures
            r == self@.lacks_reminders(),
    {
        match self.field() {
            FormField::Alarms => self.all_day && !self.alarm_state.allows_all_day_actions(),
            _ => false,
        }
    }

    /// Whether this is the form of a new event in the calendar at an index, on a date, from a minute
    /// of the day and for a number of minutes, as a clock may show them.
    pub open spec fn creates(
        self,
        calendar_index: int,
        date: Date,
        start_minute: int,
        duration_minutes: int,
    ) -> bool {
        exists|begin: Timestamp, start: WallTime, end: WallTime, zone: Seq<char>|
            #![trigger may_begin(date, start_minute, begin), new_form(
                calendar_index,
                start,
                end,
                zone,
            )]
            was_zone(zone) && may_begin(date, start_minute, begin) && shows_near(begin, start) && shows_near(
                new_end(begin, duration_minutes),
                end,
            ) && self@ == new_form(calendar_index, start, end, zone)
    }

    /// Whether this is the form in which an event is edited, its times as a clock may show them.
    pub open spec fn edits(self, event: Event, calendars: Seq<CalendarInfo>) -> bool {
        exists|start: WallTime, end: WallTime|
            shows_near(event.start, start) && shows_near(event.end, end) && self@
                == #[trigger] edit_form(event@, event.date_range(), calendars, start, end)
    }

    /// Whether this is the form in which an event is edited in a scope.
    pub open spec fn edits_in_scope(
        self,
        event: Event,
        calendars: Seq<CalendarInfo>,
        span: EventSpan,
        scope: RecurrenceMutationScope,
    ) -> bool {
        exists|start: WallTime, end: WallTime|
            shows_near(event.start, start) && shows_near(event.end, end) && self@ == (
            EventFormView {
                span,
                recurrence_scope: Some(scope),
                ..#[trigger] edit_form(event@, event.date_range(), calendars, start, end)
            })
    }

    /// Whether this is the form in which an event is duplicated.
    pub open spec fn duplicates(self, event: Event, calendars: Seq<CalendarInfo>) -> bool {
        exists|start: WallTime, end: WallTime|
            shows_near(event.start, start) && shows_near(event.end, end) && self@
                == duplicate_form(
                #[trigger] edit_form(event@, event.date_range(), calendars, start, end),
                event@.id,
            )
    }

    /// Whether a draft is what the form makes, for what a clock may say of its times: instants near
    /// those that are written, and the date on which the first may fall.
    pub open spec fn may_draft(
        self,
        calendars: Seq<CalendarInfo>,
        drafted: Result<(EventDraftView, EventSpan, Option<Seq<Alarm>>), Seq<char>>,
    ) -> bool {
        exists|start: Option<Timestamp>, end: Option<Timestamp>, start_date: Date|
            may_read(self@.start, start) && may_read(self@.end, end) && (self@.draft_instants(
                start,
                end,
            ) matches Ok(instants) ==> falls_near(instants.0, start_date)) && drafted
                == #[trigger] self@.drafted(calendars, start, end, start_date)
    }
}

} // verus!
