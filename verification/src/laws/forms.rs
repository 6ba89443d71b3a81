//! What the form of an event shows, takes and saves.

use crate::app::{command_view, App, MutationState, WorkerCommand, WorkerCommandView};
use crate::event_form::{
    all_fields, edit_form, lines_of, local_reading, may_begin, may_read, new_end, new_form,
    new_start, typed_dates, EditorModeView, EventForm, EventFormView, FormField,
};
use crate::input::{KeyCode, KeyEvent};
use crate::laws::timeline::is_the_instant;
use crate::model::{
    nine_on, Alarm, Availability, CalendarInfo, Event, EventDraftView, EventSpan, EventTimeInput,
    RecurrenceFrequency,
};
use crate::recurrence::{RecurrenceEditorDataView, RecurrenceEditorView, RecurrenceEndMode};
use crate::text::{occurs_in, opt_view, parsed_unsigned, trimmed};
use crate::time::{
    answered, clock_text, iso_date, iso_text, may_be_shown_at, read_as, read_once, showed,
    shows_near, single, wall_text, wall_time, Date, Timestamp, WallTime, MAX_DAY, MIN_DAY,
};
use vstd::prelude::*;

verus! {

/// A time of day is written with two digits for the hour and two for the minute.
pub proof fn law_clock_text(second: int)
    requires
        0 <= second < 86_400,
    ensures
        clock_text(second).len() == 5,
        clock_text(second)[2] == ':',
        ({
            let t = clock_text(second);
            &&& '0' <= t[0] <= '9' && '0' <= t[1] <= '9' && '0' <= t[3] <= '9' && '0' <= t[4] <= '9'
            &&& (t[0] as int - 48) * 10 + (t[1] as int - 48) == second / 3_600
            &&& (t[3] as int - 48) * 10 + (t[4] as int - 48) == second / 60 % 60
        }),
{
}

/// A wall time is written as its date, a space, and its time of day.
pub proof fn law_wall_text(at: WallTime)
    ensures
        wall_text(at) == iso_text(at.date).push(' ') + clock_text(at.second as int),
{
    assert(iso_text(at.date) + seq![' '] =~= iso_text(at.date).push(' '));
}

/// The form of a new event is blank, in the calendar that was chosen, with one reminder. It starts
/// where the machine's clock shows the wanted minute of the wanted date, and ends as many minutes
/// later as was wanted, but at least one; both as the clock shows them.
pub proof fn law_new_forms(
    form: EventForm,
    calendar_index: int,
    date: Date,
    minute: int,
    duration: int,
)
    requires
        form.creates(calendar_index, date, minute, duration),
        date.valid(),
        0 <= minute < 1_440,
        0 <= duration <= 65_535,
    ensures
        form@.title.len() == 0 && form@.location.len() == 0 && form@.notes.len() == 0
            && form@.url.len() == 0,
        form@.calendar_index == calendar_index,
        form@.id is None && form@.occurrence_id is None,
        !form@.all_day,
        form@.availability == Availability::Busy,
        form@.recurrence is Never,
        exists|begin: Timestamp, start: WallTime, end: WallTime|
            #![trigger showed(begin, start), wall_text(end)]
            showed(begin, start) && form@.start == wall_text(start) && form@.end == wall_text(end)
                && (begin.in_reach() ==> showed(
                Timestamp {
                    nanos: (begin.nanos + (if duration == 0 {
                        1
                    } else {
                        duration
                    }) * 60_000_000_000) as i128,
                },
                end,
            )) && (is_the_instant(date, minute * 60, Some(begin)) || is_the_instant(
                date,
                minute * 60,
                None,
            )),
{
    let (begin, start, end, zone) = choose|
        begin: Timestamp,
        start: WallTime,
        end: WallTime,
        zone: Seq<char>,
    |
        #![trigger may_begin(date, minute, begin), new_form(calendar_index, start, end, zone)]
        crate::time::was_zone(zone) && may_begin(date, minute, begin) && shows_near(begin, start)
            && shows_near(new_end(begin, duration), end) && form@ == new_form(
            calendar_index,
            start,
            end,
            zone,
        );
    let wall = WallTime { date, second: (minute * 60) as u32 };
    assert(new_start(date, minute) == wall) by {
        assert(minute / 60 * 3_600 + minute % 60 * 60 == minute * 60);
    }
    let (shown, blank) = choose|shown: Option<Timestamp>, blank: Timestamp|
        read_once(new_start(date, minute), shown) && read_as(nine_on(date), blank) && begin
            == #[trigger] crate::event_form::beginning(shown, blank);
    let seconds = choose|seconds: Seq<i64>| #[trigger]
        answered(wall, seconds) && may_be_shown_at(wall, seconds) && shown == single(seconds);
    assert(answered(WallTime { date, second: (minute * 60) as u32 }, seconds));
    assert(showed(begin, start));
    let text = wall_text(end);
}

/// The form in which an event is edited shows the event: its texts, its calendar, and its times as
/// the machine's clock shows them, or its first and its last day.
pub proof fn law_edit_forms(form: EventForm, event: Event, calendars: Seq<CalendarInfo>)
    requires
        form.edits(event, calendars),
    ensures
        form@.title == event.title@ && form@.location == event.location@ && form@.notes
            == event.notes@ && form@.url == event.url@ && form@.time_zone == event.time_zone@,
        form@.all_day == event.all_day && form@.availability == event.availability,
        form@.id == opt_view(event.provider_id) && form@.occurrence_id == Some(event.id@),
        form@.occurrence_start == Some(event.start),
        form@.editor_mode == (EditorModeView::Edit { event_id: event.id@ }),
        event.date_range() is None ==> exists|start: WallTime, end: WallTime|
            #![trigger showed(event.start, start), showed(event.end, end)]
            showed(event.start, start) && showed(event.end, end) && form@.start == wall_text(start)
                && form@.end == wall_text(end),
        event.date_range() matches Some(dates) ==> form@.start == iso_text(dates.0) && (MIN_DAY
            < dates.1.day <= MAX_DAY ==> form@.end == iso_text(
            Date { day: (dates.1.day - 1) as i32 },
        )),
{
    let (start, end) = choose|start: WallTime, end: WallTime|
        shows_near(event.start, start) && shows_near(event.end, end) && form@
            == #[trigger] edit_form(event@, event.date_range(), calendars, start, end);
    assert(showed(event.start, start) && showed(event.end, end));
}

/// The form in which an event is duplicated shows the event, but is of a new one that does not
/// repeat.
pub proof fn law_duplicate_forms(form: EventForm, event: Event, calendars: Seq<CalendarInfo>)
    requires
        form.duplicates(event, calendars),
    ensures
        form@.title == event.title@ && form@.location == event.location@ && form@.notes
            == event.notes@ && form@.url == event.url@ && form@.time_zone == event.time_zone@,
        form@.all_day == event.all_day && form@.availability == event.availability,
        form@.id is None && form@.occurrence_id is None && form@.occurrence_start is None,
        form@.recurrence is Never,
        form@.editor_mode == (EditorModeView::Duplicate { source_id: event.id@ }),
        event.date_range() is None ==> exists|start: WallTime, end: WallTime|
            #![trigger showed(event.start, start), showed(event.end, end)]
            showed(event.start, start) && showed(event.end, end) && form@.start == wall_text(start)
                && form@.end == wall_text(end),
{
    let (start, end) = choose|start: WallTime, end: WallTime|
        shows_near(event.start, start) && shows_near(event.end, end) && form@
            == crate::event_form::duplicate_form(
            #[trigger] edit_form(event@, event.date_range(), calendars, start, end),
            event@.id,
        );
    assert(showed(event.start, start) && showed(event.end, end));
}

/// A text in a form is read as the one instant at which the machine's clock shows the time that it
/// writes; a text that writes none, or a time that the clock does not show exactly once, is
/// refused.
pub proof fn law_typed_times(text: Seq<char>, instant: Option<Timestamp>)
    requires
        may_read(text, instant),
    ensures
        wall_time(trimmed(text)) matches Some(wall) ==> is_the_instant(
            wall.date,
            wall.second as int,
            instant,
        ),
        local_reading(text, instant) is Ok <==> instant is Some,
        local_reading(text, instant) matches Ok(at) ==> instant == Some(at),
        wall_time(trimmed(text)) is None <==> local_reading(text, instant) == Err::<
            Timestamp,
            Seq<char>,
        >("Date/time must use YYYY-MM-DD HH:MM"@),
{
    reveal_strlit("Date/time must use YYYY-MM-DD HH:MM");
    reveal_strlit("Date/time is ambiguous or invalid in the local time zone");
    assert("Date/time must use YYYY-MM-DD HH:MM"@.len() == 35);
    assert("Date/time is ambiguous or invalid in the local time zone"@.len() == 56);
    if let Some(wall) = wall_time(trimmed(text)) {
        let seconds = choose|seconds: Seq<i64>| #[trigger]
            answered(wall, seconds) && may_be_shown_at(wall, seconds) && instant == single(seconds);
        assert(wall == (WallTime { date: wall.date, second: wall.second as int as u32 }));
        assert(answered(
            WallTime { date: wall.date, second: wall.second as int as u32 },
            seconds,
        ));
    }
}

/// A form is saved as it is: its texts without white space around them, in its calendar, for its
/// event. A timed event takes place between the instants that were read; a new all-day event from
/// its first to the day after its last day.
pub proof fn law_drafts_hold_the_form(
    form: EventFormView,
    calendars: Seq<CalendarInfo>,
    start: Option<Timestamp>,
    end: Option<Timestamp>,
    start_date: Date,
)
    requires
        form.drafted(calendars, start, end, start_date) is Ok,
        0 <= form.calendar_index,
    ensures
        ({
            let (draft, span, alarms) = form.drafted(calendars, start, end, start_date)->Ok_0;
            &&& draft.title == trimmed(form.title) && draft.title.len() > 0
            &&& draft.location == trimmed(form.location) && draft.notes == trimmed(form.notes)
            &&& draft.url == trimmed(form.url) && draft.time_zone == trimmed(form.time_zone)
            &&& draft.calendar_id == calendars[form.calendar_index].id@
            &&& calendars[form.calendar_index].is_writable
            &&& draft.availability == form.availability && span == form.span
            &&& draft.id == form.id && draft.occurrence_id == form.occurrence_id
            &&& draft.occurrence_start == form.occurrence_start
            &&& draft.attendees.len() == 0
            &&& form.recurrence is Never ==> draft.recurrence.len() == 0
            &&& !form.all_day && form.all_day_editor is None ==> (draft.time
                matches EventTimeInput::Timed { start: first, end: last } && start == Some(first)
                && end == Some(last) && first.nanos < last.nanos)
            &&& form.all_day && form.editor_mode is Create ==> (draft.time
                matches EventTimeInput::AllDay { start_date: first, end_date_exclusive: after }
                && iso_date(trimmed(form.start)) == Some(first) && iso_date(trimmed(form.end))
                == Some(Date { day: (after.day - 1) as i32 }) && first.day < after.day)
        }),
{
}

/// What stops a form from being saved is said: a missing title, a calendar that cannot be written
/// to, an end that is not after the start, a link without a scheme.
pub proof fn law_refused_forms(
    form: EventFormView,
    calendars: Seq<CalendarInfo>,
    start: Timestamp,
    end: Timestamp,
    start_date: Date,
)
    requires
        !(form.editor_mode is Edit),
        !form.all_day,
        form.all_day_editor is None,
        0 <= form.calendar_index < calendars.len(),
        wall_time(trimmed(form.start)) is Some,
        wall_time(trimmed(form.end)) is Some,
        form.alarm_state.drafted(form.id is Some) is Ok,
        form.recurrence is Never,
    ensures
        ({
            let r = form.drafted(calendars, Some(start), Some(end), start_date);
            let titled = trimmed(form.title).len() > 0;
            let writable = calendars[form.calendar_index].is_writable;
            let linked = trimmed(form.url).len() == 0 || occurs_in(trimmed(form.url), "://"@);
            &&& r is Ok <==> titled && writable && start.nanos < end.nanos && linked
            &&& !titled ==> r->Err_0 == "Title is required"@
            &&& titled && !writable ==> r->Err_0 == "Selected calendar is read-only"@
            &&& titled && writable && end.nanos <= start.nanos ==> r->Err_0
                == "End must be after start"@
        }),
{
}

/// The dates of an all-day event are its first and its last day, which is not before the first.
pub proof fn law_typed_dates(start: Seq<char>, end: Seq<char>, first: Date, last: Date)
    requires
        iso_date(trimmed(start)) == Some(first),
        iso_date(trimmed(end)) == Some(last),
        MIN_DAY <= last.day < MAX_DAY,
    ensures
        typed_dates(start, end) is Ok <==> first.day <= last.day,
        typed_dates(start, end) matches Ok(dates) ==> dates.0 == first && dates.1.day == last.day
            + 1,
{
}

/// A character that is typed is added to the line under the cursor, Backspace takes its last one
/// away, and the other lines stay.
pub proof fn law_typing(
    form: EventFormView,
    c: char,
    key: KeyEvent,
    calendars: Seq<CalendarInfo>,
    today: Date,
    event_start: Date,
)
    requires
        !key.modifiers.control,
        key.code == KeyCode::Char(c) || key.code == KeyCode::Backspace,
    ensures
        ({
            let after = form.after_key(key, calendars, today, event_start).0;
            let typed = |line: Seq<char>|
                if key.code == KeyCode::Backspace {
                    if line.len() > 0 {
                        line.drop_last()
                    } else {
                        line
                    }
                } else {
                    line.push(c)
                };
            &&& form.current() == FormField::Title ==> after == (EventFormView {
                title: typed(form.title),
                ..form
            })
            &&& form.current() == FormField::Start ==> after == (EventFormView {
                start: typed(form.start),
                ..form
            })
            &&& form.current() == FormField::End ==> after == (EventFormView {
                end: typed(form.end),
                ..form
            })
            &&& form.current() == FormField::Location ==> after == (EventFormView {
                location: typed(form.location),
                ..form
            })
            &&& form.current() == FormField::Notes ==> after == (EventFormView {
                notes: typed(form.notes),
                ..form
            })
            &&& form.current() == FormField::Url ==> after == (EventFormView {
                url: typed(form.url),
                ..form
            })
            &&& form.current() == FormField::TimeZone ==> after == (EventFormView {
                time_zone: typed(form.time_zone),
                ..form
            })
        }),
{
}

/// Tab and Down go a line on, from the last to the first; BackTab and Up a line back. Nothing else
/// changes.
pub proof fn law_line_steps(
    form: EventFormView,
    key: KeyEvent,
    calendars: Seq<CalendarInfo>,
    today: Date,
    event_start: Date,
)
    requires
        0 <= form.selected < form.fields().len(),
    ensures
        ({
            let (after, changed) = form.after_key(key, calendars, today, event_start);
            let count = form.fields().len() as int;
            &&& key.code == KeyCode::Tab || key.code == KeyCode::Down ==> !changed && after == (
            EventFormView {
                selected: if form.selected == count - 1 {
                    0
                } else {
                    form.selected + 1
                },
                ..form
            })
            &&& key.code == KeyCode::BackTab || key.code == KeyCode::Up ==> !changed && after == (
            EventFormView {
                selected: if form.selected == 0 {
                    count - 1
                } else {
                    form.selected - 1
                },
                ..form
            })
        }),
{
    let count = form.fields().len() as int;
    crate::seqs::lemma_wrap(form.selected, count);
    if form.selected > 0 {
        assert((form.selected + count - 1) % count == form.selected - 1) by (nonlinear_arith)
            requires
                0 < form.selected < count,
        ;
    } else {
        assert((form.selected + count - 1) % count == count - 1);
    }
    if form.selected + 1 < count {
        assert((form.selected + 1) % count == form.selected + 1);
    }
}

/// What Right and Left choose: the availability goes round from busy by free and tentative to
/// unavailable, an interval grows and shrinks by one and stays at least one, and all day is turned
/// on and off.
pub proof fn law_choices(
    form: EventFormView,
    calendars: Seq<CalendarInfo>,
    today: Date,
)
    ensures
        form.current() == FormField::Availability ==> {
            let on = form.adjusted(1, calendars, today);
            let back = form.adjusted(-1, calendars, today);
            &&& form.availability == Availability::Busy ==> on.availability == Availability::Free
                && back.availability == Availability::Unavailable
            &&& form.availability == Availability::Free ==> on.availability
                == Availability::Tentative && back.availability == Availability::Busy
            &&& form.availability == Availability::Tentative ==> on.availability
                == Availability::Unavailable && back.availability == Availability::Free
            &&& form.availability == Availability::Unavailable ==> on.availability
                == Availability::Busy && back.availability == Availability::Tentative
        },
        form.current() == FormField::RecurrenceInterval ==> (form.recurrence
            matches RecurrenceEditorView::Structured(data) ==> {
            &&& form.adjusted(1, calendars, today).recurrence
                matches RecurrenceEditorView::Structured(on) && (data.rule.interval < u32::MAX
                ==> on.rule.interval == data.rule.interval + 1) && on.rule.frequency
                == data.rule.frequency && on.rule.days_of_week == data.rule.days_of_week
            &&& form.adjusted(-1, calendars, today).recurrence
                matches RecurrenceEditorView::Structured(back) && (data.rule.interval > 1
                ==> back.rule.interval == data.rule.interval - 1) && (data.rule.interval <= 1
                ==> back.rule.interval == 1)
        }),
        form.current() == FormField::AllDay ==> form.adjusted(1, calendars, today).all_day
            == !form.all_day && form.adjusted(-1, calendars, today).all_day == !form.all_day,
        form.current() == FormField::Title ==> form.adjusted(1, calendars, today) == form,
{
}

/// A new event that is made to last all day shows the dates of its times.
pub proof fn law_all_day_shows_dates(form: EventFormView, first: WallTime, last: WallTime)
    requires
        form.editor_mode is Create,
        !form.all_day,
        iso_date(trimmed(form.start)) is None,
        iso_date(trimmed(form.end)) is None,
        wall_time(trimmed(form.start)) == Some(first),
        wall_time(trimmed(form.end)) == Some(last),
    ensures
        form.all_day_toggled().start == iso_text(first.date),
        form.all_day_toggled().end == iso_text(last.date),
        form.all_day_toggled().title == form.title,
{
}

/// A form that is saved becomes one command: an update of its event where it has one, else a new
/// event. While it is under way nothing more is saved.
pub proof fn law_saving(app: App, form: EventForm, post: App, r: Option<WorkerCommand>)
    requires
        app.after_save(post, r),
        app.form == Some(form),
        app.mutation_state != MutationState::Saving,
    ensures
        r is None ==> post == (App { status: post.status, ..app }),
        r is Some ==> post == (App { mutation_state: MutationState::Saving, ..app }) && exists|
            drafted: Result<(EventDraftView, EventSpan, Option<Seq<Alarm>>), Seq<char>>,
        | #[trigger]
            form.may_draft(app.snapshot.calendars@, drafted) && (drafted matches Ok(made) && (
            made.0.id is None ==> command_view(r) == Some(WorkerCommandView::Create(made.0))) && (
            made.0.id is Some ==> (command_view(r) matches Some(
                WorkerCommandView::Update(draft, span, scope, alarms, _),
            ) && draft == made.0 && span == made.1 && alarms == made.2))),
{
    let drafted = choose|
        drafted: Result<(EventDraftView, EventSpan, Option<Seq<Alarm>>), Seq<char>>,
    | #[trigger]
        form.may_draft(app.snapshot.calendars@, drafted) && app.form_saved(form, drafted, post, r);
    assert(form.may_draft(app.snapshot.calendars@, drafted));
}

/// Which lines the form has: those on how an event repeats only where it does, the weekdays only
/// where it does so by weeks, and of its end only the line for the kind of end that is chosen.
pub proof fn law_shown_lines(form: EventFormView, field: FormField)
    ensures
        form.fields().contains(field) ==> form.shows(field),
        field != FormField::Scope && form.shows(field) ==> form.fields().contains(field),
        field == FormField::Title || field == FormField::Calendar || field == FormField::Start
            || field == FormField::End || field == FormField::AllDay || field
            == FormField::Location || field == FormField::Notes || field == FormField::Url || field
            == FormField::Alarms || field == FormField::Recurrence || field == FormField::TimeZone
            || field == FormField::Availability ==> form.fields().contains(field),
        field == FormField::RecurrenceInterval || field == FormField::RecurrenceEnds ==> (
        form.fields().contains(field) <==> form.recurrence is Structured),
        field == FormField::Weekdays ==> (form.fields().contains(field) <==> (
        form.recurrence matches RecurrenceEditorView::Structured(data) && data.rule.frequency
            == RecurrenceFrequency::Weekly)),
        field == FormField::RecurrenceEndDate ==> (form.fields().contains(field) <==> (
        form.recurrence matches RecurrenceEditorView::Structured(data) && data.end_mode
            == RecurrenceEndMode::OnDate)),
        field == FormField::RecurrenceOccurrences ==> (form.fields().contains(field) <==> (
        form.recurrence matches RecurrenceEditorView::Structured(data) && data.end_mode
            == RecurrenceEndMode::AfterOccurrences)),
{
    broadcast use vstd::seq_lib::group_filter_ensures;

    reveal(EventFormView::fields);
    let p = lines_of(form);
    let all = all_fields();
    let kept = all.filter(p);
    if kept.contains(field) {
        let i = choose|i: int| 0 <= i < kept.len() && kept[i] == field;
        assert(p(kept[i]));
    }
    if form.shows(field) && field != FormField::Scope {
        let i = field_place(field);
        assert(all[i] == field);
        assert(p(all[i]));
        assert(kept.contains(all[i]));
    }
}

/// Where a line stands in a form that shows all.
pub open spec fn field_place(field: FormField) -> int {
    match field {
        FormField::Title => 0,
        FormField::Calendar => 1,
        FormField::Start => 2,
        FormField::End => 3,
        FormField::AllDay => 4,
        FormField::Location => 5,
        FormField::Notes => 6,
        FormField::Url => 7,
        FormField::Alarms => 8,
        FormField::Recurrence => 9,
        FormField::RecurrenceInterval => 10,
        FormField::Weekdays => 11,
        FormField::RecurrenceEnds => 12,
        FormField::RecurrenceEndDate => 13,
        FormField::RecurrenceOccurrences => 14,
        FormField::TimeZone => 15,
        FormField::Availability => 16,
        FormField::Scope => 17,
    }
}

/// A copy of an all-day event is saved with its own dates; an all-day event that is changed is
/// saved with the midnights of the dates it had, and the new dates go with the change.
pub proof fn law_drafted_dates(
    form: EventFormView,
    calendars: Seq<CalendarInfo>,
    start: Option<Timestamp>,
    end: Option<Timestamp>,
    start_date: Date,
)
    requires
        form.drafted(calendars, start, end, start_date) is Ok,
        form.all_day,
    ensures
        ({
            let draft = form.drafted(calendars, start, end, start_date)->Ok_0.0;
            &&& form.editor_mode is Duplicate ==> (form.all_day_editor matches Some(state)
                && draft.time == (EventTimeInput::AllDay {
                start_date: state.original_start,
                end_date_exclusive: state.original_end_exclusive,
            }))
            &&& form.editor_mode is Edit ==> (form.all_day_editor matches Some(state) ==> draft.time
                == (EventTimeInput::LegacyAllDayUnknown {
                start: state.original_start.midnight(),
                end: state.original_end_exclusive.midnight(),
            }))
        }),
{
}

/// What is typed as the end of a repetition is added to its line and read at once: a date that is
/// not before the event, a number that is not zero.
pub proof fn law_typed_ends(
    form: EventFormView,
    data: RecurrenceEditorDataView,
    c: char,
    key: KeyEvent,
    calendars: Seq<CalendarInfo>,
    today: Date,
    event_start: Date,
)
    requires
        !key.modifiers.control,
        key.code == KeyCode::Char(c),
        c != ' ',
        form.recurrence == RecurrenceEditorView::Structured(data),
    ensures
        ({
            let after = form.after_key(key, calendars, today, event_start).0;
            &&& form.current() == FormField::RecurrenceEndDate ==> (
            after.recurrence matches RecurrenceEditorView::Structured(new) && new.end_date_buffer
                == data.end_date_buffer.push(c) && new.rule == data.rule && (
            new.validated_end_date matches Some(date) ==> event_start.day <= date.day && iso_date(
                trimmed(new.end_date_buffer),
            ) == Some(date)) && (data.end_mode == RecurrenceEndMode::OnDate && (iso_date(
                trimmed(new.end_date_buffer),
            ) matches Some(date) && event_start.day <= date.day) ==> new.validated_end_date
                is Some))
            &&& form.current() == FormField::RecurrenceOccurrences ==> (
            after.recurrence matches RecurrenceEditorView::Structured(new)
                && new.occurrence_count_buffer == data.occurrence_count_buffer.push(c) && new.rule
                == data.rule && (new.validated_occurrence_count matches Some(count) ==> count > 0
                && parsed_unsigned(trimmed(new.occurrence_count_buffer), u32::MAX as int) == Some(
                count as int,
            )))
        }),
{
}

/// The calendar of a form goes on to the next one with Right and back to the one before with Left,
/// where that one can be written to.
pub proof fn law_calendar_choice(form: EventFormView, calendars: Seq<CalendarInfo>, today: Date)
    requires
        form.current() == FormField::Calendar,
        0 <= form.calendar_index < calendars.len(),
    ensures
        form.calendar_index + 1 < calendars.len() && calendars[form.calendar_index
            + 1].is_writable ==> form.adjusted(1, calendars, today).calendar_index
            == form.calendar_index + 1,
        form.calendar_index > 0 && calendars[form.calendar_index - 1].is_writable ==> form.adjusted(
            -1,
            calendars,
            today,
        ).calendar_index == form.calendar_index - 1,
        form.calendar_index == calendars.len() - 1 && calendars[0].is_writable ==> form.adjusted(
            1,
            calendars,
            today,
        ).calendar_index == 0,
        form.calendar_index == 0 && calendars.last().is_writable ==> form.adjusted(
            -1,
            calendars,
            today,
        ).calendar_index == calendars.len() - 1,
        form.adjusted(1, calendars, today).title == form.title,
{
    let n = calendars.len() as int;
    let i = form.calendar_index;
    if i + 1 < n {
        vstd::arithmetic::div_mod::lemma_small_mod((i + 1) as nat, n as nat);
    } else {
        vstd::arithmetic::div_mod::lemma_mod_self_0(n);
    }
    if i > 0 {
        vstd::arithmetic::div_mod::lemma_mod_add_multiples_vanish(i - 1, n);
        vstd::arithmetic::div_mod::lemma_small_mod((i - 1) as nat, n as nat);
    } else {
        vstd::arithmetic::div_mod::lemma_small_mod((n - 1) as nat, n as nat);
    }
}

} // verus!
