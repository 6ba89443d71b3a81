//! The form of an event.

use tui_calendar::app::{App, WorkerCommand};
use tui_calendar::backend::MockBackend;
use tui_calendar::config::Config;
use tui_calendar::event_form::{EventForm, begin_of, parse_local, start_date_of};
use tui_calendar::input::{KeyCode, KeyEvent, KeyModifiers};
use tui_calendar::model::{Alarm, AlarmMutation, EventTimeInput, Snapshot};
use tui_calendar::quick_add::{QuickAddDraft, QuickAddParseResult, QuickAddStatus};
use tui_calendar::time::{Date, Timestamp, now, parse_instant, parse_iso_date};

fn control() -> KeyModifiers {
    KeyModifiers { control: true, ..KeyModifiers::none() }
}

fn date(year: i32, month: u32, day: u32) -> Date {
    parse_iso_date(&format!("{year:04}-{month:02}-{day:02}")).unwrap()
}

fn at(text: &str) -> Timestamp {
    parse_instant(text).unwrap()
}

/// A span of time, in nanoseconds.
#[derive(Clone, Copy)]
struct Span(i128);

impl Span {
    fn minutes(n: i64) -> Span {
        Span(i128::from(n) * 60_000_000_000)
    }
    fn hours(n: i64) -> Span {
        Span::minutes(n * 60)
    }
    fn days(n: i64) -> Span {
        Span::hours(n * 24)
    }
}

impl std::ops::Add<Span> for Timestamp {
    type Output = Timestamp;
    fn add(self, span: Span) -> Timestamp {
        self.plus_nanos(span.0)
    }
}

impl std::ops::Sub<Span> for Timestamp {
    type Output = Timestamp;
    fn sub(self, span: Span) -> Timestamp {
        self.plus_nanos(-span.0)
    }
}

impl std::ops::Add<Span> for Date {
    type Output = Date;
    fn add(self, span: Span) -> Date {
        self.saturating_plus((span.0 / 86_400_000_000_000) as i32)
    }
}

impl std::ops::Sub<Span> for Date {
    type Output = Date;
    fn sub(self, span: Span) -> Date {
        self.saturating_plus(-((span.0 / 86_400_000_000_000) as i32))
    }
}

#[test]
fn duplicate_copies_lossless_relative_and_absolute_alarms_into_create_payload() {
    let backend = MockBackend::seeded();
    let calendars = backend.calendars();
    let mut event = backend
        .events(
            now() - Span::days(1),
            now() + Span::days(1),
            &vec![],
        )
        .into_iter()
        .find(|event| event.id == "mock-standup")
        .unwrap();
    let instant = at("2026-09-01T12:00:00Z");
    event.alarms.push(Alarm {
        relative_seconds: None,
        absolute_date: Some(instant),
        is_editable: true,
    });
    let form = EventForm::duplicate_from(&event, &calendars);
    let (draft, _, mutation) = form.to_draft(&calendars).unwrap();
    assert!(draft.id.is_none());
    assert_eq!(draft.alarms, event.alarms);
    assert_eq!(mutation, AlarmMutation::Replace(event.alarms));
}

#[test]
fn trusted_all_day_duplicate_uses_the_original_date_range() {
    let mut backend = MockBackend::seeded();
    let calendars = backend.calendars();
    let event = backend
        .events(
            at("2026-09-01T00:00:00Z"),
            at("2026-10-01T00:00:00Z"),
            &vec![],
        )
        .into_iter()
        .find(|event| event.id == "mock-all-day-multi")
        .unwrap();
    let form = EventForm::duplicate_from(&event, &calendars);
    let (draft, _, _) = form.to_draft(&calendars).unwrap();
    assert_eq!(
        draft.time,
        EventTimeInput::AllDay {
            start_date: date(2026, 9, 10),
            end_date_exclusive: date(2026, 9, 13),
        }
    );
    let _created = backend.create_event(draft).unwrap();
    assert_eq!(
        backend.last_created_time(),
        Some(EventTimeInput::AllDay {
            start_date: date(2026, 9, 10),
            end_date_exclusive: date(2026, 9, 13),
        })
    );
}

#[test]
fn legacy_all_day_duplicate_is_rejected_without_a_create_request() {
    let backend = MockBackend::seeded();
    let calendars = backend.calendars();
    let event = backend
        .events(
            at("2026-09-01T00:00:00Z"),
            at("2026-10-01T00:00:00Z"),
            &vec![],
        )
        .into_iter()
        .find(|event| event.id == "mock-all-day-legacy")
        .unwrap();
    let form = EventForm::duplicate_from(&event, &calendars);
    assert!(
        form.to_draft(&calendars)
            .unwrap_err()
            .contains("Cannot safely duplicate legacy all-day")
    );
    assert_eq!(backend.last_created_time(), None);
}

#[test]
fn all_day_duplicate_preserves_dates_across_dst_without_elapsed_time_math() {
    let backend = MockBackend::seeded();
    let calendars = backend.calendars();
    let mut event = backend
        .events(
            at("2026-09-01T00:00:00Z"),
            at("2026-10-01T00:00:00Z"),
            &vec![],
        )
        .into_iter()
        .find(|event| event.id == "mock-all-day-multi")
        .unwrap();
    event.all_day_start_date = Some(date(2026, 3, 28));
    event.all_day_end_date_exclusive = Some(date(2026, 3, 31));
    let form = EventForm::duplicate_from(&event, &calendars);
    let (draft, _, _) = form.to_draft(&calendars).unwrap();
    assert_eq!(
        draft.time.as_all_day_range(),
        Some((
            date(2026, 3, 28),
            date(2026, 3, 31),
        ))
    );
}

#[test]
fn event_form_create_all_day_uses_floating_dates_and_preserves_fields() {
    let mut backend = MockBackend::seeded();
    let calendars = backend.calendars();
    let mut form = EventForm::new(
        0,
        &calendars,
        date(2026, 9, 10),
        9 * 60,
        60,
    );
    form.title = "Conference".into();
    form.location = "Berlin".into();
    form.notes = "Bring badge".into();
    form.all_day = true;
    form.start = "2026-09-10".into();
    form.end = "2026-09-12".into();
    let (draft, _, _) = form.to_draft(&calendars).unwrap();
    assert_eq!(
        draft.time,
        EventTimeInput::AllDay {
            start_date: date(2026, 9, 10),
            end_date_exclusive: date(2026, 9, 13),
        }
    );
    assert_eq!(draft.location, "Berlin");
    assert_eq!(draft.notes, "Bring badge");
    let created = backend.create_event(draft).unwrap();
    assert_eq!(
        created.all_day_date_range(),
        Some((
            date(2026, 9, 10),
            date(2026, 9, 13),
        ))
    );
}

#[test]
fn event_form_create_all_day_keeps_single_day_and_dst_crossing_dates() {
    let backend = MockBackend::seeded();
    let calendars = backend.calendars();
    for (start, end, exclusive) in [
        ("2026-09-10", "2026-09-10", "2026-09-11"),
        ("2026-03-28", "2026-03-30", "2026-03-31"),
    ] {
        let mut form = EventForm::new(
            0,
            &calendars,
            date(2026, 9, 10),
            9 * 60,
            60,
        );
        form.title = "All-day".into();
        form.all_day = true;
        form.start = start.into();
        form.end = end.into();
        let (draft, _, _) = form.to_draft(&calendars).unwrap();
        assert_eq!(
            draft.time.as_all_day_range(),
            Some((
                parse_iso_date(start).unwrap(),
                parse_iso_date(exclusive).unwrap(),
            ))
        );
    }
}

#[test]
fn event_form_create_all_day_rejects_reversed_dates_without_backend_mutation() {
    let backend = MockBackend::seeded();
    let calendars = backend.calendars();
    let mut form = EventForm::new(
        0,
        &calendars,
        date(2026, 9, 10),
        9 * 60,
        60,
    );
    form.title = "Invalid all-day".into();
    form.all_day = true;
    form.start = "2026-09-12".into();
    form.end = "2026-09-10".into();
    assert!(form.to_draft(&calendars).is_err());
    assert_eq!(backend.last_created_time(), None);
}

#[test]
fn event_form_timed_create_retains_instant_input_behavior() {
    let backend = MockBackend::seeded();
    let calendars = backend.calendars();
    let mut form = EventForm::new(
        0,
        &calendars,
        date(2026, 9, 10),
        9 * 60,
        60,
    );
    form.title = "Timed".into();
    form.start = "2026-09-10 09:00".into();
    form.end = "2026-09-10 10:00".into();
    let (draft, _, _) = form.to_draft(&calendars).unwrap();
    assert_eq!(
        draft.time.as_timed_range(),
        Some((
            parse_local("2026-09-10 09:00").unwrap(),
            parse_local("2026-09-10 10:00").unwrap(),
        ))
    );
}

#[test]
fn quick_add_all_day_create_uses_the_typed_date_range() {
    let mut backend = MockBackend::seeded();
    let calendars = backend.calendars();
    let mut app = App::new(
        Config::default(),
        Snapshot {
            calendars,
            ..Snapshot::default()
        },
    );
    app.quick_add_input = "Holiday 2026-09-10 all-day".into();
    let parsed = QuickAddParseResult {
        draft: Some(QuickAddDraft {
            calendar_id: "work".into(),
            title: "Holiday".into(),
            time: EventTimeInput::all_day(date(2026, 9, 10), date(2026, 9, 11)).unwrap(),
            location: String::new(),
            notes: String::new(),
            alarms: vec![],
            recurrence: vec![],
        }),
        warnings: vec![],
        status: QuickAddStatus::Ready,
    };
    let Some(WorkerCommand::Create(draft)) =
        app.handle_quick_add(KeyEvent::new(KeyCode::Char('s'), control()), parsed)
    else {
        panic!("Quick Add must dispatch a create request");
    };
    assert_eq!(
        draft.time,
        EventTimeInput::AllDay {
            start_date: date(2026, 9, 10),
            end_date_exclusive: date(2026, 9, 11),
        }
    );
    let created = backend.create_event(draft).unwrap();
    assert_eq!(
        created.all_day_date_range(),
        Some((
            date(2026, 9, 10),
            date(2026, 9, 11),
        ))
    );
}

#[test]
fn a_form_begins_where_the_clock_says_or_at_the_blank_start() {
    let blank = Timestamp { nanos: 1 };
    let shown = Timestamp { nanos: 2 };
    assert_eq!(begin_of(Some(shown), blank), shown);
    assert_eq!(begin_of(None, blank), blank);
    let (first, today) = (Date { day: 739_869 }, Date { day: 739_900 });
    assert_eq!(start_date_of(Some(first), today), first);
    assert_eq!(start_date_of(None, today), today);
}
