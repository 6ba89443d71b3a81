//! All-day events are dates.

use tui_calendar::app::{App, UserAction, View, WorkerCommand};
use tui_calendar::backend::MockBackend;
use tui_calendar::config::Config;
use tui_calendar::input::{KeyCode, KeyEvent, KeyModifiers};
use tui_calendar::model::{
    AuthorizationStatus, Availability, Event, EventTimeMutation, InvitationStatus, Snapshot,
    TimeZoneProvenance,
};
use tui_calendar::time::{Date, Timestamp, parse_instant, parse_iso_date};

fn date(year: i32, month: u32, day: u32) -> Date {
    parse_iso_date(&format!("{year:04}-{month:02}-{day:02}")).unwrap()
}

fn at(text: &str) -> Timestamp {
    parse_instant(text).unwrap()
}

/// An all-day event that takes a day by its dates, and the day before by its instants.
fn all_day_event(id: &str, title: &str) -> Event {
    Event {
        id: id.into(),
        provider_id: None,
        series_id: None,
        calendar_id: "personal".into(),
        title: title.into(),
        start: at("2026-09-09T00:00:00Z"),
        end: at("2026-09-10T00:00:00Z"),
        all_day: true,
        all_day_start_date: Some(date(2026, 9, 10)),
        all_day_end_date_exclusive: Some(date(2026, 9, 11)),
        location: String::new(),
        notes: String::new(),
        url: String::new(),
        time_zone: String::new(),
        time_zone_provenance: TimeZoneProvenance::Unknown,
        availability: Availability::Busy,
        organizer: None,
        attendees: vec![],
        alarms: vec![],
        recurrence: vec![],
        has_recurrence: false,
        is_detached: false,
        invitation_status: InvitationStatus::Unknown,
    }
}

#[test]
fn visible_day_uses_trusted_all_day_dates_when_compatibility_instants_miss() {
    let backend = MockBackend::seeded();
    let snapshot = Snapshot {
        calendars: backend.calendars(),
        events: backend
            .events(
                at("2026-09-10T00:00:00Z"),
                at("2026-09-11T00:00:00Z"),
                &vec![],
            ),
        authorization: AuthorizationStatus::FullAccess,
        updated_at: None,
    };
    let mut app = App::new(Config::default(), snapshot);
    app.view = View::Day;
    app.active_date = date(2026, 9, 10);
    assert!(
        app.visible_events()
            .iter()
            .any(|event| event.id == "mock-all-day-shifted")
    );
}

#[test]
fn trusted_all_day_search_and_defaults_never_use_compatibility_start() {
    let backend = MockBackend::seeded();
    let calendars = backend.calendars();
    let event = all_day_event("trusted-search-event", "Timezone-safe holiday");
    let mut app = App::new(
        Config::default(),
        Snapshot {
            calendars,
            events: vec![event],
            ..Snapshot::default()
        },
    );
    app.search_query = "holiday".into();
    app.handle_search(KeyEvent::new(KeyCode::Enter, KeyModifiers::none()));
    assert_eq!(
        app.active_date,
        date(2026, 9, 10),
        "search navigation must use the trusted floating start date"
    );
    assert_eq!(
        app.selected_event_ref().map(|event| event.id.as_str()),
        Some("trusted-search-event")
    );
    let _ = app.execute_action(UserAction::ChangeView(View::Month));
    assert_eq!(
        app.selected_event_ref().map(|event| event.id.as_str()),
        Some("trusted-search-event"),
        "search activation must retain the same occurrence across a view switch"
    );

    app.view = View::Day;
    app.active_date = date(2026, 9, 10);
    assert_eq!(app.suggested_start_minute(), 9 * 60);
}

#[test]
fn trusted_all_day_move_uses_floating_date_identity() {
    let backend = MockBackend::seeded();
    let calendars = backend.calendars();
    let event = all_day_event("trusted-reschedule-event", "Holiday");
    let mut app = App::new(
        Config::default(),
        Snapshot {
            calendars,
            events: vec![event],
            ..Snapshot::default()
        },
    );
    app.view = View::Day;
    app.active_date = date(2026, 9, 10);
    let Some(WorkerCommand::Update(
        _,
        _,
        _,
        _,
        EventTimeMutation::ReplaceAllDay {
            start_date,
            end_date_exclusive,
        },
    )) = app.move_selected_event(1, 0)
    else {
        panic!("trusted all-day movement must generate an update request");
    };
    assert_eq!(start_date, date(2026, 9, 11));
    assert_eq!(
        end_date_exclusive,
        date(2026, 9, 12)
    );
}
