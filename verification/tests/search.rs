//! Search.

use tui_calendar::app::App;
use tui_calendar::backend::MockBackend;
use tui_calendar::config::Config;
use tui_calendar::model::{
    Attendee, Availability, Event, InvitationStatus, RecurrenceFrequency, RecurrenceRule, Snapshot,
    TimeZoneProvenance,
};
use tui_calendar::search::{SearchQuery, event_matches_search_dates};
use tui_calendar::time::{Date, Timestamp, iso_date_text, parse_instant, parse_iso_date};

fn date(year: i32, month: u32, day: u32) -> Date {
    parse_iso_date(&format!("{year:04}-{month:02}-{day:02}")).unwrap()
}

fn at(text: &str) -> Timestamp {
    parse_instant(text).unwrap()
}

/// An all-day event that takes a day by its dates, and the day before by its instants.
fn all_day_event(id: &str, title: &str) -> Event {
    Event {
        id: id.into(),
        provider_id: None,
        series_id: None,
        calendar_id: "personal".into(),
        title: title.into(),
        start: at("2026-09-09T00:00:00Z"),
        end: at("2026-09-10T00:00:00Z"),
        all_day: true,
        all_day_start_date: Some(date(2026, 9, 10)),
        all_day_end_date_exclusive: Some(date(2026, 9, 11)),
        location: String::new(),
        notes: String::new(),
        url: String::new(),
        time_zone: String::new(),
        time_zone_provenance: TimeZoneProvenance::Unknown,
        availability: Availability::Busy,
        organizer: None,
        attendees: vec![],
        alarms: vec![],
        recurrence: vec![],
        has_recurrence: false,
        is_detached: false,
        invitation_status: InvitationStatus::Unknown,
    }
}

#[test]
fn parses_deterministic_search_filters_with_quotes() {
    let query = SearchQuery::parse(
        "/calendar:calendar-work /attendee:\"Ada Lovelace\" /recurring:true /all-day:false /from:2026-09-01 /to:2026-09-30 /location:Munich migration",
    );
    assert_eq!(query.calendar.as_deref(), Some("calendar-work"));
    assert_eq!(query.location.as_deref(), Some("munich"));
    assert_eq!(query.attendee.as_deref(), Some("ada lovelace"));
    assert_eq!(query.recurring, Some(true));
    assert_eq!(query.all_day, Some(false));
    assert_eq!(iso_date_text(query.from.unwrap()), "2026-09-01");
    assert_eq!(iso_date_text(query.to.unwrap()), "2026-09-30");
    assert_eq!(query.terms, ["migration"]);
}

#[test]
fn offline_search_filters_and_ranks_cached_events_deterministically() {
    let backend = MockBackend::seeded();
    let calendars = backend.calendars();
    let event = |id: &str,
                 calendar_id: &str,
                 title: &str,
                 start: &str,
                 notes: &str,
                 location: &str,
                 all_day: bool,
                 recurring: bool| {
        let mut value = all_day_event(id, title);
        value.calendar_id = calendar_id.into();
        value.start = at(start);
        value.end = at("2026-09-10T11:00:00Z");
        value.all_day = all_day;
        value.notes = notes.into();
        value.location = location.into();
        value.has_recurrence = recurring;
        value.attendees = vec![Attendee {
            name: "Ada Lovelace".into(),
            email: "ada@example.test".into(),
            status: InvitationStatus::Unknown,
            is_current_user: false,
            role: String::new(),
            participant_type: String::new(),
            schedule_status: String::new(),
        }];
        value.all_day_start_date = all_day.then_some(date(2026, 9, 10));
        value.all_day_end_date_exclusive = all_day.then_some(date(2026, 9, 13));
        value
    };
    let mut app = App::new(
        Config::default(),
        Snapshot {
            calendars,
            events: vec![
                event(
                    "contains",
                    "work",
                    "Planning notes",
                    "2026-09-10T12:00:00Z",
                    "Unicode CAFÉ",
                    "München",
                    false,
                    false,
                ),
                event(
                    "exact",
                    "work",
                    "Planning",
                    "2026-09-10T09:00:00Z",
                    "",
                    "Berlin",
                    false,
                    true,
                ),
                event(
                    "all-day",
                    "personal",
                    "Holiday",
                    "2026-09-09T00:00:00Z",
                    "",
                    "",
                    true,
                    true,
                ),
            ],
            ..Snapshot::default()
        },
    );
    app.active_date = date(2026, 9, 10);

    app.search_query = "planning".into();
    assert_eq!(
        app.search_results()
            .iter()
            .map(|event| event.id.as_str())
            .collect::<Vec<_>>(),
        ["exact", "contains"]
    );
    app.search_query = "café".into();
    assert_eq!(app.search_results()[0].id, "contains");
    app.search_query = "münchen".into();
    assert_eq!(app.search_results()[0].id, "contains");
    app.search_query = "/attendee:ada".into();
    assert_eq!(app.search_results().len(), 3);
    app.search_query = "/calendar:work /recurring:true".into();
    assert_eq!(app.search_results()[0].id, "exact");
    app.search_query = "/all-day:true /from:2026-09-12 /to:2026-09-12".into();
    assert_eq!(app.search_results()[0].id, "all-day");
    app.search_query = "/all-day:false /from:2026-09-10 /to:2026-09-10".into();
    assert_eq!(app.search_results().len(), 2);
    app.search_query.clear();
    assert!(app.search_results().is_empty());
    app.search_query = "missing".into();
    assert!(app.search_results().is_empty());
}

#[test]
fn trusted_all_day_search_filters_use_date_coverage_not_legacy_start() {
    let mut event = all_day_event("all-day-search", "Trip");
    event.start = at("2026-09-09T22:00:00Z");
    event.end = at("2026-09-12T22:00:00Z");
    event.all_day_end_date_exclusive = Some(date(2026, 9, 13));
    event.has_recurrence = true;
    event.recurrence = vec![RecurrenceRule {
        frequency: RecurrenceFrequency::Weekly,
        interval: 1,
        days_of_week: vec![],
        occurrence_count: None,
        end_date: None,
    }];
    let date = |day| date(2026, 9, day);
    assert!(event_matches_search_dates(
        &event,
        Some(date(10)),
        Some(date(12)),
        event.display_start_date(),
    ));
    assert!(event_matches_search_dates(
        &event,
        Some(date(12)),
        Some(date(12)),
        event.display_start_date(),
    ));
    assert!(!event_matches_search_dates(
        &event,
        Some(date(13)),
        Some(date(13)),
        event.display_start_date(),
    ));
    assert!(event.has_recurrence);
}
