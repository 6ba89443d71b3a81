//! Going from date to date.

use tui_calendar::app::{App, Mode, View, VisibleRangeState, WorkerCommand, WorkerUpdate};
use tui_calendar::backend::MockBackend;
use tui_calendar::config::Config;
use tui_calendar::input::{KeyCode, KeyEvent, KeyModifiers};
use tui_calendar::model::{AuthorizationStatus, CalendarDateRange, Snapshot};
use tui_calendar::time::{Date, Timestamp, local_wall_time, now, parse_iso_date};

fn shift() -> KeyModifiers {
    KeyModifiers { shift: true, ..KeyModifiers::none() }
}

fn date(year: i32, month: u32, day: u32) -> Date {
    parse_iso_date(&format!("{year:04}-{month:02}-{day:02}")).unwrap()
}

/// A span of time, in nanoseconds.
#[derive(Clone, Copy)]
struct Span(i128);

impl Span {
    fn minutes(n: i64) -> Span {
        Span(i128::from(n) * 60_000_000_000)
    }
    fn hours(n: i64) -> Span {
        Span::minutes(n * 60)
    }
    fn days(n: i64) -> Span {
        Span::hours(n * 24)
    }
}

impl std::ops::Add<Span> for Timestamp {
    type Output = Timestamp;
    fn add(self, span: Span) -> Timestamp {
        self.plus_nanos(span.0)
    }
}

impl std::ops::Sub<Span> for Timestamp {
    type Output = Timestamp;
    fn sub(self, span: Span) -> Timestamp {
        self.plus_nanos(-span.0)
    }
}

impl std::ops::Add<Span> for Date {
    type Output = Date;
    fn add(self, span: Span) -> Date {
        self.saturating_plus((span.0 / 86_400_000_000_000) as i32)
    }
}

impl std::ops::Sub<Span> for Date {
    type Output = Date;
    fn sub(self, span: Span) -> Date {
        self.saturating_plus(-((span.0 / 86_400_000_000_000) as i32))
    }
}

fn key(character: char) -> KeyEvent {
    KeyEvent::new(KeyCode::Char(character), KeyModifiers::none())
}

fn app_with_mock_events() -> (App, MockBackend) {
    let backend = MockBackend::seeded();
    let snapshot = Snapshot {
        calendars: backend.calendars(),
        events: backend
            .events(
                now() - Span::days(7),
                now() + Span::days(7),
                &vec![],
            ),
        authorization: AuthorizationStatus::FullAccess,
        updated_at: Some(now()),
    };
    (App::new(Config::default(), snapshot), backend)
}

#[test]
fn daily_navigation_updates_the_week_window_and_snapshot_refresh_keeps_the_date() {
    let mut app = App::new(Config::default(), Snapshot::default());
    let start = date(2026, 9, 10);
    app.view = View::Week;
    app.active_date = start;

    let Some(WorkerCommand::EnsureRange(request)) = app.handle_key(key('l')) else {
        panic!("daily navigation must request the newly visible range");
    };
    assert_eq!(app.active_date, start + Span::days(1));
    assert_eq!(
        request.all_day_range,
        Some(CalendarDateRange {
            start_date: start + Span::days(1),
            end_date_exclusive: start + Span::days(8),
        })
    );

    // Range loading is authoritative for cached data only. It must not
    // restore a date from the pre-navigation snapshot.
    app.apply_update(WorkerUpdate::RangeStarted(request.id));
    app.apply_update(WorkerUpdate::Snapshot(Snapshot::default()));
    app.apply_update(WorkerUpdate::RangeLoaded(request.id));
    assert_eq!(app.active_date, start + Span::days(1));
    assert_eq!(app.visible_range_state, VisibleRangeState::Ready);

    let Some(WorkerCommand::EnsureRange(previous)) = app.handle_key(key('h')) else {
        panic!("reverse daily navigation must request the newly visible range");
    };
    assert_eq!(app.active_date, start);
    assert_eq!(
        previous.all_day_range,
        Some(CalendarDateRange {
            start_date: start,
            end_date_exclusive: start + Span::days(7),
        })
    );

    let Some(WorkerCommand::EnsureRange(next)) =
        app.handle_key(KeyEvent::new(KeyCode::Right, KeyModifiers::none()))
    else {
        panic!("right arrow must use daily navigation");
    };
    assert_eq!(app.active_date, start + Span::days(1));
    assert_eq!(next.all_day_range, request.all_day_range);

    assert!(matches!(
        app.handle_key(KeyEvent::new(KeyCode::Left, KeyModifiers::none())),
        Some(WorkerCommand::EnsureRange(_))
    ));
    assert_eq!(app.active_date, start);

    app.view = View::Month;
    app.active_date = date(2026, 9, 30);
    let september = app.visible_range_request().all_day_range;
    let Some(WorkerCommand::EnsureRange(october)) = app.handle_key(key('l')) else {
        panic!("month-boundary navigation must request the new month window");
    };
    assert_eq!(
        app.active_date,
        date(2026, 10, 1)
    );
    assert_ne!(october.all_day_range, september);
}

#[test]
fn month_navigation_uses_days_horizontally_and_weeks_vertically() {
    let mut app = App::new(Config::default(), Snapshot::default());
    let start = date(2026, 9, 10);
    app.view = View::Month;
    app.active_date = start;
    app.selected_event = 3;

    assert!(matches!(
        app.handle_key(key('h')),
        Some(WorkerCommand::EnsureRange(_))
    ));
    assert_eq!(app.active_date, start - Span::days(1));
    assert!(app.selected_event_ref().is_none());
    assert!(matches!(
        app.handle_key(key('l')),
        Some(WorkerCommand::EnsureRange(_))
    ));
    assert_eq!(app.active_date, start);

    assert!(matches!(
        app.handle_key(key('j')),
        Some(WorkerCommand::EnsureRange(_))
    ));
    assert_eq!(app.active_date, start + Span::days(7));
    assert!(matches!(
        app.handle_key(key('k')),
        Some(WorkerCommand::EnsureRange(_))
    ));
    assert_eq!(app.active_date, start);

    assert!(matches!(
        app.handle_key(KeyEvent::new(KeyCode::Down, KeyModifiers::none())),
        Some(WorkerCommand::EnsureRange(_))
    ));
    assert_eq!(app.active_date, start + Span::days(7));
    assert!(matches!(
        app.handle_key(KeyEvent::new(KeyCode::Up, KeyModifiers::none())),
        Some(WorkerCommand::EnsureRange(_))
    ));
    assert_eq!(app.active_date, start);
}

#[test]
fn day_navigation_keeps_j_and_k_as_event_selection() {
    let (mut app, _) = app_with_mock_events();
    let mut second = app.snapshot.events[0].clone();
    second.id = "day-selection-second".into();
    second.start = second.start + Span::minutes(1);
    second.end = second.end + Span::minutes(1);
    app.active_date = local_wall_time(second.start).date;
    app.view = View::Day;
    app.snapshot.events.push(second);
    app.selected_event = 0;
    let date = app.active_date;

    assert!(app.visible_events().len() >= 2);
    assert!(app.handle_key(key('j')).is_none());
    assert_eq!(app.selected_event, 1);
    assert_eq!(app.active_date, date);
    assert!(app.handle_key(key('k')).is_none());
    assert_eq!(app.selected_event, 0);
    assert_eq!(app.active_date, date);
}

#[test]
fn month_tab_cycles_events_on_the_active_date_for_details_and_actions() {
    let (mut app, _) = app_with_mock_events();
    let mut first = app.snapshot.events[0].clone();
    first.id = "month-event-first".into();
    first.has_recurrence = false;
    first.recurrence.clear();
    let mut second = first.clone();
    second.id = "month-event-second".into();
    second.start = second.start + Span::hours(1);
    second.end = second.end + Span::hours(1);
    app.snapshot.events = vec![first.clone(), second.clone()];
    app.view = View::Month;
    app.active_date = local_wall_time(first.start).date;
    app.selected_event = usize::MAX;

    assert!(
        app.handle_key(KeyEvent::new(KeyCode::Tab, KeyModifiers::none()))
            .is_none()
    );
    assert_eq!(
        app.selected_event_ref().map(|event| event.id.as_str()),
        Some(first.id.as_str())
    );
    assert!(
        app.handle_key(KeyEvent::new(KeyCode::Tab, KeyModifiers::none()))
            .is_none()
    );
    assert_eq!(
        app.selected_event_ref().map(|event| event.id.as_str()),
        Some(second.id.as_str())
    );
    assert!(
        app.handle_key(KeyEvent::new(KeyCode::BackTab, shift()))
            .is_none()
    );
    assert_eq!(
        app.selected_event_ref().map(|event| event.id.as_str()),
        Some(first.id.as_str())
    );

    app.handle_key(KeyEvent::new(KeyCode::Enter, KeyModifiers::none()));
    assert_eq!(app.mode, Mode::Details);
}

#[test]
fn visible_fetch_requests_preserve_calendar_date_intent_for_each_view() {
    let mut app = App::new(Config::default(), Snapshot::default());
    app.active_date = date(2026, 9, 10);

    app.view = View::Day;
    assert_eq!(
        app.visible_range_request().all_day_range,
        Some(CalendarDateRange {
            start_date: date(2026, 9, 10),
            end_date_exclusive: date(2026, 9, 11),
        })
    );

    app.view = View::Week;
    assert_eq!(
        app.visible_range_request().all_day_range,
        Some(CalendarDateRange {
            start_date: date(2026, 9, 10),
            end_date_exclusive: date(2026, 9, 17),
        })
    );

    app.view = View::Month;
    assert_eq!(
        app.visible_range_request().all_day_range,
        Some(CalendarDateRange {
            start_date: date(2026, 8, 31),
            end_date_exclusive: date(2026, 10, 12),
        })
    );
}

#[test]
fn month_visible_range_covers_the_rendered_six_week_grid() {
    let mut app = App::new(Config::default(), Snapshot::default());
    app.view = View::Month;
    app.active_date = date(2026, 9, 15);
    let (start, end) = app.view_range();
    assert_eq!(
        local_wall_time(start).date,
        date(2026, 8, 31)
    );
    assert_eq!(
        local_wall_time(end).date,
        date(2026, 10, 12)
    );
}

#[test]
fn another_view_stays_on_the_day_of_the_selected_event() {
    let (mut app, _) = app_with_mock_events();
    app.view = View::Week;
    app.selected_event = app.visible_events().len() - 1;
    let index = app.selected_event_index().unwrap();
    let first = app.snapshot.events[index].display_start_date();
    let id = app.snapshot.events[index].id.clone();
    app.set_view(View::Day);
    assert_eq!(app.active_date, first);
    let index = app.selected_event_index().unwrap();
    assert_eq!(app.snapshot.events[index].id, id);
}
