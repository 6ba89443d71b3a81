//! The timeline that positions itself.

use tui_calendar::app::{App, TimelineViewportOwner, View, WorkerUpdate};
use tui_calendar::backend::MockBackend;
use tui_calendar::config::Config;
use tui_calendar::model::{AuthorizationStatus, Event, Snapshot};
use tui_calendar::time::{Date, Timestamp, WallTime, local_midnight, now, parse_iso_date};

fn date(year: i32, month: u32, day: u32) -> Date {
    parse_iso_date(&format!("{year:04}-{month:02}-{day:02}")).unwrap()
}

/// A span of time, in nanoseconds.
#[derive(Clone, Copy)]
struct Span(i128);

impl Span {
    fn minutes(n: i64) -> Span {
        Span(i128::from(n) * 60_000_000_000)
    }
    fn hours(n: i64) -> Span {
        Span::minutes(n * 60)
    }
    fn days(n: i64) -> Span {
        Span::hours(n * 24)
    }
}

impl std::ops::Add<Span> for Timestamp {
    type Output = Timestamp;
    fn add(self, span: Span) -> Timestamp {
        self.plus_nanos(span.0)
    }
}

impl std::ops::Sub<Span> for Timestamp {
    type Output = Timestamp;
    fn sub(self, span: Span) -> Timestamp {
        self.plus_nanos(-span.0)
    }
}

impl std::ops::Add<Span> for Date {
    type Output = Date;
    fn add(self, span: Span) -> Date {
        self.saturating_plus((span.0 / 86_400_000_000_000) as i32)
    }
}

impl std::ops::Sub<Span> for Date {
    type Output = Date;
    fn sub(self, span: Span) -> Date {
        self.saturating_plus(-((span.0 / 86_400_000_000_000) as i32))
    }
}

fn app_with_mock_events() -> (App, MockBackend) {
    let backend = MockBackend::seeded();
    let snapshot = Snapshot {
        calendars: backend.calendars(),
        events: backend
            .events(
                now() - Span::days(7),
                now() + Span::days(7),
                &vec![],
            ),
        authorization: AuthorizationStatus::FullAccess,
        updated_at: Some(now()),
    };
    (App::new(Config::default(), snapshot), backend)
}

fn timeline_event(
    template: &Event,
    day: Date,
    start: u16,
    end: u16,
    title: &str,
) -> Event {
    let mut event = template.clone();
    event.id = format!("viewport-{title}-{start}");
    event.title = title.into();
    event.all_day = false;
    event.all_day_start_date = None;
    event.all_day_end_date_exclusive = None;
    event.start = local_midnight(day).unwrap() + Span::minutes(i64::from(start));
    event.end = local_midnight(day).unwrap() + Span::minutes(i64::from(end));
    event
}

#[test]
fn smart_timeline_focus_ignores_long_background_events() {
    let (mut app, _) = app_with_mock_events();
    let day = date(2026, 8, 27);
    let template = app.snapshot.events[0].clone();
    app.snapshot.events = vec![
        timeline_event(&template, day, 0, 24 * 60, "background"),
        timeline_event(&template, day, 8 * 60, 17 * 60, "workday"),
        timeline_event(&template, day, 9 * 60, 9 * 60 + 30, "QNAP"),
        timeline_event(&template, day, 9 * 60 + 45, 10 * 60, "Stand-up"),
        timeline_event(&template, day, 12 * 60 + 30, 13 * 60 + 30, "Music"),
        timeline_event(&template, day, 15 * 60 + 45, 16 * 60, "Review"),
    ];
    app.active_date = day;
    app.view = View::Day;
    let now = WallTime { date: date(2026, 8, 1), second: 12 * 3_600 };

    let start = app.smart_timeline_start_minute_at(16, now);
    assert!((7 * 60..=9 * 60).contains(&start), "start={start}");
}

#[test]
fn smart_timeline_focus_keeps_legitimate_early_appointments() {
    let (mut app, _) = app_with_mock_events();
    let day = date(2026, 8, 28);
    let template = app.snapshot.events[0].clone();
    app.snapshot.events = vec![
        timeline_event(&template, day, 30, 60, "Early one"),
        timeline_event(&template, day, 90, 120, "Early two"),
        timeline_event(&template, day, 180, 210, "Early three"),
    ];
    app.active_date = day;
    app.view = View::Day;
    let now = WallTime { date: date(2026, 8, 1), second: 12 * 3_600 };
    assert!(app.smart_timeline_start_minute_at(8, now) <= 30);
}

#[test]
fn smart_timeline_today_can_bias_toward_an_imminent_appointment() {
    let (mut app, _) = app_with_mock_events();
    let day = date(2026, 8, 27);
    let template = app.snapshot.events[0].clone();
    app.snapshot.events = vec![timeline_event(
        &template,
        day,
        12 * 60 + 30,
        13 * 60,
        "Next",
    )];
    app.active_date = day;
    app.view = View::Day;
    let now = WallTime { date: date(2026, 8, 27), second: 12 * 3_600 };
    let start = app.smart_timeline_start_minute_at(8, now);
    assert!((10 * 60..=12 * 60).contains(&start), "start={start}");
}

#[test]
fn manual_timeline_scroll_survives_refresh_but_date_navigation_reenables_auto() {
    let (mut app, _) = app_with_mock_events();
    app.view = View::Day;
    app.refresh_auto_timeline_viewport(12);
    app.scroll_timeline(8 * 60);
    let manual = app.timeline_start_minute;
    assert_eq!(app.timeline_viewport_owner, TimelineViewportOwner::Manual);
    app.apply_update(WorkerUpdate::Snapshot(app.snapshot.clone()));
    app.refresh_auto_timeline_viewport(12);
    assert_eq!(app.timeline_start_minute, manual);

    app.navigate_date(1);
    assert_eq!(app.timeline_viewport_owner, TimelineViewportOwner::Auto);
}

#[test]
fn week_uses_the_same_smart_timeline_focus_policy() {
    let (mut app, _) = app_with_mock_events();
    let day = date(2026, 8, 27);
    let template = app.snapshot.events[0].clone();
    app.snapshot.events = vec![
        timeline_event(&template, day + Span::days(2), 0, 24 * 60, "background"),
        timeline_event(
            &template,
            day + Span::days(2),
            9 * 60,
            9 * 60 + 30,
            "Planning",
        ),
        timeline_event(
            &template,
            day + Span::days(4),
            15 * 60,
            16 * 60,
            "Review",
        ),
    ];
    app.active_date = day;
    app.view = View::Week;
    let now = WallTime { date: date(2026, 8, 1), second: 12 * 3_600 };
    assert_ne!(app.smart_timeline_start_minute_at(12, now), 0);
}

#[test]
fn neither_background_nor_a_far_clock_moves_the_timeline() {
    let (mut app, _) = app_with_mock_events();
    let day = date(2026, 8, 27);
    let template = app.snapshot.events[0].clone();
    app.snapshot.events = vec![
        timeline_event(&template, day, 11 * 60, 12 * 60, "Lunch"),
        timeline_event(&template, day, 18 * 60, 19 * 60, "Run"),
    ];
    app.active_date = day;
    let far = WallTime { date: date(2026, 8, 1), second: 12 * 3_600 };
    let other = WallTime { date: date(2026, 9, 30), second: 3_600 };
    let sizes = [1, 6, 16, 48, 60];
    for view in [View::Day, View::Week] {
        app.view = view;
        app.snapshot.events.truncate(2);
        let starts = sizes.map(|rows| app.smart_timeline_start_minute_at(rows, far));
        assert_eq!(starts[1], 600);
        assert_eq!(sizes.map(|rows| app.smart_timeline_start_minute_at(rows, other)), starts);

        app.snapshot.events.push(timeline_event(&template, day, 60, 7 * 60, "background"));
        let mut whole = timeline_event(&template, day, 0, 24 * 60, "whole");
        whole.all_day = true;
        whole.all_day_start_date = Some(day);
        whole.all_day_end_date_exclusive = Some(day + Span::days(1));
        app.snapshot.events.push(whole);
        assert_eq!(sizes.map(|rows| app.smart_timeline_start_minute_at(rows, far)), starts);
        assert_eq!(sizes.map(|rows| app.smart_timeline_start_minute_at(rows, other)), starts);
        for (rows, start) in sizes.into_iter().zip(starts) {
            assert!(start <= 1_440 - 30 * rows.min(48));
        }
    }
}
