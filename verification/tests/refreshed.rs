//! What a new snapshot leaves of the selection.

use tui_calendar::app::{
    App, Mode, MutationEffect, TimelineViewportOwner, UserAction, View, VisibleRangeState,
    WorkerCommand, WorkerUpdate,
};
use tui_calendar::backend::{BackendState, MockBackend};
use tui_calendar::config::Config;
use tui_calendar::hit_test::{
    CalendarDayColumn, CalendarEventRegion, CalendarHitGeometry, ScreenRect, TimelineHitGeometry,
};
use tui_calendar::input::{
    KeyCode, KeyEvent, KeyModifiers, PointerAction, PointerButton, PointerEvent, PointerPosition,
};
use tui_calendar::layout::TimelineViewport;
use tui_calendar::model::{AuthorizationStatus, Event, RecurrenceMutationScope, Snapshot};
use tui_calendar::time::{Date, Timestamp, local_midnight, now, parse_iso_date};

fn date(year: i32, month: u32, day: u32) -> Date {
    parse_iso_date(&format!("{year:04}-{month:02}-{day:02}")).unwrap()
}

/// A span of time, in nanoseconds.
#[derive(Clone, Copy)]
struct Span(i128);

impl Span {
    fn minutes(n: i64) -> Span {
        Span(i128::from(n) * 60_000_000_000)
    }
    fn hours(n: i64) -> Span {
        Span::minutes(n * 60)
    }
    fn days(n: i64) -> Span {
        Span::hours(n * 24)
    }
}

impl std::ops::Add<Span> for Timestamp {
    type Output = Timestamp;
    fn add(self, span: Span) -> Timestamp {
        self.plus_nanos(span.0)
    }
}

impl std::ops::Sub<Span> for Timestamp {
    type Output = Timestamp;
    fn sub(self, span: Span) -> Timestamp {
        self.plus_nanos(-span.0)
    }
}

impl std::ops::Add<Span> for Date {
    type Output = Date;
    fn add(self, span: Span) -> Date {
        self.saturating_plus((span.0 / 86_400_000_000_000) as i32)
    }
}

impl std::ops::Sub<Span> for Date {
    type Output = Date;
    fn sub(self, span: Span) -> Date {
        self.saturating_plus(-((span.0 / 86_400_000_000_000) as i32))
    }
}

fn app_with_mock_events() -> (App, MockBackend) {
    let backend = MockBackend::seeded();
    let snapshot = Snapshot {
        calendars: backend.calendars(),
        events: backend
            .events(
                now() - Span::days(7),
                now() + Span::days(7),
                &vec![],
            ),
        authorization: AuthorizationStatus::FullAccess,
        updated_at: Some(now()),
    };
    (App::new(Config::default(), snapshot), backend)
}

fn recurring_occurrences(source: &Event) -> Vec<Event> {
    (1..=5)
        .map(|index| {
            let mut event = source.clone();
            event.id = format!("A{index}");
            event.start = source.start + Span::days(i64::from(index - 1));
            event.end = event.start + Span::minutes(30);
            event
        })
        .collect()
}

fn timeline_event(
    template: &Event,
    day: Date,
    start: u16,
    end: u16,
    title: &str,
) -> Event {
    let mut event = template.clone();
    event.id = format!("viewport-{title}-{start}");
    event.title = title.into();
    event.all_day = false;
    event.all_day_start_date = None;
    event.all_day_end_date_exclusive = None;
    event.start = local_midnight(day).unwrap() + Span::minutes(i64::from(start));
    event.end = local_midnight(day).unwrap() + Span::minutes(i64::from(end));
    event
}

#[test]
fn mutation_response_identity_is_preferred_after_a_split_snapshot() {
    let (mut app, _) = app_with_mock_events();
    let occurrences = recurring_occurrences(&app.snapshot.events[0]);
    app.snapshot.events = occurrences.clone();
    app.view = View::Agenda;
    app.selected_event = 2;
    let mut replacement = occurrences[2].clone();
    replacement.id = "B3".into();
    let mut refreshed = vec![occurrences[0].clone(), occurrences[1].clone(), replacement];
    for (index, occurrence) in occurrences.iter().enumerate().skip(3) {
        let mut event = occurrence.clone();
        event.id = format!("B{}", index + 1);
        refreshed.push(event);
    }

    app.apply_update(WorkerUpdate::MutationSucceeded(MutationEffect::Updated {
        event_id: "B3".into(),
        before_interval: (occurrences[2].start, occurrences[2].end),
        after_interval: (occurrences[2].start, occurrences[2].end),
        recurrence_scope: Some(RecurrenceMutationScope::FutureEvents),
    }));
    app.apply_update(WorkerUpdate::Snapshot(Snapshot {
        calendars: app.snapshot.calendars.clone(),
        events: refreshed,
        authorization: AuthorizationStatus::FullAccess,
        updated_at: Some(now()),
    }));
    assert_eq!(app.selected_event_ref().unwrap().id, "B3");
}

#[test]
fn removed_recurring_selection_clears_focus_and_closes_details() {
    let (mut app, _) = app_with_mock_events();
    let occurrences = recurring_occurrences(&app.snapshot.events[0]);
    app.snapshot.events = occurrences.clone();
    app.view = View::Agenda;
    app.selected_event = 2;
    app.mode = Mode::Details;
    app.apply_update(WorkerUpdate::Snapshot(Snapshot {
        calendars: app.snapshot.calendars.clone(),
        events: occurrences[..2].to_vec(),
        authorization: AuthorizationStatus::FullAccess,
        updated_at: Some(now()),
    }));
    assert_eq!(app.mode, Mode::Normal);
    assert!(app.selected_event_ref().is_none());
}

#[test]
fn empty_snapshot_clears_a_deleted_recurring_selection_safely() {
    let (mut app, _) = app_with_mock_events();
    app.snapshot.events = recurring_occurrences(&app.snapshot.events[0]);
    app.view = View::Agenda;
    app.selected_event = 2;
    app.apply_update(WorkerUpdate::Snapshot(Snapshot {
        calendars: app.snapshot.calendars.clone(),
        events: vec![],
        authorization: AuthorizationStatus::FullAccess,
        updated_at: Some(now()),
    }));
    assert!(app.selected_event_ref().is_none());
    assert_eq!(app.selected_event, usize::MAX);
}

#[test]
fn ignores_stale_range_completion_state() {
    let mut app = App::new(Config::default(), Snapshot::default());
    let first = app.visible_range_request().id;
    let second = app.visible_range_request().id;
    app.apply_update(WorkerUpdate::RangeLoaded(first));
    assert_eq!(app.visible_range_state, VisibleRangeState::Loading);
    app.apply_update(WorkerUpdate::RangeFailed(second, "failed".into()));
    let VisibleRangeState::Failed(error) = &app.visible_range_state else {
        panic!("expected visible range failure");
    };
    assert_eq!(error.request_id, second);
    assert_eq!(error.error, "failed");
    assert_eq!(error.range.id, second);

    let retry = app.visible_range_request();
    assert!(retry.id > second);
    app.apply_update(WorkerUpdate::RangeLoaded(retry.id));
    assert_eq!(app.visible_range_state, VisibleRangeState::Ready);
}

#[test]
fn backend_updates_do_not_reset_interaction_state() {
    let mut app = App::new(Config::default(), Snapshot::default());
    app.view = View::Month;
    app.active_date = date(2030, 10, 1);
    app.selected_event = 3;
    app.timeline_start_minute = 600;
    app.sidebar_visible = true;
    app.search_query = "planning".into();

    app.apply_update(WorkerUpdate::BackendState(BackendState::Restarting));

    assert_eq!(app.backend_state, BackendState::Restarting);
    assert_eq!(app.view, View::Month);
    assert_eq!(
        app.active_date,
        date(2030, 10, 1)
    );
    assert_eq!(app.selected_event, 3);
    assert_eq!(app.timeline_start_minute, 600);
    assert!(app.sidebar_visible);
    assert_eq!(app.search_query, "planning");
}

#[test]
fn snapshot_refresh_preserves_the_selected_event_id() {
    let backend = MockBackend::seeded();
    let calendars = backend.calendars();
    let events = backend
        .events(
            now() - Span::days(7),
            now() + Span::days(7),
            &vec![],
        );
    let snapshot = Snapshot {
        calendars,
        events: events.clone(),
        authorization: AuthorizationStatus::FullAccess,
        updated_at: Some(now()),
    };
    let mut app = App::new(Config::default(), snapshot);
    app.selected_event = 1;
    let selected_id = app.selected_event_ref().unwrap().id.clone();

    let mut refreshed = events;
    refreshed.reverse();
    app.apply_update(WorkerUpdate::Snapshot(Snapshot {
        calendars: app.snapshot.calendars.clone(),
        events: refreshed,
        authorization: AuthorizationStatus::FullAccess,
        updated_at: Some(now()),
    }));

    assert_eq!(app.selected_event_ref().unwrap().id, selected_id);
}

#[test]
fn cross_view_switches_preserve_the_concrete_occurrence_and_date() {
    let (mut app, _) = app_with_mock_events();
    let day = date(2026, 9, 10);
    let template = app.snapshot.events[0].clone();
    let mut selected = timeline_event(&template, day, 9 * 60, 10 * 60, "selected");
    selected.id = "occurrence-selected".into();
    selected.provider_id = Some("shared-provider-shape".into());
    selected.series_id = Some("shared-series".into());
    let mut other =
        timeline_event(&template, day + Span::days(2), 9 * 60, 10 * 60, "other");
    other.id = "occurrence-other".into();
    other.provider_id = Some("shared-provider-shape".into());
    other.series_id = Some("shared-series".into());
    app.snapshot.events = vec![selected.clone(), other];
    app.active_date = day;
    app.view = View::Day;
    app.selected_event = 0;

    for view in [View::Week, View::Day, View::Agenda, View::Month, View::Day] {
        assert!(matches!(
            app.execute_action(UserAction::ChangeView(view)),
            Some(WorkerCommand::EnsureRange(_))
        ));
        assert_eq!(
            app.active_date, day,
            "{view:?} must retain the occurrence date"
        );
        assert_eq!(
            app.selected_event_ref().map(|event| event.id.as_str()),
            Some("occurrence-selected"),
            "{view:?} must retain the concrete occurrence rather than its provider/series ID"
        );
    }

    app.timeline_start_minute = 11 * 60;
    app.timeline_viewport_owner = TimelineViewportOwner::Manual;
    let _ = app.execute_action(UserAction::ChangeView(View::Agenda));
    let _ = app.execute_action(UserAction::ChangeView(View::Week));
    assert_eq!(app.timeline_start_minute, 11 * 60);
    assert_eq!(app.timeline_viewport_owner, TimelineViewportOwner::Manual);
}

#[test]
fn month_hidden_selection_and_pointer_hit_restore_the_same_event_in_day() {
    let (mut app, _) = app_with_mock_events();
    let day = date(2026, 9, 10);
    let template = app.snapshot.events[0].clone();
    app.snapshot.events = (0..10)
        .map(|index| {
            let mut event = timeline_event(&template, day, 9 * 60, 10 * 60, "dense");
            event.id = format!("month-occurrence-{index}");
            event.title = format!("Dense {index}");
            event
        })
        .collect();
    app.active_date = day;
    app.view = View::Month;
    app.selected_event = 9;
    let hidden_id = app.selected_event_ref().unwrap().id.clone();
        let _ = app.execute_action(UserAction::ChangeView(View::Day));
    assert_eq!(app.active_date, day);
    assert_eq!(
        app.selected_event_ref().map(|event| event.id.as_str()),
        Some(hidden_id.as_str())
    );

    let day_geometry = TimelineHitGeometry {
        day_columns: vec![CalendarDayColumn { date: day, rect: ScreenRect::new(8, 2, 150, 48) }],
        all_day_area: None,
        timed_area: ScreenRect::new(8, 2, 150, 48),
        viewport: TimelineViewport { start_minute: 0, minutes_per_row: 30, rows: 48 },
        event_regions: vec![CalendarEventRegion {
            event_id: "month-occurrence-0".into(),
            rect: ScreenRect::new(8, 20, 15, 2),
        }],
    };
    let hit = day_geometry
        .event_regions
        .iter()
        .find(|region| region.event_id == "month-occurrence-0")
        .unwrap();
    let _ = app.handle_pointer_with_hit_test(
        PointerEvent {
            position: Some(PointerPosition {
                x: hit.rect.x,
                y: hit.rect.y,
            }),
            button: Some(PointerButton::Primary),
            action: PointerAction::Press,
        },
        Some(&CalendarHitGeometry::Day(day_geometry)),
    );
    let _ = app.execute_action(UserAction::ChangeView(View::Week));
    assert_eq!(
        app.selected_event_ref().map(|event| event.id.as_str()),
        Some("month-occurrence-0")
    );
}

#[test]
fn refresh_removal_clears_selection_instead_of_reusing_its_index() {
    let (mut app, _) = app_with_mock_events();
    app.view = View::Day;
    let date = app.snapshot.events[0].display_start_date();
    app.active_date = date;
    let mut selected = app.snapshot.events[0].clone();
    selected.id = "selected-to-remove".into();
    let mut neighbour = selected.clone();
    neighbour.id = "unrelated-neighbour".into();
    neighbour.start = neighbour.start + Span::minutes(15);
    neighbour.end = neighbour.end + Span::minutes(15);
    app.snapshot.events = vec![selected, neighbour.clone()];
    app.selected_event = 0;
    app.apply_update(WorkerUpdate::BackendState(BackendState::Restarting));
    app.apply_update(WorkerUpdate::BackendState(BackendState::Connected));
    app.apply_update(WorkerUpdate::Snapshot(Snapshot {
        calendars: app.snapshot.calendars.clone(),
        events: vec![neighbour],
        authorization: AuthorizationStatus::FullAccess,
        updated_at: Some(now()),
    }));
    assert!(app.selected_event_ref().is_none());
    assert_ne!(app.selected_event, 0);
}

#[test]
fn retry_shortcut_uses_a_new_request_and_clears_the_old_failure() {
    let mut app = App::new(Config::default(), Snapshot::default());
    let failed = app.visible_range_request();
    app.apply_update(WorkerUpdate::RangeFailed(failed.id, "offline".into()));

    let command = app.handle_key(KeyEvent::new(KeyCode::Char('R'), KeyModifiers::none()));
    let Some(WorkerCommand::RefreshRange(retry)) = command else {
        panic!("R should refresh the visible range");
    };
    assert!(retry.id > failed.id);
    assert_eq!(app.visible_range_state, VisibleRangeState::Loading);
    app.apply_update(WorkerUpdate::RangeFailed(failed.id, "stale".into()));
    assert_eq!(app.visible_range_state, VisibleRangeState::Loading);
    app.apply_update(WorkerUpdate::RangeLoaded(retry.id));
    assert_eq!(app.visible_range_state, VisibleRangeState::Ready);
}
