//! Events that are moved.

use tui_calendar::app::{
    App, DragSession, DragState, EventMoveTarget, Mode, UserAction, View, WorkerCommand,
    WorkerUpdate,
};
use tui_calendar::app::pointer::DragPreview;
use tui_calendar::backend::MockBackend;
use tui_calendar::config::Config;
use tui_calendar::hit_test::{
    CalendarDayColumn, CalendarEventRegion, CalendarHitGeometry, CalendarHitTarget, ScreenRect,
    TimelineHitGeometry,
};
use tui_calendar::input::{
    KeyCode, KeyEvent, KeyModifiers, PointerAction, PointerButton, PointerEvent, PointerPosition,
};
use tui_calendar::layout::TimelineViewport;
use tui_calendar::model::{
    AlarmMutation, AuthorizationStatus, Event, EventSpan, EventTimeMutation,
    RecurrenceMutationScope, Snapshot,
};
use tui_calendar::time::{Date, Timestamp, local_today, local_wall_time, now, parse_iso_date};

fn alt() -> KeyModifiers {
    KeyModifiers { alt: true, ..KeyModifiers::none() }
}

fn date(year: i32, month: u32, day: u32) -> Date {
    parse_iso_date(&format!("{year:04}-{month:02}-{day:02}")).unwrap()
}

/// A span of time, in nanoseconds.
#[derive(Clone, Copy)]
struct Span(i128);

impl Span {
    fn minutes(n: i64) -> Span {
        Span(i128::from(n) * 60_000_000_000)
    }
    fn hours(n: i64) -> Span {
        Span::minutes(n * 60)
    }
    fn days(n: i64) -> Span {
        Span::hours(n * 24)
    }
}

impl std::ops::Add<Span> for Timestamp {
    type Output = Timestamp;
    fn add(self, span: Span) -> Timestamp {
        self.plus_nanos(span.0)
    }
}

impl std::ops::Sub<Span> for Timestamp {
    type Output = Timestamp;
    fn sub(self, span: Span) -> Timestamp {
        self.plus_nanos(-span.0)
    }
}

impl std::ops::Add<Span> for Date {
    type Output = Date;
    fn add(self, span: Span) -> Date {
        self.saturating_plus((span.0 / 86_400_000_000_000) as i32)
    }
}

impl std::ops::Sub<Span> for Date {
    type Output = Date;
    fn sub(self, span: Span) -> Date {
        self.saturating_plus(-((span.0 / 86_400_000_000_000) as i32))
    }
}

fn app_with_mock_events() -> (App, MockBackend) {
    let backend = MockBackend::seeded();
    let snapshot = Snapshot {
        calendars: backend.calendars(),
        events: backend
            .events(
                now() - Span::days(7),
                now() + Span::days(7),
                &vec![],
            ),
        authorization: AuthorizationStatus::FullAccess,
        updated_at: Some(now()),
    };
    (App::new(Config::default(), snapshot), backend)
}

fn pointer(
    x: u16,
    y: u16,
    action: PointerAction,
    button: Option<PointerButton>,
) -> PointerEvent {
    PointerEvent {
        position: Some(PointerPosition { x, y }),
        button,
        action,
    }
}

fn timed_drag_geometry(event_id: &str) -> CalendarHitGeometry {
    CalendarHitGeometry::Day(TimelineHitGeometry {
        day_columns: vec![CalendarDayColumn {
            date: local_today(),
            rect: ScreenRect::new(10, 10, 20, 10),
        }],
        all_day_area: None,
        timed_area: ScreenRect::new(10, 10, 20, 10),
        viewport: TimelineViewport {
            start_minute: 8 * 60,
            minutes_per_row: 60,
            rows: 10,
        },
        event_regions: vec![CalendarEventRegion {
            event_id: event_id.into(),
            rect: ScreenRect::new(10, 10, 20, 1),
        }],
    })
}

fn key(character: char) -> KeyEvent {
    KeyEvent::new(KeyCode::Char(character), KeyModifiers::none())
}

#[test]
fn drag_session_previews_and_returns_a_timed_move_action_without_execution() {
    let (mut app, _) = app_with_mock_events();
    let event = app
        .snapshot
        .events
        .iter()
        .find(|event| event.id == "mock-review")
        .unwrap()
        .clone();
    let origin = CalendarHitTarget::ExistingEvent {
        event_id: event.id.clone(),
    };
    assert!(app.start_drag_session(event.id.clone(), origin));
    assert_eq!(app.drag_session.state, DragState::Pressed);

    let target = CalendarHitTarget::TimedSlot {
        date: local_wall_time(event.start).date,
        minute: 15 * 60,
    };
    assert!(app.update_drag_preview(target));
    assert_eq!(app.drag_session.state, DragState::Preview);
    assert!(matches!(
        app.drag_preview(),
        Some(DragPreview::Timed {
            proposed_start,
            proposed_end,
            ..
        }) if local_wall_time(proposed_start).second / 3_600 == 15
            && proposed_start.until(proposed_end) == event.start.until(event.end)
    ));

    let Some(UserAction::MoveEvent { event_id, target }) = app.drop_drag_session() else {
        panic!("a valid preview must produce, but not execute, a move action");
    };
    assert_eq!(event_id, event.id);
    let EventMoveTarget::Timed { start, end } = target else {
        panic!("timed event must keep a timed move target");
    };
    assert_eq!(local_wall_time(start).second / 3_600, 15);
    assert_eq!(start.until(end), event.start.until(event.end));
    assert_eq!(app.drag_session.state, DragState::Dropped);
}

#[test]
fn drag_session_can_cancel_and_rejects_invalid_or_stale_drops() {
    let (mut app, _) = app_with_mock_events();
    let event = app
        .snapshot
        .events
        .iter()
        .find(|event| event.id == "mock-review")
        .unwrap()
        .clone();
    assert!(app.start_drag_session(
        event.id.clone(),
        CalendarHitTarget::ExistingEvent {
            event_id: event.id.clone(),
        },
    ));
    assert!(!app.update_drag_preview(CalendarHitTarget::OutsideCalendar));
    assert_eq!(app.drag_session.state, DragState::Dragging);
    assert!(app.drop_drag_session().is_none());

    app.cancel_drag_session();
    assert_eq!(app.drag_session, DragSession::idle());

    assert!(app.start_drag_session(
        event.id.clone(),
        CalendarHitTarget::ExistingEvent {
            event_id: event.id.clone(),
        },
    ));
    assert!(app.update_drag_preview(CalendarHitTarget::TimedSlot {
        date: local_wall_time(event.start).date,
        minute: 15 * 60,
    }));
    app.snapshot.events.clear();
    assert!(app.drop_drag_session().is_none());
    assert_eq!(
        app.status.as_ref().map(|(message, _, _)| message.as_str()),
        Some("Event no longer exists")
    );
}

#[test]
fn drag_session_all_day_preview_uses_calendar_dates_without_instants() {
    let (mut app, _) = app_with_mock_events();
    let start = local_today();
    let mut event = app.snapshot.events[0].clone();
    event.id = "drag-all-day".into();
    event.calendar_id = "personal".into();
    event.all_day = true;
    event.all_day_start_date = Some(start);
    event.all_day_end_date_exclusive = Some(start + Span::days(3));
    app.snapshot.events = vec![event];
    app.view = View::Day;
    app.active_date = start;
    let event = app.snapshot.events[0].clone();
    assert!(app.start_drag_session(
        event.id.clone(),
        CalendarHitTarget::ExistingEvent {
            event_id: event.id.clone(),
        },
    ));
    assert!(app.update_drag_preview(CalendarHitTarget::AllDayRow {
        date: start + Span::days(5),
    }));
    assert!(matches!(
        app.drag_preview(),
        Some(DragPreview::AllDay {
            proposed_start_date,
            proposed_end_date_exclusive,
            ..
        }) if proposed_start_date == start + Span::days(5)
            && proposed_end_date_exclusive == start + Span::days(8)
    ));

    let Some(UserAction::MoveEvent {
        target:
            EventMoveTarget::AllDay {
                start_date,
                end_date_exclusive,
            },
        ..
    }) = app.drop_drag_session()
    else {
        panic!("trusted all-day preview must produce a calendar-date intent");
    };
    assert_eq!(start_date, start + Span::days(5));
    assert_eq!(end_date_exclusive, start + Span::days(8));
}

#[test]
fn pointer_press_move_release_only_produces_a_move_intent() {
    let (mut app, _) = app_with_mock_events();
    let event = app
        .snapshot
        .events
        .iter()
        .find(|event| event.id == "mock-review")
        .unwrap()
        .clone();
    let snapshot = app.snapshot.events.clone();
    let geometry = timed_drag_geometry(&event.id);

    assert!(
        app.handle_pointer_with_hit_test(
            pointer(
                12,
                10,
                PointerAction::Press,
                Some(PointerButton::Primary),
            ),
            Some(&geometry),
        )
        .is_none()
    );
    assert_eq!(app.drag_session.state, DragState::Pressed);
    assert!(
        app.handle_pointer_with_hit_test(
            pointer(12, 17, PointerAction::Move, None),
            Some(&geometry),
        )
        .is_none()
    );
    assert_eq!(app.drag_session.state, DragState::Preview);

    let Some(UserAction::MoveEvent { event_id, target }) = app.handle_pointer_with_hit_test(
        pointer(
            12,
            17,
            PointerAction::Release,
            Some(PointerButton::Primary),
        ),
        Some(&geometry),
    ) else {
        panic!("pointer release must create, but not dispatch, a move intent");
    };
    assert_eq!(event_id, event.id);
    let EventMoveTarget::Timed { start, end } = target else {
        panic!("timed pointer target must preserve a timed move");
    };
    assert_eq!(local_wall_time(start).second / 3_600, 15);
    assert_eq!(start.until(end), event.start.until(event.end));
    assert_eq!(app.snapshot.events, snapshot);
    assert_eq!(app.drag_session.state, DragState::Dropped);
}

#[test]
fn pointer_drag_ignores_empty_presses_and_cancels_stale_or_all_day_sessions() {
    let (mut app, _) = app_with_mock_events();
    let event = app
        .snapshot
        .events
        .iter()
        .find(|event| event.id == "mock-review")
        .unwrap()
        .clone();
    let geometry = timed_drag_geometry(&event.id);
    assert!(
        app.handle_pointer_with_hit_test(
            pointer(
                1,
                1,
                PointerAction::Press,
                Some(PointerButton::Primary),
            ),
            Some(&geometry),
        )
        .is_none()
    );
    assert_eq!(app.drag_session, DragSession::idle());

    let _ = app.handle_pointer_with_hit_test(
        pointer(
            12,
            10,
            PointerAction::Press,
            Some(PointerButton::Primary),
        ),
        Some(&geometry),
    );
    app.snapshot.events.clear();
    let _ = app.handle_pointer_with_hit_test(
        pointer(12, 17, PointerAction::Move, None),
        Some(&geometry),
    );
    assert_eq!(
        app.status.as_ref().map(|(message, _, _)| message.as_str()),
        Some("Event no longer exists")
    );
    let _ = app.handle_pointer_with_hit_test(PointerEvent::cancel(), Some(&geometry));
    assert_eq!(app.drag_session, DragSession::idle());

    let (mut app, _) = app_with_mock_events();
    let start = local_today();
    let mut all_day = app.snapshot.events[0].clone();
    all_day.id = "pointer-all-day".into();
    all_day.calendar_id = "personal".into();
    all_day.all_day = true;
    all_day.all_day_start_date = Some(start);
    all_day.all_day_end_date_exclusive = Some(start + Span::days(2));
    all_day.recurrence.clear();
    all_day.has_recurrence = false;
    app.snapshot.events = vec![all_day.clone()];
    app.view = View::Day;
    app.active_date = start;
    let geometry = CalendarHitGeometry::Day(TimelineHitGeometry {
        day_columns: vec![CalendarDayColumn {
            date: start,
            rect: ScreenRect::new(10, 2, 20, 10),
        }],
        all_day_area: Some(ScreenRect::new(10, 4, 20, 1)),
        timed_area: ScreenRect::new(10, 5, 20, 7),
        viewport: TimelineViewport {
            start_minute: 8 * 60,
            minutes_per_row: 60,
            rows: 7,
        },
        event_regions: vec![CalendarEventRegion {
            event_id: all_day.id.clone(),
            rect: ScreenRect::new(10, 4, 5, 1),
        }],
    });
    let _ = app.handle_pointer_with_hit_test(
        pointer(
            12,
            4,
            PointerAction::Press,
            Some(PointerButton::Primary),
        ),
        Some(&geometry),
    );
    let Some(UserAction::MoveEvent {
        target:
            EventMoveTarget::AllDay {
                start_date,
                end_date_exclusive,
            },
        ..
    }) = app.handle_pointer_with_hit_test(
        pointer(
            20,
            4,
            PointerAction::Release,
            Some(PointerButton::Primary),
        ),
        Some(&geometry),
    )
    else {
        panic!("all-day pointer release must preserve a calendar-date move intent");
    };
    assert_eq!(start_date, start);
    assert_eq!(end_date_exclusive, start + Span::days(2));
}

#[test]
fn dispatched_pointer_timed_move_reuses_the_existing_update_workflow() {
    let (mut app, _) = app_with_mock_events();
    let event = app
        .snapshot
        .events
        .iter()
        .find(|event| event.id == "mock-review")
        .unwrap()
        .clone();
    let snapshot = app.snapshot.events.clone();
    let geometry = timed_drag_geometry(&event.id);
    let _ = app.handle_pointer_with_hit_test(
        pointer(
            12,
            10,
            PointerAction::Press,
            Some(PointerButton::Primary),
        ),
        Some(&geometry),
    );
    let action = app
        .handle_pointer_with_hit_test(
            pointer(
                12,
                17,
                PointerAction::Release,
                Some(PointerButton::Primary),
            ),
            Some(&geometry),
        )
        .expect("valid pointer release must produce a move action");
    app.cancel_drag_session();
    let Some(WorkerCommand::Update(draft, span, scope, alarms, mutation)) =
        app.execute_action(action)
    else {
        panic!("pointer move must enter the existing update workflow");
    };
    assert_eq!(span, EventSpan::ThisEvent);
    assert_eq!(scope, None);
    assert_eq!(alarms, AlarmMutation::Preserve);
    assert_eq!(mutation, EventTimeMutation::ReplaceLegacy);
    assert_eq!(
        draft
            .time
            .as_timed_range()
            .map(|(start, _)| local_wall_time(start).second / 3_600),
        Some(15)
    );
    assert_eq!(app.drag_session, DragSession::idle());
    assert_eq!(app.snapshot.events, snapshot, "no optimistic pointer move");

    app.apply_update(WorkerUpdate::Error("simulated move failure".into()));
    assert_eq!(app.drag_session, DragSession::idle());
    assert_eq!(app.snapshot.events, snapshot);
}

#[test]
fn keyboard_and_pointer_moves_dispatch_the_same_typed_update() {
    let (mut keyboard, _) = app_with_mock_events();
    keyboard.config.event.move_step_minutes = 60;
    keyboard.selected_event = 1;
    let Some(WorkerCommand::Update(
        keyboard_draft,
        keyboard_span,
        keyboard_scope,
        keyboard_alarms,
        keyboard_time_mutation,
    )) = keyboard.handle_key(KeyEvent::new(KeyCode::Char('j'), alt()))
    else {
        panic!("keyboard move must enter the shared update workflow");
    };

    let (mut pointer_app, _) = app_with_mock_events();
    let event = pointer_app
        .snapshot
        .events
        .iter()
        .find(|event| event.id == "mock-review")
        .unwrap()
        .clone();
    let geometry = timed_drag_geometry(&event.id);
    let _ = pointer_app.handle_pointer_with_hit_test(
        pointer(
            12,
            10,
            PointerAction::Press,
            Some(PointerButton::Primary),
        ),
        Some(&geometry),
    );
    let action = pointer_app
        .handle_pointer_with_hit_test(
            pointer(
                12,
                16,
                PointerAction::Release,
                Some(PointerButton::Primary),
            ),
            Some(&geometry),
        )
        .expect("pointer release must produce the same 60-minute move intent");
    pointer_app.cancel_drag_session();
    let Some(WorkerCommand::Update(
        pointer_draft,
        pointer_span,
        pointer_scope,
        pointer_alarms,
        pointer_time_mutation,
    )) = pointer_app.execute_action(action)
    else {
        panic!("pointer move must enter the shared update workflow");
    };

    assert_eq!(pointer_draft, keyboard_draft);
    assert_eq!(pointer_span, keyboard_span);
    assert_eq!(pointer_scope, keyboard_scope);
    assert_eq!(pointer_alarms, keyboard_alarms);
    assert_eq!(pointer_time_mutation, keyboard_time_mutation);
}

#[test]
fn dispatched_pointer_all_day_and_recurring_moves_preserve_existing_safety() {
    let (mut app, _) = app_with_mock_events();
    let start = local_today();
    let mut all_day = app.snapshot.events[0].clone();
    all_day.id = "dispatch-all-day".into();
    all_day.calendar_id = "personal".into();
    all_day.all_day = true;
    all_day.all_day_start_date = Some(start);
    all_day.all_day_end_date_exclusive = Some(start + Span::days(2));
    all_day.recurrence.clear();
    all_day.has_recurrence = false;
    app.snapshot.events = vec![all_day.clone()];
    app.view = View::Day;
    app.active_date = start;
    let geometry = CalendarHitGeometry::Day(TimelineHitGeometry {
        day_columns: vec![CalendarDayColumn {
            date: start,
            rect: ScreenRect::new(10, 2, 20, 10),
        }],
        all_day_area: Some(ScreenRect::new(10, 4, 20, 1)),
        timed_area: ScreenRect::new(10, 5, 20, 7),
        viewport: TimelineViewport {
            start_minute: 8 * 60,
            minutes_per_row: 60,
            rows: 7,
        },
        event_regions: vec![CalendarEventRegion {
            event_id: all_day.id.clone(),
            rect: ScreenRect::new(10, 4, 5, 1),
        }],
    });
    let _ = app.handle_pointer_with_hit_test(
        pointer(
            12,
            4,
            PointerAction::Press,
            Some(PointerButton::Primary),
        ),
        Some(&geometry),
    );
    let action = app
        .handle_pointer_with_hit_test(
            pointer(
                20,
                4,
                PointerAction::Release,
                Some(PointerButton::Primary),
            ),
            Some(&geometry),
        )
        .unwrap();
    app.cancel_drag_session();
    let Some(WorkerCommand::Update(
        _,
        _,
        _,
        _,
        EventTimeMutation::ReplaceAllDay {
            start_date,
            end_date_exclusive,
        },
    )) = app.execute_action(action)
    else {
        panic!("all-day pointer move must use the existing typed update");
    };
    assert_eq!(start_date, start);
    assert_eq!(end_date_exclusive, start + Span::days(2));

    let (mut app, _) = app_with_mock_events();
    let event = app
        .snapshot
        .events
        .iter()
        .find(|event| event.id == "mock-standup")
        .unwrap()
        .clone();
    let geometry = timed_drag_geometry(&event.id);
    let _ = app.handle_pointer_with_hit_test(
        pointer(
            12,
            10,
            PointerAction::Press,
            Some(PointerButton::Primary),
        ),
        Some(&geometry),
    );
    let action = app
        .handle_pointer_with_hit_test(
            pointer(
                12,
                17,
                PointerAction::Release,
                Some(PointerButton::Primary),
            ),
            Some(&geometry),
        )
        .unwrap();
    app.cancel_drag_session();
    assert!(app.execute_action(action).is_none());
    assert_eq!(app.mode, Mode::RecurringEditScope);
}

#[test]
fn pointer_press_rejects_a_read_only_calendar_without_a_drag_session() {
    let (mut app, _) = app_with_mock_events();
    let event = app
        .snapshot
        .events
        .iter()
        .find(|event| event.id == "mock-review")
        .unwrap()
        .clone();
    app.snapshot
        .calendars
        .iter_mut()
        .find(|calendar| calendar.id == event.calendar_id)
        .unwrap()
        .is_writable = false;
    let geometry = timed_drag_geometry(&event.id);
    assert!(
        app.handle_pointer_with_hit_test(
            pointer(
                12,
                10,
                PointerAction::Press,
                Some(PointerButton::Primary),
            ),
            Some(&geometry),
        )
        .is_none()
    );
    assert_eq!(app.drag_session, DragSession::idle());
    assert_eq!(
        app.status.as_ref().map(|(message, _, _)| message.as_str()),
        Some("This calendar is read-only")
    );
}

#[test]
fn move_action_preserves_timed_duration_and_records_the_typed_update() {
    let (mut app, mut backend) = app_with_mock_events();
    let event = app
        .snapshot
        .events
        .iter()
        .find(|event| event.id == "mock-review")
        .unwrap()
        .clone();
    let target = EventMoveTarget::Timed {
        start: event.start + Span::hours(3),
        end: event.end + Span::hours(3),
    };
    let Some(WorkerCommand::Update(draft, span, scope, alarms, mutation)) =
        app.execute_action(UserAction::MoveEvent {
            event_id: event.id.clone(),
            target,
        })
    else {
        panic!("timed movement must produce an update request");
    };
    assert_eq!(
        draft.time.as_timed_range(),
        Some((
            event.start + Span::hours(3),
            event.end + Span::hours(3)
        ))
    );
    assert_eq!(span, EventSpan::ThisEvent);
    assert_eq!(scope, None);
    assert_eq!(alarms, AlarmMutation::Preserve);
    assert_eq!(mutation, EventTimeMutation::ReplaceLegacy);

    backend
        .update_event(draft, span, alarms, mutation)
        .unwrap();
    assert_eq!(
        backend
            .last_updated_time()
            .and_then(|time| time.as_timed_range()),
        Some((
            event.start + Span::hours(3),
            event.end + Span::hours(3)
        ))
    );
}

#[test]
fn move_action_rejects_legacy_read_only_and_stale_events() {
    let (mut app, _) = app_with_mock_events();
    let legacy = Event {
        all_day: true,
        all_day_start_date: None,
        all_day_end_date_exclusive: None,
        ..app.snapshot.events[1].clone()
    };
    app.snapshot.events = vec![legacy.clone()];
    app.execute_action(UserAction::MoveEvent {
        event_id: legacy.id.clone(),
        target: EventMoveTarget::AllDay {
            start_date: date(2026, 9, 12),
            end_date_exclusive: date(2026, 9, 13),
        },
    });
    assert_eq!(
        app.status.as_ref().map(|(message, _, _)| message.as_str()),
        Some("Legacy all-day events must be refreshed before moving")
    );

    let (mut app, _) = app_with_mock_events();
    app.snapshot
        .calendars
        .iter_mut()
        .find(|calendar| calendar.id == "work")
        .unwrap()
        .is_writable = false;
    let event = app.snapshot.events[1].clone();
    app.execute_action(UserAction::MoveEvent {
        event_id: event.id,
        target: EventMoveTarget::Timed {
            start: event.start + Span::hours(1),
            end: event.end + Span::hours(1),
        },
    });
    assert_eq!(
        app.status.as_ref().map(|(message, _, _)| message.as_str()),
        Some("This calendar is read-only")
    );

    app.execute_action(UserAction::MoveEvent {
        event_id: "removed-event".into(),
        target: EventMoveTarget::Timed {
            start: now(),
            end: now() + Span::hours(1),
        },
    });
    assert_eq!(
        app.status.as_ref().map(|(message, _, _)| message.as_str()),
        Some("Event no longer exists")
    );
}

#[test]
fn recurring_move_requires_and_uses_an_explicit_scope() {
    let (mut app, _) = app_with_mock_events();
    let event = app.snapshot.events[0].clone();
    app.execute_action(UserAction::MoveEvent {
        event_id: event.id.clone(),
        target: EventMoveTarget::Timed {
            start: event.start + Span::hours(2),
            end: event.end + Span::hours(2),
        },
    });
    assert_eq!(app.mode, Mode::RecurringEditScope);
    let Some(WorkerCommand::Update(_, span, scope, _, _)) = app.handle_key(key('2')) else {
        panic!("future recurring move must produce an update request");
    };
    assert_eq!(span, EventSpan::FutureEvents);
    assert_eq!(scope, Some(RecurrenceMutationScope::FutureEvents));
}

#[test]
fn without_a_drawn_calendar_only_the_wheel_does_anything() {
    let (mut app, _) = app_with_mock_events();
    app.view = View::Day;
    let event = app
        .snapshot
        .events
        .iter()
        .find(|event| event.id == "mock-review")
        .unwrap()
        .clone();
    let origin = CalendarHitTarget::ExistingEvent { event_id: event.id.clone() };
    assert!(app.start_drag_session(event.id.clone(), origin));
    let (selected, minute) = (app.selected_event, app.timeline_start_minute);
    for action in [PointerAction::Press, PointerAction::Move, PointerAction::Release] {
        let event = pointer(12, 12, action, Some(PointerButton::Primary));
        assert!(app.handle_pointer(event).is_none());
    }
    assert!(app.handle_pointer(PointerEvent::cancel()).is_none());
    assert_eq!(app.drag_session.state, DragState::Pressed);
    assert_eq!(app.drag_session.event_id.as_deref(), Some("mock-review"));
    assert_eq!((app.selected_event, app.timeline_start_minute), (selected, minute));

    let wheel = pointer(12, 12, PointerAction::Scroll { delta_x: 0, delta_y: 1 }, None);
    assert!(app.handle_pointer(wheel).is_none());
    assert_eq!(app.timeline_start_minute, minute + 60);
}

#[test]
fn a_drop_gives_what_the_preview_showed() {
    let (mut app, _) = app_with_mock_events();
    app.view = View::Day;
    let origin = CalendarHitTarget::ExistingEvent { event_id: "mock-review".into() };
    assert!(app.start_drag_session("mock-review".into(), origin));
    let slot = CalendarHitTarget::TimedSlot { date: local_today(), minute: 16 * 60 };
    assert!(app.update_drag_preview(slot));
    let Some(DragPreview::Timed { event_id, proposed_start, proposed_end, .. }) =
        app.drag_preview()
    else {
        panic!("a valid target has a preview");
    };
    let Some(UserAction::MoveEvent { event_id: moved, target }) = app.drop_drag_session() else {
        panic!("a valid preview can be let go");
    };
    assert_eq!(moved, event_id);
    assert_eq!(target, EventMoveTarget::Timed { start: proposed_start, end: proposed_end });
    assert_eq!(app.drag_session.state, DragState::Dropped);
}

#[test]
fn a_move_follows_what_the_clock_shows() {
    let (mut app, _) = app_with_mock_events();
    app.view = View::Day;
    let origin = CalendarHitTarget::ExistingEvent { event_id: "mock-review".into() };
    assert!(app.start_drag_session("mock-review".into(), origin));
    let slot = CalendarHitTarget::TimedSlot { date: local_today(), minute: 16 * 60 };
    assert!(app.update_drag_preview(slot));
    let index = app.snapshot.events.iter().position(|event| event.id == "mock-review").unwrap();
    let length = app.snapshot.events[index].start.until(app.snapshot.events[index].end);
    let start = Timestamp { nanos: 1_788_000_000_000_000_000 };
    let Some(DragPreview::Timed { event_id, proposed_start, proposed_end, .. }) =
        app.preview_at(Some(index), Some(start))
    else {
        panic!("an event that is shown has a preview");
    };
    assert_eq!(event_id, "mock-review");
    assert_eq!((proposed_start, proposed_end), (start, start.plus_nanos(length)));
    assert!(app.preview_at(None, Some(start)).is_none());
    assert!(app.preview_at(Some(index), None).is_none());

    assert!(app.drop_at(None, Some(start)).is_none());
    assert!(app.drop_at(Some(index), None).is_none());
    assert_eq!(app.drag_session.state, DragState::Preview);
    let Some(UserAction::MoveEvent { event_id, target }) = app.drop_at(Some(index), Some(start))
    else {
        panic!("a valid preview can be let go");
    };
    assert_eq!(event_id, "mock-review");
    assert_eq!(target, EventMoveTarget::Timed { start, end: start.plus_nanos(length) });
    assert_eq!(app.drag_session.state, DragState::Dropped);
}
