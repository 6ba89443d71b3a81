//! Undo and redo.

use tui_calendar::app::{
    App, EventMoveTarget, Mode, MutationEffect, UndoRecord, UserAction, WorkerCommand, WorkerUpdate,
};
use tui_calendar::app::history::UNDO_HISTORY_LIMIT;
use tui_calendar::app::palette::PaletteCommand;
use tui_calendar::backend::MockBackend;
use tui_calendar::config::Config;
use tui_calendar::input::{KeyCode, KeyEvent, KeyModifiers};
use tui_calendar::model::{
    Alarm, AlarmMutation, AuthorizationStatus, EventSpan, EventTimeInput, EventTimeMutation,
    RecurrenceMutationScope, Snapshot,
};
use tui_calendar::time::{Date, Timestamp, now, parse_iso_date};

fn control() -> KeyModifiers {
    KeyModifiers { control: true, ..KeyModifiers::none() }
}

fn date(year: i32, month: u32, day: u32) -> Date {
    parse_iso_date(&format!("{year:04}-{month:02}-{day:02}")).unwrap()
}

/// A span of time, in nanoseconds.
#[derive(Clone, Copy)]
struct Span(i128);

impl Span {
    fn minutes(n: i64) -> Span {
        Span(i128::from(n) * 60_000_000_000)
    }
    fn hours(n: i64) -> Span {
        Span::minutes(n * 60)
    }
    fn days(n: i64) -> Span {
        Span::hours(n * 24)
    }
}

impl std::ops::Add<Span> for Timestamp {
    type Output = Timestamp;
    fn add(self, span: Span) -> Timestamp {
        self.plus_nanos(span.0)
    }
}

impl std::ops::Sub<Span> for Timestamp {
    type Output = Timestamp;
    fn sub(self, span: Span) -> Timestamp {
        self.plus_nanos(-span.0)
    }
}

impl std::ops::Add<Span> for Date {
    type Output = Date;
    fn add(self, span: Span) -> Date {
        self.saturating_plus((span.0 / 86_400_000_000_000) as i32)
    }
}

impl std::ops::Sub<Span> for Date {
    type Output = Date;
    fn sub(self, span: Span) -> Date {
        self.saturating_plus(-((span.0 / 86_400_000_000_000) as i32))
    }
}

fn app_with_mock_events() -> (App, MockBackend) {
    let backend = MockBackend::seeded();
    let snapshot = Snapshot {
        calendars: backend.calendars(),
        events: backend
            .events(
                now() - Span::days(7),
                now() + Span::days(7),
                &vec![],
            ),
        authorization: AuthorizationStatus::FullAccess,
        updated_at: Some(now()),
    };
    (App::new(Config::default(), snapshot), backend)
}

fn key(character: char) -> KeyEvent {
    KeyEvent::new(KeyCode::Char(character), KeyModifiers::none())
}

#[test]
fn undo_history_is_committed_only_after_provider_confirmation() {
    let (mut app, _) = app_with_mock_events();
    let event = app
        .snapshot
        .events
        .iter()
        .find(|event| event.id == "mock-review")
        .unwrap()
        .clone();
    app.selected_event = app
        .visible_events()
        .iter()
        .position(|candidate| candidate.id == event.id)
        .unwrap();
    let command = app
        .execute_action(UserAction::MoveEvent {
            event_id: event.id.clone(),
            target: EventMoveTarget::Timed {
                start: event.start + Span::hours(1),
                end: event.end + Span::hours(1),
            },
        })
        .expect("a movable event must produce an update");
    app.note_dispatched_mutation(&command);
    assert!(
        app.history.undo_stack.is_empty(),
        "unconfirmed work is not undoable"
    );

    app.apply_update(WorkerUpdate::MutationSucceeded(MutationEffect::Updated {
        event_id: event.id.clone(),
        before_interval: (event.start, event.end),
        after_interval: (
            event.start + Span::hours(1),
            event.end + Span::hours(1),
        ),
        recurrence_scope: None,
    }));
    assert_eq!(app.history.undo_stack.len(), 1);
    assert!(app.history.redo_stack.is_empty());
    app.apply_update(WorkerUpdate::Snapshot(app.snapshot.clone()));
    assert_eq!(
        app.selected_event_ref().map(|event| event.id.as_str()),
        Some(event.id.as_str())
    );
    assert_eq!(
        app.history.undo_stack.len(),
        1,
        "authoritative refresh retains confirmed history"
    );

    let Some(WorkerCommand::Update(draft, span, scope, alarms, mutation)) =
        app.execute_action(UserAction::Undo)
    else {
        panic!("confirmed move must be reversible");
    };
    assert_eq!(draft.time.as_timed_range(), Some((event.start, event.end)));
    assert_eq!(span, EventSpan::ThisEvent);
    assert_eq!(scope, None);
    assert_eq!(alarms, AlarmMutation::Replace(event.alarms.clone()));
    assert_eq!(mutation, EventTimeMutation::ReplaceLegacy);

    app.note_dispatched_mutation(&WorkerCommand::Update(draft, span, scope, alarms, mutation));
    app.apply_update(WorkerUpdate::MutationSucceeded(MutationEffect::Updated {
        event_id: event.id.clone(),
        before_interval: (
            event.start + Span::hours(1),
            event.end + Span::hours(1),
        ),
        after_interval: (event.start, event.end),
        recurrence_scope: None,
    }));
    assert!(app.history.undo_stack.is_empty());
    assert_eq!(app.history.redo_stack.len(), 1);

    let Some(WorkerCommand::Update(draft, _, _, _, _)) = app.execute_action(UserAction::Redo)
    else {
        panic!("confirmed undo must be redoable");
    };
    assert_eq!(
        draft.time.as_timed_range(),
        Some((
            event.start + Span::hours(1),
            event.end + Span::hours(1)
        ))
    );
    app.note_dispatched_mutation(&WorkerCommand::Update(
        draft,
        EventSpan::ThisEvent,
        None,
        AlarmMutation::Replace(event.alarms.clone()),
        EventTimeMutation::ReplaceLegacy,
    ));
    app.apply_update(WorkerUpdate::MutationSucceeded(MutationEffect::Updated {
        event_id: event.id,
        before_interval: (event.start, event.end),
        after_interval: (
            event.start + Span::hours(1),
            event.end + Span::hours(1),
        ),
        recurrence_scope: None,
    }));
    assert_eq!(app.history.undo_stack.len(), 1);
    assert!(app.history.redo_stack.is_empty());
}

#[test]
fn undo_history_preserves_all_day_dates_and_protected_alarms() {
    let (mut app, _) = app_with_mock_events();
    let event = app
        .snapshot
        .events
        .iter_mut()
        .find(|event| event.id == "mock-review")
        .unwrap();
    event.alarms = vec![Alarm {
        relative_seconds: None,
        absolute_date: Some(event.start),
        is_editable: false,
    }];
    let event = event.clone();
    let command = app
        .execute_action(UserAction::MoveEvent {
            event_id: event.id.clone(),
            target: EventMoveTarget::Timed {
                start: event.start + Span::hours(1),
                end: event.end + Span::hours(1),
            },
        })
        .unwrap();
    app.note_dispatched_mutation(&command);
    app.apply_update(WorkerUpdate::MutationSucceeded(MutationEffect::Updated {
        event_id: event.id.clone(),
        before_interval: (event.start, event.end),
        after_interval: (
            event.start + Span::hours(1),
            event.end + Span::hours(1),
        ),
        recurrence_scope: None,
    }));
    let Some(WorkerCommand::Update(_, _, _, AlarmMutation::Preserve, _)) =
        app.execute_action(UserAction::Undo)
    else {
        panic!("undo must preserve protected alarms rather than rewrite them");
    };

    let (mut app, _) = app_with_mock_events();
    let mut all_day = app
        .snapshot
        .events
        .iter()
        .find(|event| event.id == "mock-review")
        .unwrap()
        .clone();
    let all_day_start = date(2026, 9, 10);
    all_day.id = "undo-trusted-all-day".into();
    all_day.calendar_id = "personal".into();
    all_day.all_day = true;
    all_day.all_day_start_date = Some(all_day_start);
    all_day.all_day_end_date_exclusive = Some(all_day_start + Span::days(2));
    app.snapshot.events.push(all_day.clone());
    let delete = WorkerCommand::Delete(all_day.id.clone(), EventSpan::ThisEvent, None);
    app.note_dispatched_mutation(&delete);
    app.apply_update(WorkerUpdate::MutationSucceeded(MutationEffect::Deleted {
        event_id: all_day.id.clone(),
        interval: (all_day.start, all_day.end),
        recurrence_scope: None,
    }));
    let Some(WorkerCommand::Create(draft)) = app.execute_action(UserAction::Undo) else {
        panic!("a confirmed non-recurring deletion must be restorable");
    };
    assert_eq!(
        draft.time.as_all_day_range(),
        all_day.all_day_date_range(),
        "undo must restore floating all-day dates, never compatibility instants"
    );

    let (mut app, _) = app_with_mock_events();
    let mut all_day = app.snapshot.events[0].clone();
    let start_date = date(2026, 9, 10);
    all_day.id = "undo-all-day-move".into();
    all_day.calendar_id = "personal".into();
    all_day.all_day = true;
    all_day.all_day_start_date = Some(start_date);
    all_day.all_day_end_date_exclusive = Some(start_date + Span::days(2));
    all_day.has_recurrence = false;
    all_day.recurrence.clear();
    app.snapshot.events = vec![all_day.clone()];
    let moved = App::reversible_event_draft(&all_day, Some(all_day.id.clone()), false)
        .unwrap()
        .draft;
    let moved_start = start_date + Span::days(3);
    let moved_end = moved_start + Span::days(2);
    let move_command = WorkerCommand::Update(
        moved.clone(),
        EventSpan::ThisEvent,
        None,
        AlarmMutation::Preserve,
        EventTimeMutation::ReplaceAllDay {
            start_date: moved_start,
            end_date_exclusive: moved_end,
        },
    );
    app.note_dispatched_mutation(&move_command);
    app.apply_update(WorkerUpdate::MutationSucceeded(MutationEffect::Updated {
        event_id: all_day.id.clone(),
        before_interval: (all_day.start, all_day.end),
        after_interval: (all_day.start, all_day.end),
        recurrence_scope: None,
    }));
    assert_eq!(app.history.undo_stack.len(), 1);
    let Some(WorkerCommand::Update(
        undo_draft,
        _,
        _,
        _,
        EventTimeMutation::ReplaceAllDay {
            start_date: undo_start,
            end_date_exclusive: undo_end,
        },
    )) = app.execute_action(UserAction::Undo)
    else {
        panic!("trusted all-day update must be reversible");
    };
    assert!(matches!(
        undo_draft.time,
        EventTimeInput::LegacyAllDayUnknown { .. }
    ));
    assert_eq!(
        (undo_start, undo_end),
        (start_date, start_date + Span::days(2))
    );
}

#[test]
fn failed_and_recurring_mutations_do_not_create_unsafe_history() {
    let (mut app, _) = app_with_mock_events();
    let event = app
        .snapshot
        .events
        .iter()
        .find(|event| event.id == "mock-review")
        .unwrap()
        .clone();
    let draft = App::reversible_event_draft(&event, None, true)
        .unwrap()
        .draft;
    let create = WorkerCommand::Create(draft);
    app.note_dispatched_mutation(&create);
    app.apply_update(WorkerUpdate::MutationFailed(
        "provider rejected create".into(),
    ));
    assert!(app.history.undo_stack.is_empty());
    assert!(app.history.redo_stack.is_empty());

    app.note_dispatched_mutation(&create);
    app.apply_update(WorkerUpdate::MutationSucceeded(MutationEffect::Created {
        event_id: "provider-created".into(),
        interval: (event.start, event.end),
    }));
    let mut snapshot = app.snapshot.clone();
    let mut created = event.clone();
    created.id = "provider-created".into();
    created.has_recurrence = false;
    created.recurrence.clear();
    snapshot.events.push(created);
    app.apply_update(WorkerUpdate::Snapshot(snapshot));
    assert_eq!(app.history.undo_stack.len(), 1);
    // The provider-created identity is recorded only after success, so an
    // undo deletes the exact event instead of guessing from its title.
    let Some(WorkerCommand::Delete(id, EventSpan::ThisEvent, None)) =
        app.execute_action(UserAction::Undo)
    else {
        panic!("a confirmed non-recurring create must be reversible");
    };
    assert_eq!(id, "provider-created");
    app.note_dispatched_mutation(&WorkerCommand::Delete(
        id.clone(),
        EventSpan::ThisEvent,
        None,
    ));
    app.apply_update(WorkerUpdate::MutationSucceeded(MutationEffect::Deleted {
        event_id: id,
        interval: (event.start, event.end),
        recurrence_scope: None,
    }));
    assert!(matches!(
        app.execute_action(UserAction::Redo),
        Some(WorkerCommand::Create(_))
    ));

    let (mut app, _) = app_with_mock_events();
    let recurring = app
        .snapshot
        .events
        .iter()
        .find(|event| event.id == "mock-standup")
        .unwrap()
        .clone();
    let update = WorkerCommand::Update(
        App::reversible_event_draft(&recurring, Some(recurring.id.clone()), false)
            .unwrap()
            .draft,
        EventSpan::FutureEvents,
        Some(RecurrenceMutationScope::FutureEvents),
        AlarmMutation::Preserve,
        EventTimeMutation::ReplaceLegacy,
    );
    app.note_dispatched_mutation(&update);
    app.apply_update(WorkerUpdate::MutationSucceeded(MutationEffect::Updated {
        event_id: recurring.id.clone(),
        before_interval: (recurring.start, recurring.end),
        after_interval: (recurring.start, recurring.end),
        recurrence_scope: Some(RecurrenceMutationScope::FutureEvents),
    }));
    assert!(
        app.history.undo_stack.is_empty(),
        "series/split scope is intentionally not reversible yet"
    );
}

#[test]
fn undo_history_is_bounded() {
    let (mut app, _) = app_with_mock_events();
    let event = app
        .snapshot
        .events
        .iter()
        .find(|event| event.id == "mock-review")
        .unwrap()
        .clone();
    let draft = App::reversible_event_draft(&event, None, true)
        .unwrap()
        .draft;
    for index in 0..=UNDO_HISTORY_LIMIT {
        let command = WorkerCommand::Create(draft.clone());
        app.note_dispatched_mutation(&command);
        app.apply_update(WorkerUpdate::MutationSucceeded(MutationEffect::Created {
            event_id: format!("history-{index}"),
            interval: (event.start, event.end),
        }));
    }
    assert_eq!(app.history.undo_stack.len(), UNDO_HISTORY_LIMIT);
    assert!(matches!(
        app.history.undo_stack.first(),
        Some(UndoRecord::Created {
            created_event_id,
            ..
        }) if created_event_id == "history-1"
    ));
}

#[test]
fn pending_history_does_not_duplicate_and_new_successful_work_clears_redo() {
    let (mut app, _) = app_with_mock_events();
    let event = app
        .snapshot
        .events
        .iter()
        .find(|event| event.id == "mock-review")
        .unwrap()
        .clone();
    let first = app
        .execute_action(UserAction::MoveEvent {
            event_id: event.id.clone(),
            target: EventMoveTarget::Timed {
                start: event.start + Span::hours(1),
                end: event.end + Span::hours(1),
            },
        })
        .unwrap();
    app.note_dispatched_mutation(&first);
    app.note_dispatched_mutation(&first);
    app.apply_update(WorkerUpdate::MutationSucceeded(MutationEffect::Updated {
        event_id: event.id.clone(),
        before_interval: (event.start, event.end),
        after_interval: (
            event.start + Span::hours(1),
            event.end + Span::hours(1),
        ),
        recurrence_scope: None,
    }));
    assert_eq!(app.history.undo_stack.len(), 1, "one request creates one record");

    let undo = app.execute_action(UserAction::Undo).unwrap();
    app.note_dispatched_mutation(&undo);
    app.apply_update(WorkerUpdate::MutationSucceeded(MutationEffect::Updated {
        event_id: event.id.clone(),
        before_interval: (
            event.start + Span::hours(1),
            event.end + Span::hours(1),
        ),
        after_interval: (event.start, event.end),
        recurrence_scope: None,
    }));
    assert_eq!(app.history.redo_stack.len(), 1);

    let redo = app.execute_action(UserAction::Redo).unwrap();
    app.note_dispatched_mutation(&redo);
    app.apply_update(WorkerUpdate::MutationFailed(
        "provider rejected redo".into(),
    ));
    assert!(app.history.undo_stack.is_empty());
    assert_eq!(app.history.redo_stack.len(), 1, "failed redo must remain retryable");

    let second = app
        .execute_action(UserAction::MoveEvent {
            event_id: event.id.clone(),
            target: EventMoveTarget::Timed {
                start: event.start + Span::hours(2),
                end: event.end + Span::hours(2),
            },
        })
        .unwrap();
    app.note_dispatched_mutation(&second);
    app.apply_update(WorkerUpdate::MutationSucceeded(MutationEffect::Updated {
        event_id: event.id,
        before_interval: (event.start, event.end),
        after_interval: (
            event.start + Span::hours(2),
            event.end + Span::hours(2),
        ),
        recurrence_scope: None,
    }));
    assert_eq!(app.history.undo_stack.len(), 1);
    assert!(app.history.redo_stack.is_empty());
}

#[test]
fn stale_or_read_only_history_is_retained_without_dispatching_an_inverse() {
    let (mut app, _) = app_with_mock_events();
    let event = app
        .snapshot
        .events
        .iter()
        .find(|event| event.id == "mock-review")
        .unwrap()
        .clone();
    let command = app
        .execute_action(UserAction::MoveEvent {
            event_id: event.id.clone(),
            target: EventMoveTarget::Timed {
                start: event.start + Span::hours(1),
                end: event.end + Span::hours(1),
            },
        })
        .unwrap();
    app.note_dispatched_mutation(&command);
    app.apply_update(WorkerUpdate::MutationSucceeded(MutationEffect::Updated {
        event_id: event.id.clone(),
        before_interval: (event.start, event.end),
        after_interval: (
            event.start + Span::hours(1),
            event.end + Span::hours(1),
        ),
        recurrence_scope: None,
    }));

    app.snapshot
        .events
        .retain(|candidate| candidate.id != event.id);
    assert!(app.execute_action(UserAction::Undo).is_none());
    assert_eq!(app.history.undo_stack.len(), 1, "stale history must not be popped");
    assert_eq!(
        app.status.as_ref().map(|(message, _, _)| message.as_str()),
        Some("Provider state changed; event no longer exists")
    );

    app.snapshot.events.push(event.clone());
    app.snapshot
        .calendars
        .iter_mut()
        .find(|calendar| calendar.id == event.calendar_id)
        .unwrap()
        .is_writable = false;
    assert!(app.execute_action(UserAction::Undo).is_none());
    assert_eq!(
        app.history.undo_stack.len(),
        1,
        "permission failures retain history"
    );
    assert_eq!(
        app.status.as_ref().map(|(message, _, _)| message.as_str()),
        Some("This calendar is read-only")
    );
}

#[test]
fn undo_shortcut_and_palette_dispatch_the_existing_history_actions() {
    let (mut keyboard, _) = app_with_mock_events();
    let event = keyboard
        .snapshot
        .events
        .iter()
        .find(|event| event.id == "mock-review")
        .unwrap()
        .clone();
    let command = keyboard
        .execute_action(UserAction::MoveEvent {
            event_id: event.id.clone(),
            target: EventMoveTarget::Timed {
                start: event.start + Span::hours(1),
                end: event.end + Span::hours(1),
            },
        })
        .unwrap();
    keyboard.note_dispatched_mutation(&command);
    keyboard.apply_update(WorkerUpdate::MutationSucceeded(MutationEffect::Updated {
        event_id: event.id.clone(),
        before_interval: (event.start, event.end),
        after_interval: (
            event.start + Span::hours(1),
            event.end + Span::hours(1),
        ),
        recurrence_scope: None,
    }));
    let undo = keyboard.handle_key(key('u'));
    assert!(matches!(
        undo.as_ref(),
        Some(WorkerCommand::Update(_, EventSpan::ThisEvent, None, _, _))
    ));
    keyboard.note_dispatched_mutation(undo.as_ref().unwrap());
    keyboard.apply_update(WorkerUpdate::MutationSucceeded(MutationEffect::Updated {
        event_id: event.id.clone(),
        before_interval: (
            event.start + Span::hours(1),
            event.end + Span::hours(1),
        ),
        after_interval: (event.start, event.end),
        recurrence_scope: None,
    }));
    assert!(matches!(
        keyboard.handle_key(KeyEvent::new(KeyCode::Char('r'), control())),
        Some(WorkerCommand::Update(_, EventSpan::ThisEvent, None, _, _))
    ));

    let (mut palette, _) = app_with_mock_events();
    let command = palette
        .execute_action(UserAction::MoveEvent {
            event_id: event.id.clone(),
            target: EventMoveTarget::Timed {
                start: event.start + Span::hours(1),
                end: event.end + Span::hours(1),
            },
        })
        .unwrap();
    palette.note_dispatched_mutation(&command);
    palette.apply_update(WorkerUpdate::MutationSucceeded(MutationEffect::Updated {
        event_id: event.id,
        before_interval: (event.start, event.end),
        after_interval: (
            event.start + Span::hours(1),
            event.end + Span::hours(1),
        ),
        recurrence_scope: None,
    }));
    let undo_entry = palette
        .palette_entries()
        .into_iter()
        .find(|entry| entry.command == PaletteCommand::Undo)
        .unwrap();
    assert!(undo_entry.enabled);
    assert!(matches!(
        palette.execute_palette(PaletteCommand::Undo),
        Some(WorkerCommand::Update(_, EventSpan::ThisEvent, None, _, _))
    ));
}

#[test]
fn undo_controls_explain_unavailable_and_recurring_history_states() {
    let (mut app, _) = app_with_mock_events();
    let undo_entry = app
        .palette_entries()
        .into_iter()
        .find(|entry| entry.command == PaletteCommand::Undo)
        .unwrap();
    let redo_entry = app
        .palette_entries()
        .into_iter()
        .find(|entry| entry.command == PaletteCommand::Redo)
        .unwrap();
    assert!(!undo_entry.enabled);
    assert_eq!(undo_entry.unavailable_reason(), "Nothing to undo");
    assert!(!redo_entry.enabled);
    assert_eq!(redo_entry.unavailable_reason(), "Nothing to redo");
    assert!(app.handle_key(key('u')).is_none());
    assert_eq!(
        app.status.as_ref().map(|(message, _, _)| message.as_str()),
        Some("Nothing to undo")
    );
    app.mode = Mode::Palette;
    app.palette_query = "undo".into();
    app.handle_palette(KeyEvent::new(KeyCode::Enter, KeyModifiers::none()));
    assert_eq!(
        app.status.as_ref().map(|(message, _, _)| message.as_str()),
        Some("Nothing to undo")
    );

    let recurring = app
        .snapshot
        .events
        .iter()
        .find(|event| event.id == "mock-standup")
        .unwrap()
        .clone();
    let update = WorkerCommand::Update(
        App::reversible_event_draft(&recurring, Some(recurring.id.clone()), false)
            .unwrap()
            .draft,
        EventSpan::FutureEvents,
        Some(RecurrenceMutationScope::FutureEvents),
        AlarmMutation::Preserve,
        EventTimeMutation::ReplaceLegacy,
    );
    app.note_dispatched_mutation(&update);
    app.apply_update(WorkerUpdate::MutationSucceeded(MutationEffect::Updated {
        event_id: recurring.id,
        before_interval: (recurring.start, recurring.end),
        after_interval: (recurring.start, recurring.end),
        recurrence_scope: Some(RecurrenceMutationScope::FutureEvents),
    }));
    let undo_entry = app
        .palette_entries()
        .into_iter()
        .find(|entry| entry.command == PaletteCommand::Undo)
        .unwrap();
    assert!(!undo_entry.enabled, "recurring changes must stay excluded");
    assert_eq!(undo_entry.unavailable_reason(), "Nothing to undo");
}

#[test]
fn undo_restores_the_exact_editable_alarm_collection() {
    let (mut app, _) = app_with_mock_events();
    let event = app
        .snapshot
        .events
        .iter_mut()
        .find(|event| event.id == "mock-review")
        .unwrap();
    event.alarms = vec![Alarm {
        relative_seconds: Some(-15 * 60),
        absolute_date: None,
        is_editable: true,
    }];
    let event = event.clone();
    let command = app
        .execute_action(UserAction::MoveEvent {
            event_id: event.id.clone(),
            target: EventMoveTarget::Timed {
                start: event.start + Span::hours(1),
                end: event.end + Span::hours(1),
            },
        })
        .unwrap();
    app.note_dispatched_mutation(&command);
    app.apply_update(WorkerUpdate::MutationSucceeded(MutationEffect::Updated {
        event_id: event.id,
        before_interval: (event.start, event.end),
        after_interval: (
            event.start + Span::hours(1),
            event.end + Span::hours(1),
        ),
        recurrence_scope: None,
    }));
    let Some(WorkerCommand::Update(_, _, _, AlarmMutation::Replace(alarms), _)) =
        app.execute_action(UserAction::Undo)
    else {
        panic!("editable alarm state must be restored exactly");
    };
    assert_eq!(alarms, event.alarms);
}
