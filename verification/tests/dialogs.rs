//! Dialogs and the way back from them.

use tui_calendar::app::{
    App, Mode, MutationEffect, MutationState, RecurrenceMutationAction, TimelineViewportOwner, View,
    WorkerCommand, WorkerUpdate,
};
use tui_calendar::app::palette::PaletteCommand;
use tui_calendar::backend::MockBackend;
use tui_calendar::config::Config;
use tui_calendar::event_form::{EditorMode, EventForm};
use tui_calendar::input::{KeyCode, KeyEvent, KeyModifiers};
use tui_calendar::model::{
    AlarmMutation, AuthorizationStatus, CalendarInfo, CalendarPermissions, EventDraft, EventSpan,
    EventTimeMutation, RecurrenceMutationScope, Snapshot,
};
use tui_calendar::recurrence::RecurrenceEditorState;
use tui_calendar::time::{Date, Timestamp, local_today, now};

fn control() -> KeyModifiers {
    KeyModifiers { control: true, ..KeyModifiers::none() }
}

/// A span of time, in nanoseconds.
#[derive(Clone, Copy)]
struct Span(i128);

impl Span {
    fn minutes(n: i64) -> Span {
        Span(i128::from(n) * 60_000_000_000)
    }
    fn hours(n: i64) -> Span {
        Span::minutes(n * 60)
    }
    fn days(n: i64) -> Span {
        Span::hours(n * 24)
    }
}

impl std::ops::Add<Span> for Timestamp {
    type Output = Timestamp;
    fn add(self, span: Span) -> Timestamp {
        self.plus_nanos(span.0)
    }
}

impl std::ops::Sub<Span> for Timestamp {
    type Output = Timestamp;
    fn sub(self, span: Span) -> Timestamp {
        self.plus_nanos(-span.0)
    }
}

impl std::ops::Add<Span> for Date {
    type Output = Date;
    fn add(self, span: Span) -> Date {
        self.saturating_plus((span.0 / 86_400_000_000_000) as i32)
    }
}

impl std::ops::Sub<Span> for Date {
    type Output = Date;
    fn sub(self, span: Span) -> Date {
        self.saturating_plus(-((span.0 / 86_400_000_000_000) as i32))
    }
}

fn app_with_mock_events() -> (App, MockBackend) {
    let backend = MockBackend::seeded();
    let snapshot = Snapshot {
        calendars: backend.calendars(),
        events: backend
            .events(
                now() - Span::days(7),
                now() + Span::days(7),
                &vec![],
            ),
        authorization: AuthorizationStatus::FullAccess,
        updated_at: Some(now()),
    };
    (App::new(Config::default(), snapshot), backend)
}

fn key(character: char) -> KeyEvent {
    KeyEvent::new(KeyCode::Char(character), KeyModifiers::none())
}

#[test]
fn modal_stack_returns_palette_after_cancelling_date_jump() {
    let (mut app, _) = app_with_mock_events();

    app.handle_key(key(':'));
    assert_eq!(app.mode, Mode::Palette);
    assert_eq!(app.modal_stack.len(), 1);
    app.execute_palette(PaletteCommand::GoToDate);
    assert_eq!(app.mode, Mode::DateJump);
    assert_eq!(app.modal_stack.len(), 2);

    app.handle_key(KeyEvent::new(KeyCode::Esc, KeyModifiers::none()));
    assert_eq!(app.mode, Mode::Palette);
    assert_eq!(app.modal_stack.len(), 1);
    app.handle_key(KeyEvent::new(KeyCode::Esc, KeyModifiers::none()));
    assert_eq!(app.mode, Mode::Normal);
    assert!(app.modal_stack.is_empty());
}

#[test]
fn details_actions_return_to_details_without_losing_context() {
    let (mut app, _) = app_with_mock_events();
    app.selected_event = 1;
    app.handle_key(KeyEvent::new(KeyCode::Enter, KeyModifiers::none()));
    assert_eq!(app.mode, Mode::Details);
    app.detail_scroll = 4;
    let selected_id = app.selected_event_ref().unwrap().id.clone();

    app.handle_key(key('e'));
    assert_eq!(app.mode, Mode::Form);
    app.handle_key(KeyEvent::new(KeyCode::Esc, KeyModifiers::none()));
    assert_eq!(app.mode, Mode::Details);
    assert_eq!(app.detail_scroll, 4);
    assert_eq!(app.selected_event_ref().unwrap().id, selected_id);

    app.handle_key(key('d'));
    assert_eq!(app.mode, Mode::Delete);
    app.handle_key(KeyEvent::new(KeyCode::Esc, KeyModifiers::none()));
    assert_eq!(app.mode, Mode::Details);
    assert_eq!(app.selected_event_ref().unwrap().id, selected_id);
}

#[test]
fn recurring_scope_and_dirty_discard_confirm_restore_their_callers() {
    let (mut app, _) = app_with_mock_events();
    app.selected_event = 0;
    app.handle_key(KeyEvent::new(KeyCode::Enter, KeyModifiers::none()));
    app.handle_key(key('e'));
    assert_eq!(app.mode, Mode::RecurringEditScope);
    app.handle_key(KeyEvent::new(KeyCode::Esc, KeyModifiers::none()));
    assert_eq!(app.mode, Mode::Details);

    app.leave_modal();
    app.selected_event = 1;
    app.handle_key(KeyEvent::new(KeyCode::Enter, KeyModifiers::none()));
    app.handle_key(key('e'));
    app.handle_key(key('x'));
    assert!(app.form_dirty);
    app.handle_key(KeyEvent::new(KeyCode::Esc, KeyModifiers::none()));
    assert_eq!(app.mode, Mode::DiscardConfirm);
    app.handle_key(KeyEvent::new(KeyCode::Esc, KeyModifiers::none()));
    assert_eq!(app.mode, Mode::Form);
    assert!(app.form.is_some());
    app.handle_key(KeyEvent::new(KeyCode::Esc, KeyModifiers::none()));
    assert_eq!(app.mode, Mode::DiscardConfirm);
    app.handle_key(key('n'));
    assert_eq!(app.mode, Mode::Details);
    assert!(app.form.is_none());
}

#[test]
fn unified_editor_tracks_create_edit_and_duplicate_origins() {
    let backend = MockBackend::seeded();
    let calendars = backend.calendars();
    let event = backend
        .events(
            now() - Span::days(1),
            now() + Span::days(1),
            &vec![],
        )
        .remove(0);

    let create = EventForm::new(0, &calendars, local_today(), 9 * 60, 60);
    assert_eq!(create.editor_mode, EditorMode::Create);
    let edit = EventForm::from_event(&event, &calendars);
    assert_eq!(
        edit.editor_mode,
        EditorMode::Edit {
            event_id: event.id.clone()
        }
    );
    let duplicate = EventForm::duplicate_from(&event, &calendars);
    assert_eq!(
        duplicate.editor_mode,
        EditorMode::Duplicate {
            source_id: event.id.clone()
        }
    );
    assert_eq!(duplicate.id, None);
    assert_eq!(duplicate.recurrence, RecurrenceEditorState::Never);
}

#[test]
fn dirty_editor_requires_an_explicit_discard_choice() {
    let mut app = App::new(Config::default(), Snapshot::default());
    app.form = Some(EventForm::new(
        0,
        &vec![CalendarInfo {
            id: "work".into(),
            source_id: "mock-work".into(),
            permissions: CalendarPermissions::default(),
            title: "Work".into(),
            account: String::new(),
            provider: String::new(),
            color: "#fff".into(),
            is_writable: true,
            enabled: true,
        }],
        local_today(),
        9 * 60,
        60,
    ));
    app.mode = Mode::Form;
    app.form_dirty = true;
    app.handle_key(KeyEvent::new(KeyCode::Esc, KeyModifiers::none()));
    assert_eq!(app.mode, Mode::DiscardConfirm);
    app.handle_key(KeyEvent::new(KeyCode::Esc, KeyModifiers::none()));
    assert_eq!(app.mode, Mode::Form);
    assert!(app.form.is_some());
    app.handle_key(KeyEvent::new(KeyCode::Esc, KeyModifiers::none()));
    assert_eq!(app.mode, Mode::DiscardConfirm);
    app.handle_key(KeyEvent::new(KeyCode::Char('n'), KeyModifiers::none()));
    assert_eq!(app.mode, Mode::Normal);
    assert!(app.form.is_none());
}

#[test]
fn mutation_failure_keeps_the_editor_and_its_contents() {
    let mut app = App::new(Config::default(), Snapshot::default());
    let mut form = EventForm::new(
        0,
        &vec![CalendarInfo {
            id: "work".into(),
            source_id: "mock-work".into(),
            permissions: CalendarPermissions::default(),
            title: "Work".into(),
            account: String::new(),
            provider: String::new(),
            color: "#fff".into(),
            is_writable: true,
            enabled: true,
        }],
        local_today(),
        9 * 60,
        60,
    );
    form.title = "Keep this title".into();
    form.all_day = true;
    form.start = "2026-09-10".into();
    form.end = "2026-09-12".into();
    app.form = Some(form);
    app.mode = Mode::Form;
    app.apply_update(WorkerUpdate::MutationFailed("Unable to save event".into()));
    assert_eq!(app.mutation_state, MutationState::Failed);
    assert_eq!(app.mode, Mode::Form);
    assert_eq!(app.form.as_ref().unwrap().title, "Keep this title");
    assert_eq!(app.form.as_ref().unwrap().start, "2026-09-10");
    assert_eq!(app.form.as_ref().unwrap().end, "2026-09-12");
}

#[test]
fn recurring_edit_scope_requires_a_choice_and_preserves_it_for_retry() {
    let (mut app, mut backend) = app_with_mock_events();
    let stable_id = "mock-standup";
    assert_eq!(app.selected_event_ref().unwrap().id, stable_id);

    app.handle_key(key('e'));
    assert_eq!(app.mode, Mode::RecurringEditScope);
    assert!(app.form.is_none());
    assert_eq!(
        app.pending_recurring_mutation,
        Some((stable_id.into(), RecurrenceMutationAction::Edit))
    );
    // Scope modals own their input: normal commands cannot leak through.
    app.handle_key(key('j'));
    app.handle_key(key('d'));
    assert_eq!(app.mode, Mode::RecurringEditScope);
    assert_eq!(backend.last_update_span(), None);

    app.handle_key(key('1'));
    assert_eq!(app.mode, Mode::Form);
    assert_eq!(app.form.as_ref().unwrap().span, EventSpan::ThisEvent);
    assert!(app.pending_recurring_mutation.is_none());
    let form = app.form.as_mut().unwrap();
    form.title.push_str(" changed");
    // The mock fixture's provider-facing weekday token is deliberately
    // opaque; this test exercises scope transport, not recurrence parsing.
    form.recurrence = RecurrenceEditorState::none();
    let command = app.handle_key(KeyEvent::new(KeyCode::Char('s'), control()));
    let Some(WorkerCommand::Update(
        draft,
        EventSpan::ThisEvent,
        Some(RecurrenceMutationScope::ThisEvent),
        AlarmMutation::Preserve,
        EventTimeMutation::ReplaceLegacy,
    )) = command
    else {
        panic!("recurring edit should retain the selected scope");
    };
    backend
        .update_event(
            draft.clone(),
            EventSpan::ThisEvent,
            AlarmMutation::Preserve,
            EventTimeMutation::ReplaceLegacy,
        )
        .unwrap();
    assert_eq!(backend.last_update_span(), Some(EventSpan::ThisEvent));

    app.apply_update(WorkerUpdate::MutationFailed("opaque failure".into()));
    assert_eq!(app.mode, Mode::Form);
    assert_eq!(app.form.as_ref().unwrap().span, EventSpan::ThisEvent);
    assert!(matches!(
        app.handle_key(KeyEvent::new(KeyCode::Char('s'), control())),
        Some(WorkerCommand::Update(
            _,
            EventSpan::ThisEvent,
            Some(RecurrenceMutationScope::ThisEvent),
            AlarmMutation::Preserve,
            _
        ))
    ));

    let (mut future_app, mut future_backend) = app_with_mock_events();
    future_app.handle_key(key('e'));
    future_app.handle_key(key('2'));
    future_app.form.as_mut().unwrap().recurrence = RecurrenceEditorState::none();
    let command =
        future_app.handle_key(KeyEvent::new(KeyCode::Char('s'), control()));
    let Some(WorkerCommand::Update(
        draft,
        EventSpan::FutureEvents,
        Some(RecurrenceMutationScope::FutureEvents),
        AlarmMutation::Preserve,
        EventTimeMutation::ReplaceLegacy,
    )) = command
    else {
        panic!("future recurring edit should retain the selected scope");
    };
    future_backend
        .update_event(
            draft,
            EventSpan::FutureEvents,
            AlarmMutation::Preserve,
            EventTimeMutation::ReplaceLegacy,
        )
        .unwrap();
    assert_eq!(
        future_backend.last_update_span(),
        Some(EventSpan::FutureEvents)
    );
}

#[test]
fn recurring_scope_cancellation_and_delete_keep_a_stable_target() {
    let (mut app, mut backend) = app_with_mock_events();
    app.handle_key(key('e'));
    app.handle_key(KeyEvent::new(KeyCode::Esc, KeyModifiers::none()));
    assert_eq!(app.mode, Mode::Normal);
    assert!(app.form.is_none());
    assert!(app.pending_recurring_mutation.is_none());

    app.handle_key(key('d'));
    assert_eq!(app.mode, Mode::RecurringDeleteScope);
    app.handle_key(key('2'));
    assert_eq!(app.mode, Mode::Delete);
    assert_eq!(app.delete_span, EventSpan::FutureEvents);
    assert_eq!(app.pending_delete_event_id.as_deref(), Some("mock-standup"));
    // Confirmation cancellation clears the stable target and scope.
    app.handle_key(key('n'));
    assert_eq!(app.mode, Mode::Normal);
    assert!(app.pending_delete_event_id.is_none());
    assert_eq!(backend.last_delete_span(), None);

    app.handle_key(key('d'));
    app.handle_key(key('1'));
    // A selection change while a modal is open must not retarget deletion.
    app.selected_event = 1;
    let command = app.handle_key(key('y'));
    let Some(WorkerCommand::Delete(
        id,
        EventSpan::ThisEvent,
        Some(RecurrenceMutationScope::ThisEvent),
    )) = command
    else {
        panic!("confirmation should retain the recurring event ID and scope");
    };
    assert_eq!(id, "mock-standup");
    let event = backend
        .events(
            now() - Span::days(7),
            now() + Span::days(7),
            &vec![],
        )
        .into_iter()
        .find(|event| event.id == id)
        .unwrap();
    backend
        .delete_event(&event.provider_id.unwrap(), EventSpan::ThisEvent)
        .unwrap();
    assert_eq!(backend.last_delete_span(), Some(EventSpan::ThisEvent));
}

#[test]
fn recurring_scope_handles_disappearing_and_read_only_events_safely() {
    let (mut app, _backend) = app_with_mock_events();
    app.handle_key(key('e'));
    app.apply_update(WorkerUpdate::Snapshot(Snapshot {
        calendars: app.snapshot.calendars.clone(),
        events: app
            .snapshot
            .events
            .iter()
            .filter(|event| event.id != "mock-standup")
            .cloned()
            .collect(),
        authorization: AuthorizationStatus::FullAccess,
        updated_at: Some(now()),
    }));
    assert!(app.handle_key(key('1')).is_none());
    assert_eq!(app.mode, Mode::Normal);
    assert!(app.pending_recurring_mutation.is_none());
    assert_eq!(
        app.status.as_ref().map(|status| status.0.as_str()),
        Some("Event no longer exists")
    );

    let (mut app, backend) = app_with_mock_events();
    let mut readonly = app.snapshot.events[0].clone();
    readonly.calendar_id = "holidays".into();
    app.snapshot.events = vec![readonly];
    app.selected_event = 0;
    app.handle_key(key('e'));
    assert_eq!(app.mode, Mode::Normal);
    app.handle_key(key('d'));
    assert_eq!(app.mode, Mode::Normal);
    assert!(app.pending_recurring_mutation.is_none());
    assert_eq!(backend.last_update_span(), None);
    assert_eq!(backend.last_delete_span(), None);
}

#[test]
fn non_recurring_edits_bypass_scope_and_recurring_future_scope_does_not_leak() {
    let (mut app, _) = app_with_mock_events();
    app.handle_key(key('e'));
    app.handle_key(key('2'));
    assert_eq!(app.form.as_ref().unwrap().span, EventSpan::FutureEvents);
    app.handle_key(KeyEvent::new(KeyCode::Esc, KeyModifiers::none()));
    assert_eq!(app.mode, Mode::Normal);

    app.selected_event = app
        .visible_events()
        .iter()
        .position(|event| !event.has_recurrence)
        .unwrap();
    app.handle_key(key('e'));
    assert_eq!(app.mode, Mode::Form);
    assert_eq!(app.form.as_ref().unwrap().span, EventSpan::ThisEvent);
    assert!(app.pending_recurring_mutation.is_none());
}

#[test]
fn details_anchor_survives_row_changes_and_close_restores_the_occurrence() {
    let (mut app, _) = app_with_mock_events();
    let original_id = app.selected_event_ref().unwrap().id.clone();
    app.view = View::Day;
    app.timeline_start_minute = 11 * 60;
    app.timeline_viewport_owner = TimelineViewportOwner::Manual;
    app.handle_key(KeyEvent::new(KeyCode::Enter, KeyModifiers::none()));
    assert_eq!(app.mode, Mode::Details);

    // A refresh can reorder the stored selection index while Details is
    // open. Its action must still resolve the anchored occurrence.
    app.selected_event = 1;
    assert_eq!(app.details_event_ref().unwrap().id, original_id);
    app.handle_key(key('e'));
    assert_eq!(
        app.pending_recurring_mutation
            .as_ref()
            .map(|(id, _)| id.as_str()),
        Some(original_id.as_str())
    );
    app.handle_key(KeyEvent::new(KeyCode::Esc, KeyModifiers::none()));
    assert_eq!(app.mode, Mode::Details);
    app.handle_key(KeyEvent::new(KeyCode::Esc, KeyModifiers::none()));
    assert_eq!(app.mode, Mode::Normal);
    assert_eq!(app.selected_event_ref().unwrap().id, original_id);
    assert_eq!(app.timeline_start_minute, 11 * 60);
    assert_eq!(app.timeline_viewport_owner, TimelineViewportOwner::Manual);
}

#[test]
fn duplicate_cancel_returns_to_details_with_the_original_occurrence() {
    let (mut app, _) = app_with_mock_events();
    app.selected_event = app
        .visible_events()
        .iter()
        .position(|event| !event.has_recurrence)
        .unwrap();
    let original_id = app.selected_event_ref().unwrap().id.clone();
    app.handle_key(KeyEvent::new(KeyCode::Enter, KeyModifiers::none()));
    app.handle_key(KeyEvent::new(KeyCode::Char('D'), KeyModifiers::none()));
    assert_eq!(app.mode, Mode::Form);
    app.handle_key(KeyEvent::new(KeyCode::Esc, KeyModifiers::none()));
    assert_eq!(app.mode, Mode::Details);
    assert_eq!(app.details_event_ref().unwrap().id, original_id);
    app.handle_key(KeyEvent::new(KeyCode::Esc, KeyModifiers::none()));
    assert_eq!(app.selected_event_ref().unwrap().id, original_id);
}

#[test]
fn stale_mutation_completion_cannot_close_a_newer_editor_session() {
    let (mut app, _) = app_with_mock_events();
    let second = app.snapshot.events[1].clone();
    app.begin_edit_event(0);
    let first_command = app.begin_mutation_session(WorkerCommand::Create(EventDraft::new(
        "work".into(),
        app.active_date,
    )));
    let WorkerCommand::CreateWithSession {
        session: first_session,
        ..
    } = first_command
    else {
        panic!("event mutation must receive a session");
    };

    app.begin_edit_event(1);
    let second_command = app.begin_mutation_session(WorkerCommand::Create(EventDraft::new(
        second.calendar_id.clone(),
        app.active_date,
    )));
    let WorkerCommand::CreateWithSession {
        session: second_session,
        ..
    } = second_command
    else {
        panic!("event mutation must receive a session");
    };
    assert_ne!(first_session, second_session);

    app.apply_update(WorkerUpdate::MutationSucceededFor(
        first_session,
        MutationEffect::Created {
            event_id: "stale-created".into(),
            interval: (second.start, second.end),
        },
    ));
    assert_eq!(app.mode, Mode::Form);
    assert_eq!(app.form.as_ref().unwrap().title, second.title);
    assert_eq!(app.active_mutation_session, Some(second_session));
}

#[test]
fn saving_that_is_under_way_goes_on_without_a_form() {
    let mut app = App::new(Config::default(), Snapshot::default());
    app.mode = Mode::Form;
    app.mutation_state = MutationState::Saving;
    assert!(app.save_form().is_none());
    assert_eq!(app.mode, Mode::Form);
    assert_eq!(app.mutation_state, MutationState::Saving);
    app.mutation_state = MutationState::Idle;
    assert!(app.save_form().is_none());
    assert_eq!(app.mode, Mode::Normal);
}
