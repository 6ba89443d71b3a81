//! The dialogs of calendars.

use tui_calendar::app::{App, Mode, MutationState, WorkerCommand, WorkerUpdate};
use tui_calendar::backend::MockBackend;
use tui_calendar::calendar_form::{CalendarDeleteConfirmation, CalendarForm, CalendarRenameForm};
use tui_calendar::config::Config;
use tui_calendar::input::{KeyCode, KeyEvent, KeyModifiers};
use tui_calendar::model::{
    AuthorizationStatus, CalendarCapabilities, CalendarError, CalendarInfo, CalendarPermissions,
    CalendarSource, CreateCalendarRequest, DeleteCalendarRequest, DeleteCalendarResponse,
    RenameCalendarRequest, SetCalendarColorRequest, Snapshot,
};
use tui_calendar::time::now;

fn control() -> KeyModifiers {
    KeyModifiers { control: true, ..KeyModifiers::none() }
}

#[test]
fn calendar_manager_preserves_calendar_selection_by_stable_id() {
    let backend = MockBackend::seeded();
    let calendars = backend.calendars();
    let mut app = App::new(
        Config::default(),
        Snapshot {
            calendars: calendars.clone(),
            events: vec![],
            authorization: AuthorizationStatus::FullAccess,
            updated_at: Some(now()),
        },
    );
    app.selected_calendar = calendars
        .iter()
        .position(|calendar| calendar.id == "shared")
        .unwrap();
    app.handle_key(KeyEvent::new(KeyCode::Char('g'), KeyModifiers::none()));
    app.handle_key(KeyEvent::new(KeyCode::Char('c'), KeyModifiers::none()));
    assert_eq!(app.mode, Mode::CalendarManager);

    let mut refreshed = calendars;
    refreshed.reverse();
    app.apply_update(WorkerUpdate::Snapshot(Snapshot {
        calendars: refreshed,
        events: vec![],
        authorization: AuthorizationStatus::FullAccess,
        updated_at: Some(now()),
    }));
    assert_eq!(app.snapshot.calendars[app.selected_calendar].id, "shared");

    app.handle_key(KeyEvent::new(KeyCode::Enter, KeyModifiers::none()));
    assert_eq!(app.mode, Mode::CalendarManagerDetails);
    app.handle_key(KeyEvent::new(KeyCode::Esc, KeyModifiers::none()));
    assert_eq!(app.mode, Mode::CalendarManager);
    app.handle_key(KeyEvent::new(KeyCode::Esc, KeyModifiers::none()));
    assert_eq!(app.mode, Mode::Normal);
}

#[test]
fn calendar_manager_clears_removed_calendar_selection_safely() {
    let backend = MockBackend::seeded();
    let calendars = backend.calendars();
    let mut app = App::new(
        Config::default(),
        Snapshot {
            calendars: calendars.clone(),
            events: vec![],
            authorization: AuthorizationStatus::FullAccess,
            updated_at: Some(now()),
        },
    );
    app.selected_calendar = calendars
        .iter()
        .position(|calendar| calendar.id == "calendar-delete-test")
        .unwrap();
    app.mode = Mode::CalendarManager;
    app.apply_update(WorkerUpdate::Snapshot(Snapshot {
        calendars: calendars
            .into_iter()
            .filter(|calendar| calendar.id != "calendar-delete-test")
            .collect(),
        events: vec![],
        authorization: AuthorizationStatus::FullAccess,
        updated_at: Some(now()),
    }));
    assert!(app.selected_calendar < app.snapshot.calendars.len());
    assert_eq!(
        app.status.as_ref().map(|status| status.0.as_str()),
        Some("Selected calendar was removed")
    );
}

#[test]
fn calendar_manager_receives_backend_capabilities_without_actions() {
    let mut app = App::new(Config::default(), Snapshot::default());
    app.apply_update(WorkerUpdate::CalendarCapabilities(CalendarCapabilities {
        can_list_sources: true,
        can_create: true,
        can_update: true,
        can_change_color: true,
        can_delete: true,
    }));
    assert!(app.calendar_capabilities.can_create);
    assert!(app.calendar_capabilities.can_update);
    assert!(app.calendar_capabilities.can_change_color);
    assert!(app.calendar_capabilities.can_delete);
    assert!(
        app.handle_key(KeyEvent::new(KeyCode::Char('g'), KeyModifiers::none()))
            .is_none()
    );
    assert!(
        app.handle_key(KeyEvent::new(KeyCode::Char('c'), KeyModifiers::none()))
            .is_none()
    );
    assert_eq!(app.mode, Mode::CalendarManager);
}

#[test]
fn calendar_create_form_is_capability_gated_and_preserves_failures() {
    let mut app = App::new(Config::default(), Snapshot::default());
    app.mode = Mode::CalendarManager;
    app.handle_key(KeyEvent::new(KeyCode::Char('c'), KeyModifiers::none()));
    assert!(app.calendar_form.is_none());

    app.calendar_capabilities.can_create = true;
    app.calendar_sources = vec![CalendarSource {
        id: "source-test-1".into(),
        title: "Test Source".into(),
        source_type: "local".into(),
        is_writable: true,
    }];
    app.handle_key(KeyEvent::new(KeyCode::Char('c'), KeyModifiers::none()));
    assert_eq!(app.mode, Mode::CalendarCreate);
    assert!(
        app.handle_key(KeyEvent::new(KeyCode::Char('s'), control()))
            .is_none()
    );
    assert_eq!(
        app.status.as_ref().map(|status| status.0.as_str()),
        Some("Calendar title is required")
    );

    let form = app.calendar_form.as_mut().unwrap();
    form.title = "New Calendar".into();
    form.source_index = Some(0);
    let command = app.handle_key(KeyEvent::new(KeyCode::Char('s'), control()));
    assert!(matches!(
        command,
        Some(WorkerCommand::CreateCalendar(CreateCalendarRequest { source_id, .. }))
            if source_id == "source-test-1"
    ));
    app.apply_update(WorkerUpdate::CalendarCreateFailed(
        CalendarError::PermissionDenied,
    ));
    assert_eq!(app.mode, Mode::CalendarCreate);
    assert_eq!(app.calendar_form.as_ref().unwrap().title, "New Calendar");
    assert_eq!(app.mutation_state, MutationState::Failed);
}

#[test]
fn calendar_create_selects_the_created_calendar_after_metadata_refresh() {
    let mut app = App::new(Config::default(), Snapshot::default());
    app.mode = Mode::CalendarCreate;
    app.calendar_form = Some(CalendarForm::new());
    let created = CalendarInfo {
        id: "calendar-created".into(),
        source_id: "source-test-1".into(),
        permissions: CalendarPermissions::default(),
        title: "Created".into(),
        account: "Test".into(),
        provider: "Local".into(),
        color: "#336699".into(),
        is_writable: true,
        enabled: true,
    };
    app.apply_update(WorkerUpdate::CalendarCreateSucceeded(created.clone()));
    app.apply_update(WorkerUpdate::Snapshot(Snapshot {
        calendars: vec![created],
        events: vec![],
        authorization: AuthorizationStatus::FullAccess,
        updated_at: Some(now()),
    }));
    assert_eq!(app.mode, Mode::CalendarManager);
    assert_eq!(
        app.snapshot.calendars[app.selected_calendar].id,
        "calendar-created"
    );
}

#[test]
fn calendar_rename_form_is_capability_and_permission_gated() {
    let backend = MockBackend::seeded();
    let calendars = backend.calendars();
    let mut app = App::new(
        Config::default(),
        Snapshot {
            calendars,
            events: vec![],
            authorization: AuthorizationStatus::FullAccess,
            updated_at: Some(now()),
        },
    );
    app.mode = Mode::CalendarManager;
    app.handle_key(KeyEvent::new(KeyCode::Char('e'), KeyModifiers::none()));
    assert!(app.calendar_rename_form.is_none());

    app.calendar_capabilities.can_update = true;
    app.handle_key(KeyEvent::new(KeyCode::Char('e'), KeyModifiers::none()));
    assert_eq!(app.mode, Mode::CalendarRename);
    assert_eq!(app.calendar_rename_form.as_ref().unwrap().title, "Work");
    app.calendar_rename_form.as_mut().unwrap().title = "   ".into();
    assert!(
        app.handle_key(KeyEvent::new(KeyCode::Char('s'), control()))
            .is_none()
    );
    assert_eq!(
        app.status.as_ref().map(|status| status.0.as_str()),
        Some("Calendar title is required")
    );

    app.calendar_rename_form.as_mut().unwrap().title = "Work Renamed".into();
    assert!(matches!(
        app.handle_key(KeyEvent::new(KeyCode::Char('s'), control())),
        Some(WorkerCommand::RenameCalendar(RenameCalendarRequest { calendar_id, title }))
            if calendar_id == "work" && title == "Work Renamed"
    ));
    app.apply_update(WorkerUpdate::CalendarRenameFailed(
        CalendarError::CannotModifyMetadata,
    ));
    assert_eq!(app.mode, Mode::CalendarRename);
    assert_eq!(
        app.calendar_rename_form.as_ref().unwrap().title,
        "Work Renamed"
    );

    app.mode = Mode::CalendarManager;
    app.calendar_rename_form = None;
    app.selected_calendar = app
        .snapshot
        .calendars
        .iter()
        .position(|calendar| calendar.id == "shared")
        .unwrap();
    app.handle_key(KeyEvent::new(KeyCode::Char('e'), KeyModifiers::none()));
    assert!(app.calendar_rename_form.is_none());
    assert_eq!(app.mode, Mode::CalendarManager);
    assert_eq!(
        app.status.as_ref().map(|status| status.0.as_str()),
        Some("This calendar's metadata cannot be modified")
    );
}

#[test]
fn calendar_rename_selects_same_id_after_metadata_refresh() {
    let original = CalendarInfo {
        id: "work".into(),
        source_id: "mock-work".into(),
        permissions: CalendarPermissions {
            can_modify_metadata: true,
            ..CalendarPermissions::default()
        },
        title: "Work".into(),
        account: "Mock".into(),
        provider: "Mock".into(),
        color: "#336699".into(),
        is_writable: true,
        enabled: true,
    };
    let mut app = App::new(
        Config::default(),
        Snapshot {
            calendars: vec![original.clone()],
            events: vec![],
            authorization: AuthorizationStatus::FullAccess,
            updated_at: Some(now()),
        },
    );
    app.mode = Mode::CalendarRename;
    app.calendar_rename_form = Some(CalendarRenameForm::new(&original));
    let mut renamed = original;
    renamed.title = "Work Renamed".into();
    app.apply_update(WorkerUpdate::CalendarRenameSucceeded(renamed.clone()));
    app.apply_update(WorkerUpdate::Snapshot(Snapshot {
        calendars: vec![renamed],
        events: vec![],
        authorization: AuthorizationStatus::FullAccess,
        updated_at: Some(now()),
    }));
    assert_eq!(app.mode, Mode::CalendarManager);
    assert_eq!(app.snapshot.calendars[app.selected_calendar].id, "work");
    assert_eq!(
        app.snapshot.calendars[app.selected_calendar].title,
        "Work Renamed"
    );
}

#[test]
fn calendar_color_form_validates_and_preserves_typed_failures() {
    let backend = MockBackend::seeded();
    let calendars = backend.calendars();
    let mut app = App::new(
        Config::default(),
        Snapshot {
            calendars,
            events: vec![],
            authorization: AuthorizationStatus::FullAccess,
            updated_at: Some(now()),
        },
    );
    app.mode = Mode::CalendarManager;
    app.handle_key(KeyEvent::new(KeyCode::Char('C'), KeyModifiers::none()));
    assert!(app.calendar_color_form.is_none());

    app.calendar_capabilities.can_change_color = true;
    app.handle_key(KeyEvent::new(KeyCode::Char('C'), KeyModifiers::none()));
    assert_eq!(app.mode, Mode::CalendarColor);
    assert_eq!(app.calendar_color_form.as_ref().unwrap().color, "#4C8DFF");
    app.calendar_color_form.as_mut().unwrap().color = "red".into();
    assert!(
        app.handle_key(KeyEvent::new(KeyCode::Char('s'), control()))
            .is_none()
    );
    assert_eq!(
        app.status.as_ref().map(|status| status.0.as_str()),
        Some("Calendar color must use #RRGGBB")
    );

    app.calendar_color_form.as_mut().unwrap().color = "#336699".into();
    assert!(matches!(
        app.handle_key(KeyEvent::new(KeyCode::Char('s'), control())),
        Some(WorkerCommand::SetCalendarColor(SetCalendarColorRequest { calendar_id, color }))
            if calendar_id == "work" && color == "#336699"
    ));
    app.apply_update(WorkerUpdate::CalendarColorFailed(
        CalendarError::PermissionDenied,
    ));
    assert_eq!(app.mode, Mode::CalendarColor);
    assert_eq!(app.calendar_color_form.as_ref().unwrap().color, "#336699");

    app.mode = Mode::CalendarManager;
    app.calendar_color_form = None;
    app.selected_calendar = app
        .snapshot
        .calendars
        .iter()
        .position(|calendar| calendar.id == "shared")
        .unwrap();
    app.handle_key(KeyEvent::new(KeyCode::Char('C'), KeyModifiers::none()));
    assert!(app.calendar_color_form.is_none());
    assert_eq!(
        app.status.as_ref().map(|status| status.0.as_str()),
        Some("Calendar metadata is read-only")
    );
}

#[test]
fn calendar_color_keeps_selection_after_metadata_refresh() {
    let calendar = CalendarInfo {
        id: "work".into(),
        source_id: "mock-work".into(),
        permissions: CalendarPermissions {
            can_modify_metadata: true,
            ..CalendarPermissions::default()
        },
        title: "Work".into(),
        account: "Mock".into(),
        provider: "Mock".into(),
        color: "#4C8DFF".into(),
        is_writable: true,
        enabled: true,
    };
    let mut app = App::new(
        Config::default(),
        Snapshot {
            calendars: vec![calendar.clone()],
            events: vec![],
            authorization: AuthorizationStatus::FullAccess,
            updated_at: Some(now()),
        },
    );
    let mut updated = calendar;
    updated.color = "#FF5500".into();
    app.apply_update(WorkerUpdate::CalendarColorSucceeded(updated.clone()));
    app.apply_update(WorkerUpdate::Snapshot(Snapshot {
        calendars: vec![updated],
        events: vec![],
        authorization: AuthorizationStatus::FullAccess,
        updated_at: Some(now()),
    }));
    assert_eq!(app.mode, Mode::CalendarManager);
    assert_eq!(app.snapshot.calendars[app.selected_calendar].id, "work");
    assert_eq!(
        app.snapshot.calendars[app.selected_calendar].color,
        "#FF5500"
    );
}

#[test]
fn calendar_delete_is_capability_permission_gated_and_requires_y_confirmation() {
    let backend = MockBackend::seeded();
    let calendars = backend.calendars();
    let mut app = App::new(
        Config::default(),
        Snapshot {
            calendars,
            events: vec![],
            authorization: AuthorizationStatus::FullAccess,
            updated_at: Some(now()),
        },
    );
    app.mode = Mode::CalendarManager;
    app.selected_calendar = app
        .snapshot
        .calendars
        .iter()
        .position(|calendar| calendar.id == "calendar-delete-test")
        .unwrap();

    app.handle_key(KeyEvent::new(KeyCode::Char('d'), KeyModifiers::none()));
    assert_eq!(app.mode, Mode::CalendarManager);
    assert_eq!(
        app.status.as_ref().map(|status| status.0.as_str()),
        Some("Calendar deletion is not supported")
    );

    app.calendar_capabilities.can_delete = true;
    app.handle_key(KeyEvent::new(KeyCode::Char('d'), KeyModifiers::none()));
    assert_eq!(app.mode, Mode::CalendarDeleteConfirm);
    assert!(
        app.handle_key(KeyEvent::new(KeyCode::Enter, KeyModifiers::none()))
            .is_none()
    );
    assert_eq!(app.mode, Mode::CalendarDeleteConfirm);
    app.handle_key(KeyEvent::new(KeyCode::Char('n'), KeyModifiers::none()));
    assert_eq!(app.mode, Mode::CalendarManager);

    app.handle_key(KeyEvent::new(KeyCode::Char('d'), KeyModifiers::none()));
    app.handle_key(KeyEvent::new(KeyCode::Esc, KeyModifiers::none()));
    assert_eq!(app.mode, Mode::CalendarManager);

    app.handle_key(KeyEvent::new(KeyCode::Char('d'), KeyModifiers::none()));
    let command = app.handle_key(KeyEvent::new(KeyCode::Char('y'), KeyModifiers::none()));
    assert!(matches!(
        command,
        Some(WorkerCommand::DeleteCalendar(DeleteCalendarRequest { calendar_id }))
            if calendar_id == "calendar-delete-test"
    ));
    assert_eq!(app.mutation_state, MutationState::Deleting);
    assert!(
        app.handle_key(KeyEvent::new(KeyCode::Char('y'), KeyModifiers::none()))
            .is_none()
    );
}

#[test]
fn calendar_delete_removes_metadata_and_uses_next_then_previous_selection() {
    let backend = MockBackend::seeded();
    let calendars = backend.calendars();
    let deleted_index = calendars
        .iter()
        .position(|calendar| calendar.id == "calendar-delete-test")
        .unwrap();
    let mut app = App::new(
        Config::default(),
        Snapshot {
            calendars: calendars.clone(),
            events: vec![],
            authorization: AuthorizationStatus::FullAccess,
            updated_at: Some(now()),
        },
    );
    app.mode = Mode::CalendarDeleteConfirm;
    app.selected_calendar = deleted_index;
    app.calendar_delete_confirmation = Some(CalendarDeleteConfirmation {
        calendar_id: "calendar-delete-test".into(),
        title: "Delete Me".into(),
    });
    app.apply_update(WorkerUpdate::CalendarDeleteSucceeded(
        DeleteCalendarResponse {
            calendar_id: "calendar-delete-test".into(),
        },
    ));
    app.apply_update(WorkerUpdate::Snapshot(Snapshot {
        calendars: calendars
            .into_iter()
            .filter(|calendar| calendar.id != "calendar-delete-test")
            .collect(),
        events: vec![],
        authorization: AuthorizationStatus::FullAccess,
        updated_at: Some(now()),
    }));
    assert_eq!(app.mode, Mode::CalendarManager);
    assert!(app.calendar_delete_confirmation.is_none());
    assert!(
        app.snapshot
            .calendars
            .iter()
            .all(|calendar| calendar.id != "calendar-delete-test")
    );
    let expected_index = deleted_index.min(app.snapshot.calendars.len() - 1);
    assert_eq!(app.selected_calendar, expected_index);
}

#[test]
fn calendar_delete_prevents_read_only_calendars_and_keeps_manager_usable_after_failure() {
    let backend = MockBackend::seeded();
    let calendars = backend.calendars();
    let mut app = App::new(
        Config::default(),
        Snapshot {
            calendars,
            events: vec![],
            authorization: AuthorizationStatus::FullAccess,
            updated_at: Some(now()),
        },
    );
    app.mode = Mode::CalendarManager;
    app.calendar_capabilities.can_delete = true;
    app.selected_calendar = app
        .snapshot
        .calendars
        .iter()
        .position(|calendar| calendar.id == "shared")
        .unwrap();
    app.handle_key(KeyEvent::new(KeyCode::Char('d'), KeyModifiers::none()));
    assert_eq!(app.mode, Mode::CalendarManager);
    assert_eq!(
        app.status.as_ref().map(|status| status.0.as_str()),
        Some("This calendar cannot be deleted")
    );

    app.calendar_delete_confirmation = Some(CalendarDeleteConfirmation {
        calendar_id: "missing-calendar".into(),
        title: "Missing".into(),
    });
    app.mode = Mode::CalendarDeleteConfirm;
    app.apply_update(WorkerUpdate::CalendarDeleteFailed(CalendarError::NotFound));
    assert_eq!(app.mode, Mode::CalendarManager);
    assert_eq!(
        app.status.as_ref().map(|status| status.0.as_str()),
        Some("Calendar no longer exists")
    );
}
