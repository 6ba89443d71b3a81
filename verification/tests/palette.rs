//! The palette of commands.

use tui_calendar::app::{App, Mode, UserAction};
use tui_calendar::app::palette::PaletteCommand;
use tui_calendar::backend::MockBackend;
use tui_calendar::config::Config;
use tui_calendar::hit_test::CalendarHitTarget;
use tui_calendar::input::{KeyCode, KeyEvent, KeyModifiers};
use tui_calendar::model::{AuthorizationStatus, EventSpan, Snapshot};
use tui_calendar::time::{Date, Timestamp, now, parse_instant};

fn at(text: &str) -> Timestamp {
    parse_instant(text).unwrap()
}

/// A span of time, in nanoseconds.
#[derive(Clone, Copy)]
struct Span(i128);

impl Span {
    fn minutes(n: i64) -> Span {
        Span(i128::from(n) * 60_000_000_000)
    }
    fn hours(n: i64) -> Span {
        Span::minutes(n * 60)
    }
    fn days(n: i64) -> Span {
        Span::hours(n * 24)
    }
}

impl std::ops::Add<Span> for Timestamp {
    type Output = Timestamp;
    fn add(self, span: Span) -> Timestamp {
        self.plus_nanos(span.0)
    }
}

impl std::ops::Sub<Span> for Timestamp {
    type Output = Timestamp;
    fn sub(self, span: Span) -> Timestamp {
        self.plus_nanos(-span.0)
    }
}

impl std::ops::Add<Span> for Date {
    type Output = Date;
    fn add(self, span: Span) -> Date {
        self.saturating_plus((span.0 / 86_400_000_000_000) as i32)
    }
}

impl std::ops::Sub<Span> for Date {
    type Output = Date;
    fn sub(self, span: Span) -> Date {
        self.saturating_plus(-((span.0 / 86_400_000_000_000) as i32))
    }
}

fn app_with_mock_events() -> (App, MockBackend) {
    let backend = MockBackend::seeded();
    let snapshot = Snapshot {
        calendars: backend.calendars(),
        events: backend
            .events(
                now() - Span::days(7),
                now() + Span::days(7),
                &vec![],
            ),
        authorization: AuthorizationStatus::FullAccess,
        updated_at: Some(now()),
    };
    (App::new(Config::default(), snapshot), backend)
}

fn key(character: char) -> KeyEvent {
    KeyEvent::new(KeyCode::Char(character), KeyModifiers::none())
}

#[test]
fn command_palette_filters_actions_and_disables_event_mutations_without_selection() {
    let (mut app, _) = app_with_mock_events();
    app.snapshot.events.clear();
    app.palette_query = "edit".into();

    let entries = app.palette_entries();
    assert_eq!(entries.len(), 1);
    assert_eq!(entries[0].command, PaletteCommand::EditEvent);
    assert!(!entries[0].enabled);
    assert_eq!(entries[0].unavailable_reason(), "Select an event first");

    app.mode = Mode::Palette;
    app.handle_palette(KeyEvent::new(KeyCode::Enter, KeyModifiers::none()));
    assert_eq!(app.mode, Mode::Palette);
    assert_eq!(
        app.status.as_ref().map(|(message, _, _)| message.as_str()),
        Some("Select an event first")
    );
}

#[test]
fn command_palette_reuses_existing_event_and_recurring_flows() {
    let (mut app, _) = app_with_mock_events();

    app.palette_query = "create".into();
    assert!(
        app.palette_entries()
            .iter()
            .any(|entry| entry.command == PaletteCommand::NewEvent && entry.enabled)
    );
    app.execute_palette(PaletteCommand::NewEvent);
    assert_eq!(app.mode, Mode::Form);

    app.mode = Mode::Normal;
    app.selected_event = 0;
    app.execute_palette(PaletteCommand::EditEvent);
    assert_eq!(app.mode, Mode::RecurringEditScope);

    app.mode = Mode::Normal;
    app.execute_palette(PaletteCommand::DeleteEvent);
    assert_eq!(app.mode, Mode::RecurringDeleteScope);

    app.mode = Mode::Normal;
    app.selected_event = 1;
    app.execute_palette(PaletteCommand::DuplicateEvent);
    assert_eq!(app.mode, Mode::Form);
}

#[test]
fn keyboard_palette_and_details_dispatch_the_same_event_action() {
    let (mut keyboard, _) = app_with_mock_events();
    keyboard.selected_event = 0;
    keyboard.handle_key(key('e'));
    assert_eq!(keyboard.mode, Mode::RecurringEditScope);

    let (mut palette, _) = app_with_mock_events();
    palette.selected_event = 0;
    palette.handle_key(key(':'));
    palette.execute_palette(PaletteCommand::EditEvent);
    assert_eq!(palette.mode, Mode::RecurringEditScope);

    let (mut details, _) = app_with_mock_events();
    details.selected_event = 0;
    details.handle_key(KeyEvent::new(KeyCode::Enter, KeyModifiers::none()));
    details.handle_key(key('e'));
    assert_eq!(details.mode, Mode::RecurringEditScope);

    assert_eq!(
        keyboard.pending_recurring_mutation,
        palette.pending_recurring_mutation
    );
    assert_eq!(
        keyboard.pending_recurring_mutation,
        details.pending_recurring_mutation
    );
}

#[test]
fn keyboard_palette_and_details_dispatch_the_same_delete_workflow() {
    // Use a non-recurring event so every source reaches the shared delete
    // confirmation rather than stopping at a recurrence-scope chooser.
    let (mut keyboard, _) = app_with_mock_events();
    keyboard.selected_event = 1;
    let event_id = keyboard.selected_event_ref().unwrap().id.clone();
    keyboard.handle_key(key('d'));

    let (mut palette, _) = app_with_mock_events();
    palette.selected_event = 1;
    palette.handle_key(key(':'));
    palette.execute_palette(PaletteCommand::DeleteEvent);

    let (mut details, _) = app_with_mock_events();
    details.selected_event = 1;
    details.handle_key(KeyEvent::new(KeyCode::Enter, KeyModifiers::none()));
    details.handle_key(key('d'));

    for app in [&keyboard, &palette, &details] {
        assert_eq!(app.mode, Mode::Delete);
        assert_eq!(
            app.pending_delete_event_id.as_deref(),
            Some(event_id.as_str())
        );
        assert_eq!(app.delete_span, EventSpan::ThisEvent);
        assert_eq!(app.delete_recurrence_scope, None);
    }
}

#[test]
fn action_dispatcher_rejects_a_stale_event_identity() {
    let (mut app, _) = app_with_mock_events();
    app.execute_action(UserAction::DeleteEvent("removed-event".into()));

    assert_eq!(app.mode, Mode::Normal);
    assert_eq!(
        app.status.as_ref().map(|(message, _, _)| message.as_str()),
        Some("Event no longer exists")
    );

    let (mut app, _) = app_with_mock_events();
    let event = app
        .snapshot
        .events
        .iter()
        .find(|event| event.id == "mock-review")
        .unwrap()
        .clone();
    app.snapshot
        .calendars
        .iter_mut()
        .find(|calendar| calendar.id == event.calendar_id)
        .unwrap()
        .is_writable = false;
    assert!(!app.start_drag_session(
        event.id.clone(),
        CalendarHitTarget::ExistingEvent { event_id: event.id },
    ));
    assert_eq!(
        app.status.as_ref().map(|(message, _, _)| message.as_str()),
        Some("This calendar is read-only")
    );
}

#[test]
fn command_palette_respects_read_only_calendar_permissions() {
    let (mut app, _) = app_with_mock_events();
    app.snapshot
        .calendars
        .iter_mut()
        .find(|calendar| calendar.id == "work")
        .unwrap()
        .is_writable = false;
    app.selected_event = 0;

    for command in [
        PaletteCommand::EditEvent,
        PaletteCommand::DuplicateEvent,
        PaletteCommand::DeleteEvent,
    ] {
        let entry = app
            .palette_entries()
            .into_iter()
            .find(|entry| entry.command == command)
            .unwrap();
        assert!(!entry.enabled);
        assert_eq!(entry.unavailable_reason(), "This calendar is read-only");
    }
}

#[test]
fn palette_key_hints_match_effective_keyboard_actions() {
    assert_eq!(PaletteCommand::NewEvent.key_hint(), "n");
    assert_eq!(PaletteCommand::Search.key_hint(), "/");
    assert_eq!(PaletteCommand::Day.key_hint(), "gd");
    assert_eq!(PaletteCommand::RetryVisibleRange.key_hint(), "R");
}

#[test]
fn help_is_modal_scrollable_and_does_not_leak_normal_mode_actions() {
    let mut app = App::new(Config::default(), Snapshot::default());
    app.handle_key(key('?'));
    assert_eq!(app.mode, Mode::Help);
    app.handle_key(key('j'));
    assert_eq!(app.help_scroll, 1);
    app.handle_key(KeyEvent::new(KeyCode::PageDown, KeyModifiers::none()));
    assert!(app.help_scroll >= 9);
    // `n` is a normal-mode command, not a Help action.
    app.handle_key(key('n'));
    assert_eq!(app.mode, Mode::Help);
    assert!(app.form.is_none());
    app.handle_key(KeyEvent::new(KeyCode::End, KeyModifiers::none()));
    assert_eq!(app.help_scroll, u16::MAX);
    app.handle_key(key('?'));
    assert_eq!(app.mode, Mode::Normal);
}
