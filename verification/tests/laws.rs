//! What holds over several calls, on some values.

use tui_calendar::alarm::{parse_relative_alarm_duration, relative_duration_text};
use tui_calendar::app::palette::PaletteCommand;
use tui_calendar::app::timeline::{timeline_start_minute, DayItem};
use tui_calendar::app::worker::{begin, refresh_mutation_effect, Work};
use tui_calendar::app::{
    App, EventMoveTarget, Mode, MutationEffect, MutationState, UserAction, View, WorkerCommand,
    WorkerUpdate,
};
use tui_calendar::backend::{BackendState, MockBackend};
use tui_calendar::config::Config;
use tui_calendar::event_form::EventForm;
use tui_calendar::hit_test::{CalendarDayColumn, CalendarHitTarget, ScreenRect, TimelineHitGeometry};
use tui_calendar::input::{KeyCode, KeyEvent, KeyModifiers};
use tui_calendar::layout::{layout_overlaps, TimelineItem, TimelineViewport};
use tui_calendar::model::{
    AlarmMutation, EventDraft, EventSpan, RecurrenceFrequency, RecurrenceMutationScope,
    RecurrenceRule, Snapshot,
};
use tui_calendar::recurrence::{
    format_recurrence, parse_recurrence, RecurrenceEditorData, RecurrenceEditorState,
    RecurrenceEndMode, WeekdayCursor,
};
use tui_calendar::sorting::order_chosen;
use tui_calendar::time::{parse_instant, parse_iso_date, Date, Timestamp};

fn date(year: i32, month: u32, day: u32) -> Date {
    parse_iso_date(&format!("{year:04}-{month:02}-{day:02}")).unwrap()
}

fn at(text: &str) -> Timestamp {
    parse_instant(text).unwrap()
}

fn key(code: KeyCode) -> KeyEvent {
    KeyEvent::new(code, KeyModifiers::none())
}

fn app() -> App {
    let backend = MockBackend::seeded();
    let snapshot = Snapshot {
        calendars: backend.calendars(),
        events: backend.events(at("2000-01-01T00:00:00Z"), at("2100-01-01T00:00:00Z"), &vec![]),
        ..Snapshot::default()
    };
    App::new(Config::default(), snapshot)
}

fn rule(frequency: RecurrenceFrequency, interval: u32, days: &[&str]) -> RecurrenceRule {
    RecurrenceRule {
        frequency,
        interval,
        days_of_week: days.iter().map(|day| day.to_string()).collect(),
        occurrence_count: None,
        end_date: None,
    }
}

#[test]
fn an_empty_palette_shows_all_commands() {
    let app = app();
    let shown: Vec<_> = app.palette_entries().iter().map(|entry| entry.command).collect();
    assert_eq!(shown, PaletteCommand::all());
}

#[test]
fn a_timeline_ends_with_the_day_at_the_latest() {
    let late = vec![DayItem { start_minute: 1_410, end_minute: 1_440, today: false }];
    for rows in [1, 7, 16, 47, 48, 200] {
        for minute in [0, 719, 1_439] {
            let start = timeline_start_minute(rows, &late, minute, true);
            assert!(u32::from(start) + u32::from(rows.min(48)) * 30 <= 1_440);
            let start = timeline_start_minute(rows, &vec![], minute, true);
            assert!(u32::from(start) + u32::from(rows.min(48)) * 30 <= 1_440);
        }
    }
    assert_eq!(timeline_start_minute(16, &vec![], 0, false), 540);
    assert_eq!(timeline_start_minute(16, &vec![], 720, true), 560);
    assert_eq!(timeline_start_minute(48, &late, 720, true), 0);
}

#[test]
fn background_events_do_not_move_the_timeline() {
    let short = DayItem { start_minute: 600, end_minute: 660, today: false };
    let long = DayItem { start_minute: 0, end_minute: 360, today: false };
    let alone = timeline_start_minute(8, &vec![short], 720, false);
    assert_eq!(timeline_start_minute(8, &vec![short, long], 720, false), alone);
    assert_eq!(timeline_start_minute(8, &vec![long], 720, false), 540);
    // Two rows of the event are shown from the row at 9:00 on, an hour before it starts.
    assert_eq!(alone, 540);
}

#[test]
fn released_keys_do_nothing() {
    let mut app = app();
    let mut quit = key(KeyCode::Char('q'));
    quit.released = true;
    assert!(app.handle_key(quit).is_none());
    assert!(!app.should_quit);
    quit.released = false;
    app.handle_key(quit);
    assert!(app.should_quit);
}

#[test]
fn overlays_lead_back() {
    let mut app = app();
    app.enter_modal(Mode::Palette);
    app.enter_modal(Mode::DateJump);
    app.replace_modal(Mode::Help);
    assert_eq!(app.mode, Mode::Help);
    app.leave_modal();
    assert_eq!(app.mode, Mode::Palette);
    app.leave_modal();
    assert_eq!(app.mode, Mode::Normal);
    assert!(app.modal_stack.is_empty());
}

#[test]
fn day_steps_cancel_and_scrolling_stays_in_the_day() {
    let mut app = app();
    app.view = View::Day;
    let day = app.active_date;
    app.navigate_date(1);
    assert_ne!(app.active_date, day);
    app.navigate_date(-1);
    assert_eq!(app.active_date, day);
    app.scroll_timeline(10_000);
    assert_eq!(app.timeline_start_minute, 1_380);
    app.scroll_timeline(-10_000);
    assert_eq!(app.timeline_start_minute, 0);
}

#[test]
fn shown_events_are_in_order() {
    let mut app = app();
    app.view = View::Agenda;
    let events = app.visible_events();
    assert!(events.len() >= 2);
    for pair in events.windows(2) {
        assert!((pair[0].start, pair[0].end) <= (pair[1].start, pair[1].end));
    }
}

#[test]
fn a_state_of_the_backend_touches_nothing_else() {
    let mut app = app();
    let (mode, selected) = (app.mode, app.selected_event);
    app.apply_update(WorkerUpdate::BackendState(BackendState::Restarting));
    assert_eq!(app.backend_state, BackendState::Restarting);
    assert_eq!((app.mode, app.selected_event), (mode, selected));
}

#[test]
fn a_form_is_saved_once() {
    let mut app = app();
    app.begin_new_form();
    app.form.as_mut().unwrap().title = "Once".into();
    assert!(matches!(app.save_form(), Some(WorkerCommand::Create(_))));
    assert_eq!(app.mutation_state, MutationState::Saving);
    assert!(app.save_form().is_none());
}

#[test]
fn a_change_is_read_again_with_its_surroundings() {
    let interval = (at("2026-09-10T09:00:00Z"), at("2026-09-10T10:00:00Z"));
    let created = MutationEffect::Created { event_id: "a".into(), interval };
    let Work::RefreshRanges(requests) = refresh_mutation_effect(&created) else {
        panic!("a new event is read again");
    };
    assert_eq!(requests.len(), 1);
    assert_eq!(requests[0].start, at("2026-09-09T09:00:00Z"));
    assert_eq!(requests[0].end, at("2026-09-11T10:00:00Z"));

    let deleted = MutationEffect::Deleted {
        event_id: "a".into(),
        interval,
        recurrence_scope: Some(RecurrenceMutationScope::FutureEvents),
    };
    let Work::ReadCoverage { from, intervals } = refresh_mutation_effect(&deleted) else {
        panic!("later events are read again as far as they are loaded");
    };
    assert_eq!(from, interval.0);
    assert_eq!(intervals, vec![interval]);
}

#[test]
fn changes_carry_their_session() {
    let event = EventDraft::new("work".into(), date(2026, 9, 10));
    let step = begin(WorkerCommand::CreateWithSession { session: 7, event });
    assert!(matches!(step.updates[..], [WorkerUpdate::MutationSavingFor(7)]));
    assert!(matches!(step.work, Work::CreateEvent { session: Some(7), .. }));
    let step = begin(WorkerCommand::DeleteWithSession {
        session: 8,
        event_id: "a".into(),
        span: EventSpan::ThisEvent,
        recurrence_scope: None,
    });
    assert!(matches!(step.updates[..], [WorkerUpdate::MutationSavingFor(8)]));
    assert!(matches!(step.work, Work::FindDeleted(job) if job.session == Some(8)));
}

#[test]
fn slots_are_minutes_of_the_day() {
    let day = date(2026, 9, 10);
    let geometry = TimelineHitGeometry {
        day_columns: vec![CalendarDayColumn { date: day, rect: ScreenRect::new(0, 0, 10, 10) }],
        all_day_area: None,
        timed_area: ScreenRect::new(0, 0, 10, 10),
        viewport: TimelineViewport { start_minute: 1_380, minutes_per_row: 30, rows: 10 },
        event_regions: vec![],
    };
    assert_eq!(
        geometry.hit_test(3, 1),
        CalendarHitTarget::TimedSlot { date: day, minute: 1_410 }
    );
    assert_eq!(geometry.hit_test(3, 2), CalendarHitTarget::OutsideCalendar);
}

#[test]
fn overlapping_items_stand_side_by_side() {
    let item = |event_index, start_minute, end_minute| TimelineItem {
        event_index,
        start_minute,
        end_minute,
    };
    let placed = layout_overlaps(&vec![item(0, 0, 60), item(1, 30, 90), item(2, 60, 120)]);
    assert_eq!(placed.iter().map(|place| place.column).collect::<Vec<_>>(), vec![0, 1, 0]);
    assert!(placed.iter().all(|place| place.columns == 2));
}

#[test]
fn field_steps_cancel() {
    let calendars = MockBackend::seeded().calendars();
    let mut form = EventForm::new(0, &calendars, date(2026, 9, 10), 540, 60);
    for _ in 0..form.visible_fields().len() {
        let field = form.field();
        form.next_field();
        assert_ne!(form.field(), field);
        form.previous_field();
        assert_eq!(form.field(), field);
        form.next_field();
    }
}

#[test]
fn calendar_steps_pass_over_those_that_cannot_be_written_to() {
    let calendars = MockBackend::seeded().calendars();
    assert!(!calendars[2].is_writable);
    let mut form = EventForm::new(1, &calendars, date(2026, 9, 10), 540, 60);
    form.next_field();
    form.adjust(1, &calendars);
    assert_eq!(form.calendar_index, 3);
    form.adjust(-1, &calendars);
    assert_eq!(form.calendar_index, 1);
}

#[test]
fn offsets_are_shown_as_they_are_read() {
    for seconds in [0, -60, -900, -3_600, -5_400, -86_400, -604_800] {
        assert_eq!(
            parse_relative_alarm_duration(&relative_duration_text(seconds)),
            Ok(seconds)
        );
    }
    assert_eq!(relative_duration_text(-5_400), "90m");
    assert_eq!(relative_duration_text(-86_400), "1d");
}

#[test]
fn weekday_steps_cancel_and_letters_read_back() {
    for index in 0..7 {
        let day = WeekdayCursor::from_index(index);
        assert_eq!(day.move_by(1).move_by(-1), day);
        assert_eq!(WeekdayCursor::from_code(day.code()), Some(day));
    }
    assert_eq!(WeekdayCursor::from_index(6).move_by(1), WeekdayCursor::from_index(0));
}

#[test]
fn written_rules_read_back() {
    for rule in [
        rule(RecurrenceFrequency::Daily, 1, &[]),
        rule(RecurrenceFrequency::Weekly, 2, &["MO", "FR"]),
        rule(RecurrenceFrequency::Yearly, 4_000_000_000, &[]),
    ] {
        let rules = vec![rule];
        assert_eq!(parse_recurrence(&format_recurrence(&rules)), Ok(rules));
    }
    assert_eq!(format_recurrence(&vec![]), "none");
    assert_eq!(parse_recurrence("none"), Ok(vec![]));
    assert!(parse_recurrence("hourly").is_err());
    assert!(parse_recurrence("daily:x").is_err());
    assert_eq!(
        parse_recurrence("daily:0"),
        Err("Repeat interval must be at least 1".to_string())
    );
}

#[test]
fn rules_that_the_editor_does_not_know_are_kept() {
    let rules = vec![
        rule(RecurrenceFrequency::Daily, 1, &[]),
        rule(RecurrenceFrequency::Weekly, 1, &["TU"]),
    ];
    let state = RecurrenceEditorState::from_rules(&rules);
    assert_eq!(state.to_rules(date(2026, 9, 10)), Ok(rules));
}

#[test]
fn end_modes_are_stepped_through_in_a_circle() {
    let mut data = RecurrenceEditorData::from_rule(rule(RecurrenceFrequency::Daily, 1, &[]));
    assert_eq!(data.end_mode, RecurrenceEndMode::Never);
    data.cycle_end_mode(1);
    assert_eq!(data.end_mode, RecurrenceEndMode::OnDate);
    data.cycle_end_mode(1);
    assert_eq!(data.end_mode, RecurrenceEndMode::AfterOccurrences);
    data.cycle_end_mode(1);
    assert_eq!(data.end_mode, RecurrenceEndMode::Never);
    data.cycle_end_mode(-1);
    assert_eq!(data.end_mode, RecurrenceEndMode::AfterOccurrences);
}

#[test]
fn undo_restores_the_event() {
    let mut backend = MockBackend::seeded();
    let snapshot = |backend: &MockBackend| Snapshot {
        calendars: backend.calendars(),
        events: backend.events(at("2000-01-01T00:00:00Z"), at("2100-01-01T00:00:00Z"), &vec![]),
        ..Snapshot::default()
    };
    let mut app = App::new(Config::default(), snapshot(&backend));
    app.view = View::Day;
    let find = |app: &App| {
        app.snapshot.events.iter().find(|event| event.id == "mock-review").unwrap().clone()
    };
    let before = find(&app);
    let target = EventMoveTarget::Timed {
        start: before.start.plus_seconds(3_600),
        end: before.end.plus_seconds(3_600),
    };
    let mut command = app.move_event("mock-review", target).unwrap();
    for _ in 0..2 {
        app.note_dispatched_mutation(&command);
        let WorkerCommand::Update(draft, span, scope, alarms, time) = command else {
            panic!("a move is an update");
        };
        let updated = backend.update_event(draft, span, alarms, time).unwrap();
        app.apply_update(WorkerUpdate::MutationSucceeded(MutationEffect::Updated {
            event_id: updated.id.clone(),
            before_interval: (before.start, before.end),
            after_interval: (updated.start, updated.end),
            recurrence_scope: scope,
        }));
        app.apply_update(WorkerUpdate::Snapshot(snapshot(&backend)));
        command = match app.execute_action(UserAction::Undo) {
            Some(command) => command,
            None => break,
        };
    }
    assert_eq!(find(&app), before);
}

#[test]
fn an_unchanged_form_keeps_the_event() {
    let backend = MockBackend::seeded();
    let calendars = backend.calendars();
    let event = backend
        .events(at("2000-01-01T00:00:00Z"), at("2100-01-01T00:00:00Z"), &vec![])
        .into_iter()
        .find(|event| event.id == "mock-dinner")
        .unwrap();
    let form = EventForm::from_event(&event, &calendars);
    let (draft, span, alarms) = form.to_draft(&calendars).unwrap();
    assert_eq!(draft.id, event.provider_id);
    assert_eq!(draft.title, event.title);
    assert_eq!(draft.location, event.location);
    assert_eq!(draft.calendar_id, event.calendar_id);
    assert_eq!(draft.time.as_timed_range(), Some((event.start, event.end)));
    assert_eq!(span, EventSpan::ThisEvent);
    assert_eq!(alarms, AlarmMutation::Preserve);
}

#[test]
fn chosen_indices_are_ordered_by_their_keys() {
    let keys = vec![vec![3, 1], vec![1], vec![3], vec![1], vec![2]];
    assert_eq!(
        order_chosen(&keys, &vec![true, true, true, true, false]),
        vec![1, 3, 2, 0]
    );
}
