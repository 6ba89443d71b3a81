//! Events that repeat.

use tui_calendar::app::{App, Mode};
use tui_calendar::config::Config;
use tui_calendar::event_form::{EventForm, FormField};
use tui_calendar::input::{KeyCode, KeyEvent, KeyModifiers};
use tui_calendar::model::{
    CalendarInfo, CalendarPermissions, RecurrenceFrequency, RecurrenceRule, Snapshot,
};
use tui_calendar::recurrence::{
    RecurrenceEditorData, RecurrenceEditorState, RecurrenceEndMode, RecurrenceValidationError,
    humanize_recurrence, parse_recurrence,
};
use tui_calendar::time::{Date, local_today, parse_iso_date};

fn date(year: i32, month: u32, day: u32) -> Date {
    parse_iso_date(&format!("{year:04}-{month:02}-{day:02}")).unwrap()
}

#[test]
fn parses_native_recurrence_description() {
    let rule = parse_recurrence("weekly:2:TU,TH").unwrap().remove(0);
    assert_eq!(rule.frequency, RecurrenceFrequency::Weekly);
    assert_eq!(rule.interval, 2);
    assert_eq!(rule.days_of_week, ["TU", "TH"]);
}

#[test]
fn describes_weekly_recurrence_for_details() {
    let rule = parse_recurrence("weekly:2:TU,TH").unwrap();
    assert_eq!(
        humanize_recurrence(&rule),
        "Repeats every 2 weeks on Tuesday, Thursday"
    );
}

#[test]
fn recurrence_end_fields_follow_structured_state_and_keep_cursor_valid() {
    let calendars = vec![CalendarInfo {
        id: "work".into(),
        source_id: "mock-work".into(),
        permissions: CalendarPermissions::default(),
        title: "Work".into(),
        account: String::new(),
        provider: String::new(),
        color: "#336699".into(),
        is_writable: true,
        enabled: true,
    }];
    let mut form = EventForm::new(0, &calendars, local_today(), 9 * 60, 60);
    let rule = RecurrenceRule {
        frequency: RecurrenceFrequency::Weekly,
        interval: 1,
        days_of_week: vec!["MO".into()],
        occurrence_count: None,
        end_date: None,
    };
    form.recurrence = RecurrenceEditorState::Structured(RecurrenceEditorData::from_rule(rule));

    let fields = form.visible_fields();
    assert!(fields.contains(&FormField::Weekdays));
    assert!(fields.contains(&FormField::RecurrenceEnds));
    assert!(!fields.contains(&FormField::RecurrenceEndDate));
    assert!(!fields.contains(&FormField::RecurrenceOccurrences));

    let RecurrenceEditorState::Structured(data) = &mut form.recurrence else {
        unreachable!();
    };
    data.end_mode = RecurrenceEndMode::OnDate;
    let fields = form.visible_fields();
    assert!(fields.contains(&FormField::Weekdays));
    assert!(fields.contains(&FormField::RecurrenceEndDate));
    assert!(!fields.contains(&FormField::RecurrenceOccurrences));
    form.selected = fields
        .iter()
        .position(|field| *field == FormField::RecurrenceEndDate)
        .unwrap();

    let RecurrenceEditorState::Structured(data) = &mut form.recurrence else {
        unreachable!();
    };
    data.end_mode = RecurrenceEndMode::Never;
    form.normalize_cursor();
    let fields = form.visible_fields();
    assert!(form.selected < fields.len());
    assert_ne!(form.field(), FormField::RecurrenceEndDate);

    let RecurrenceEditorState::Structured(data) = &mut form.recurrence else {
        unreachable!();
    };
    data.end_mode = RecurrenceEndMode::AfterOccurrences;
    let fields = form.visible_fields();
    assert!(fields.contains(&FormField::RecurrenceOccurrences));
    assert!(!fields.contains(&FormField::RecurrenceEndDate));

    let RecurrenceEditorState::Structured(data) = &mut form.recurrence else {
        unreachable!();
    };
    data.end_mode = RecurrenceEndMode::InvalidExisting;
    let fields = form.visible_fields();
    assert!(fields.contains(&FormField::RecurrenceEnds));
    assert!(!fields.contains(&FormField::RecurrenceEndDate));
    assert!(!fields.contains(&FormField::RecurrenceOccurrences));

    form.recurrence = RecurrenceEditorState::Unsupported {
        original_rules: Vec::new(),
        summary: "Custom recurrence".into(),
    };
    let fields = form.visible_fields();
    assert!(!fields.contains(&FormField::RecurrenceEnds));
    assert!(!fields.contains(&FormField::RecurrenceEndDate));
    assert!(!fields.contains(&FormField::RecurrenceOccurrences));
}

#[test]
fn recurrence_end_mode_cycles_without_mutating_the_rule_or_buffers() {
    let rule = RecurrenceRule {
        frequency: RecurrenceFrequency::Daily,
        interval: 1,
        days_of_week: vec![],
        occurrence_count: None,
        end_date: None,
    };
    let mut data = RecurrenceEditorData::from_rule(rule);
    data.end_date_buffer = "2030-01-31".into();
    data.occurrence_count_buffer = "12".into();

    data.cycle_end_mode(1);
    assert_eq!(data.end_mode, RecurrenceEndMode::OnDate);
    data.cycle_end_mode(1);
    assert_eq!(data.end_mode, RecurrenceEndMode::AfterOccurrences);
    data.cycle_end_mode(1);
    assert_eq!(data.end_mode, RecurrenceEndMode::Never);
    assert_eq!(data.end_date_buffer, "2030-01-31");
    assert_eq!(data.occurrence_count_buffer, "12");
    assert_eq!(data.rule.end_date, None);
    assert_eq!(data.rule.occurrence_count, None);

    data.end_mode = RecurrenceEndMode::InvalidExisting;
    data.cycle_end_mode(1);
    assert_eq!(data.end_mode, RecurrenceEndMode::Never);
    data.end_mode = RecurrenceEndMode::InvalidExisting;
    data.cycle_end_mode(-1);
    assert_eq!(data.end_mode, RecurrenceEndMode::AfterOccurrences);
}

#[test]
fn changing_ends_marks_the_form_dirty_but_navigation_does_not() {
    let calendar = CalendarInfo {
        id: "work".into(),
        source_id: "mock-work".into(),
        permissions: CalendarPermissions::default(),
        title: "Work".into(),
        account: String::new(),
        provider: String::new(),
        color: "#336699".into(),
        is_writable: true,
        enabled: true,
    };
    let mut app = App::new(
        Config::default(),
        Snapshot {
            calendars: vec![calendar],
            ..Snapshot::default()
        },
    );
    let mut form = EventForm::new(0, &app.snapshot.calendars, app.active_date, 9 * 60, 60);
    form.recurrence =
        RecurrenceEditorState::Structured(RecurrenceEditorData::from_rule(RecurrenceRule {
            frequency: RecurrenceFrequency::Daily,
            interval: 1,
            days_of_week: vec![],
            occurrence_count: None,
            end_date: None,
        }));
    form.selected = form
        .visible_fields()
        .iter()
        .position(|field| *field == FormField::RecurrenceEnds)
        .unwrap();
    app.form = Some(form);
    app.mode = Mode::Form;

    app.handle_key(KeyEvent::new(KeyCode::Right, KeyModifiers::none()));
    assert!(app.form_dirty);
    assert!(
        app.form
            .as_ref()
            .unwrap()
            .visible_fields()
            .contains(&FormField::RecurrenceEndDate)
    );

    app.form_dirty = false;
    app.handle_key(KeyEvent::new(KeyCode::Tab, KeyModifiers::none()));
    assert!(!app.form_dirty);
    app.handle_key(KeyEvent::new(KeyCode::Char('2'), KeyModifiers::none()));
    assert!(app.form_dirty);

    app.handle_key(KeyEvent::new(KeyCode::BackTab, KeyModifiers::none()));
    app.handle_key(KeyEvent::new(KeyCode::Right, KeyModifiers::none()));
    app.handle_key(KeyEvent::new(KeyCode::Tab, KeyModifiers::none()));
    assert_eq!(
        app.form.as_ref().unwrap().field(),
        FormField::RecurrenceOccurrences
    );
    app.form_dirty = false;
    app.handle_key(KeyEvent::new(KeyCode::Char('1'), KeyModifiers::none()));
    assert!(app.form_dirty);
}

#[test]
fn end_date_buffer_validates_without_mutating_the_recurrence_rule() {
    let calendar = CalendarInfo {
        id: "work".into(),
        source_id: "mock-work".into(),
        permissions: CalendarPermissions::default(),
        title: "Work".into(),
        account: String::new(),
        provider: String::new(),
        color: "#336699".into(),
        is_writable: true,
        enabled: true,
    };
    let mut form = EventForm::new(
        0,
        &vec![calendar],
        date(2026, 12, 1),
        9 * 60,
        60,
    );
    form.recurrence =
        RecurrenceEditorState::Structured(RecurrenceEditorData::from_rule(RecurrenceRule {
            frequency: RecurrenceFrequency::Daily,
            interval: 1,
            days_of_week: vec![],
            occurrence_count: None,
            end_date: None,
        }));
    let RecurrenceEditorState::Structured(data) = &mut form.recurrence else {
        unreachable!();
    };
    data.end_mode = RecurrenceEndMode::OnDate;
    form.selected = form
        .visible_fields()
        .iter()
        .position(|field| *field == FormField::RecurrenceEndDate)
        .unwrap();

    for character in "2026-12-".chars() {
        form.push(character);
    }
    let RecurrenceEditorState::Structured(data) = &form.recurrence else {
        unreachable!();
    };
    assert_eq!(data.end_date_buffer, "2026-12-");
    assert_eq!(data.validated_end_date, None);
    assert_eq!(data.rule.end_date, None);

    for character in "31".chars() {
        form.push(character);
    }
    let RecurrenceEditorState::Structured(data) = &form.recurrence else {
        unreachable!();
    };
    assert_eq!(
        data.validated_end_date,
        Some(date(2026, 12, 31))
    );
    assert_eq!(data.rule.end_date, None);
    assert_eq!(form.value(&vec![]), "2026-12-31");
    assert!(form.recurrence.summary().contains("Until 31 Dec 2026"));
}

#[test]
fn invalid_or_early_end_date_stays_buffered_and_is_rejected_on_save() {
    let calendar = CalendarInfo {
        id: "work".into(),
        source_id: "mock-work".into(),
        permissions: CalendarPermissions::default(),
        title: "Work".into(),
        account: String::new(),
        provider: String::new(),
        color: "#336699".into(),
        is_writable: true,
        enabled: true,
    };
    let mut form = EventForm::new(
        0,
        &vec![calendar.clone()],
        date(2026, 12, 1),
        9 * 60,
        60,
    );
    form.title = "Planning".into();
    form.recurrence =
        RecurrenceEditorState::Structured(RecurrenceEditorData::from_rule(RecurrenceRule {
            frequency: RecurrenceFrequency::Daily,
            interval: 1,
            days_of_week: vec![],
            occurrence_count: None,
            end_date: None,
        }));
    let RecurrenceEditorState::Structured(data) = &mut form.recurrence else {
        unreachable!();
    };
    data.end_mode = RecurrenceEndMode::OnDate;
    form.selected = form
        .visible_fields()
        .iter()
        .position(|field| *field == FormField::RecurrenceEndDate)
        .unwrap();

    for character in "2026-02-30".chars() {
        form.push(character);
    }
    let RecurrenceEditorState::Structured(data) = &form.recurrence else {
        unreachable!();
    };
    assert_eq!(data.validated_end_date, None);
    assert_eq!(data.end_date_buffer, "2026-02-30");

    for _ in 0..10 {
        form.backspace();
    }
    for character in "2026-11-30".chars() {
        form.push(character);
    }
    let RecurrenceEditorState::Structured(data) = &form.recurrence else {
        unreachable!();
    };
    assert_eq!(data.validated_end_date, None);
    assert_eq!(data.end_date_buffer, "2026-11-30");
    assert!(form.to_draft(&vec![calendar]).is_err());
}

#[test]
fn switching_end_modes_preserves_the_end_date_buffer() {
    let mut data = RecurrenceEditorData::from_rule(RecurrenceRule {
        frequency: RecurrenceFrequency::Daily,
        interval: 1,
        days_of_week: vec![],
        occurrence_count: None,
        end_date: None,
    });
    data.end_mode = RecurrenceEndMode::OnDate;
    data.end_date_buffer = "2026-12-31".into();
    data.refresh_end_date_validation(date(2026, 12, 1));

    data.cycle_end_mode(1);
    assert_eq!(data.end_mode, RecurrenceEndMode::AfterOccurrences);
    data.cycle_end_mode(1);
    assert_eq!(data.end_mode, RecurrenceEndMode::Never);
    data.cycle_end_mode(1);
    assert_eq!(data.end_mode, RecurrenceEndMode::OnDate);
    assert_eq!(data.end_date_buffer, "2026-12-31");
    assert_eq!(
        data.validated_end_date,
        Some(date(2026, 12, 31))
    );
}

#[test]
fn occurrence_buffer_validates_without_mutating_the_recurrence_rule() {
    let calendar = CalendarInfo {
        id: "work".into(),
        source_id: "mock-work".into(),
        permissions: CalendarPermissions::default(),
        title: "Work".into(),
        account: String::new(),
        provider: String::new(),
        color: "#336699".into(),
        is_writable: true,
        enabled: true,
    };
    let mut form = EventForm::new(0, &vec![calendar], local_today(), 9 * 60, 60);
    form.recurrence =
        RecurrenceEditorState::Structured(RecurrenceEditorData::from_rule(RecurrenceRule {
            frequency: RecurrenceFrequency::Daily,
            interval: 1,
            days_of_week: vec![],
            occurrence_count: None,
            end_date: None,
        }));
    let RecurrenceEditorState::Structured(data) = &mut form.recurrence else {
        unreachable!();
    };
    data.end_mode = RecurrenceEndMode::AfterOccurrences;
    form.selected = form
        .visible_fields()
        .iter()
        .position(|field| *field == FormField::RecurrenceOccurrences)
        .unwrap();

    form.push('1');
    let RecurrenceEditorState::Structured(data) = &form.recurrence else {
        unreachable!();
    };
    assert_eq!(data.validated_occurrence_count, Some(1));
    assert_eq!(data.rule.occurrence_count, None);

    form.push('0');
    let RecurrenceEditorState::Structured(data) = &form.recurrence else {
        unreachable!();
    };
    assert_eq!(data.occurrence_count_buffer, "10");
    assert_eq!(data.validated_occurrence_count, Some(10));
    assert_eq!(data.rule.occurrence_count, None);
    assert_eq!(form.value(&vec![]), "10");
    assert!(form.recurrence.summary().contains("For 10 occurrences"));
}

#[test]
fn invalid_occurrence_counts_stay_buffered_and_are_rejected_on_save() {
    let calendar = CalendarInfo {
        id: "work".into(),
        source_id: "mock-work".into(),
        permissions: CalendarPermissions::default(),
        title: "Work".into(),
        account: String::new(),
        provider: String::new(),
        color: "#336699".into(),
        is_writable: true,
        enabled: true,
    };
    for value in ["", "0", "-1", "abc"] {
        let mut form = EventForm::new(
            0,
            &vec![calendar.clone()],
            local_today(),
            9 * 60,
            60,
        );
        form.title = "Planning".into();
        form.recurrence = RecurrenceEditorState::Structured(RecurrenceEditorData::from_rule(
            RecurrenceRule {
                frequency: RecurrenceFrequency::Daily,
                interval: 1,
                days_of_week: vec![],
                occurrence_count: None,
                end_date: None,
            },
        ));
        let RecurrenceEditorState::Structured(data) = &mut form.recurrence else {
            unreachable!();
        };
        data.end_mode = RecurrenceEndMode::AfterOccurrences;
        form.selected = form
            .visible_fields()
            .iter()
            .position(|field| *field == FormField::RecurrenceOccurrences)
            .unwrap();
        for character in value.chars() {
            form.push(character);
        }
        let RecurrenceEditorState::Structured(data) = &form.recurrence else {
            unreachable!();
        };
        assert_eq!(data.occurrence_count_buffer, value);
        assert_eq!(data.validated_occurrence_count, None);
        assert!(form.to_draft(&vec![calendar.clone()]).is_err());
    }
}

#[test]
fn switching_end_modes_preserves_the_occurrence_buffer() {
    let mut data = RecurrenceEditorData::from_rule(RecurrenceRule {
        frequency: RecurrenceFrequency::Weekly,
        interval: 2,
        days_of_week: vec!["MO".into()],
        occurrence_count: None,
        end_date: None,
    });
    data.end_mode = RecurrenceEndMode::AfterOccurrences;
    data.occurrence_count_buffer = "5".into();
    data.refresh_occurrence_count_validation();

    data.cycle_end_mode(-1);
    assert_eq!(data.end_mode, RecurrenceEndMode::OnDate);
    data.cycle_end_mode(1);
    assert_eq!(data.end_mode, RecurrenceEndMode::AfterOccurrences);
    assert_eq!(data.occurrence_count_buffer, "5");
    assert_eq!(data.validated_occurrence_count, Some(5));
}

#[test]
fn recurrence_save_conversion_materializes_each_end_condition() {
    let start = date(2026, 12, 1);
    let base = RecurrenceRule {
        frequency: RecurrenceFrequency::Weekly,
        interval: 2,
        days_of_week: vec!["MO".into(), "WE".into()],
        occurrence_count: None,
        end_date: None,
    };

    let data = RecurrenceEditorData::from_rule(base.clone());
    assert_eq!(data.to_rule(start).unwrap(), base);

    let mut until = RecurrenceEditorData::from_rule(base.clone());
    until.end_mode = RecurrenceEndMode::OnDate;
    until.end_date_buffer = "2026-12-31".into();
    let rule = until.to_rule(start).unwrap();
    assert_eq!(rule.interval, 2);
    assert_eq!(rule.days_of_week, ["MO", "WE"]);
    assert_eq!(rule.occurrence_count, None);
    assert_eq!(
        rule.end_date.unwrap().utc_date(),
        date(2026, 12, 31)
    );

    let mut count = RecurrenceEditorData::from_rule(base);
    count.end_mode = RecurrenceEndMode::AfterOccurrences;
    count.occurrence_count_buffer = "10".into();
    let rule = count.to_rule(start).unwrap();
    assert_eq!(rule.occurrence_count, Some(10));
    assert_eq!(rule.end_date, None);
}

#[test]
fn recurrence_save_conversion_rejects_invalid_buffers_and_existing_conflicts() {
    let start = date(2026, 12, 1);
    let base = RecurrenceRule {
        frequency: RecurrenceFrequency::Daily,
        interval: 1,
        days_of_week: vec![],
        occurrence_count: None,
        end_date: None,
    };
    let mut date = RecurrenceEditorData::from_rule(base.clone());
    date.end_mode = RecurrenceEndMode::OnDate;
    for buffer in ["", "2026-", "2026-02-30"] {
        date.end_date_buffer = buffer.into();
        assert_eq!(
            date.to_rule(start),
            Err(RecurrenceValidationError::InvalidEndDate)
        );
    }
    date.end_date_buffer = "2026-11-30".into();
    assert_eq!(
        date.to_rule(start),
        Err(RecurrenceValidationError::EndDateBeforeStart)
    );

    let mut count = RecurrenceEditorData::from_rule(base.clone());
    count.end_mode = RecurrenceEndMode::AfterOccurrences;
    for buffer in ["", "0", "abc"] {
        count.occurrence_count_buffer = buffer.into();
        assert_eq!(
            count.to_rule(start),
            Err(RecurrenceValidationError::InvalidOccurrenceCount)
        );
    }
    let mut invalid_existing = RecurrenceEditorData::from_rule(base);
    invalid_existing.end_mode = RecurrenceEndMode::InvalidExisting;
    assert_eq!(
        invalid_existing.to_rule(start),
        Err(RecurrenceValidationError::InvalidExistingEndCondition)
    );
}

#[test]
fn recurrence_state_preserves_existing_and_unsupported_rules_on_save() {
    let start = date(2026, 12, 1);
    let existing = RecurrenceRule {
        frequency: RecurrenceFrequency::Weekly,
        interval: 2,
        days_of_week: vec!["MO".into(), "WE".into()],
        occurrence_count: Some(5),
        end_date: None,
    };
    let state = RecurrenceEditorState::from_rules(&vec![existing.clone()]);
    assert_eq!(state.to_rules(start).unwrap(), vec![existing.clone()]);

    let unsupported = vec![existing.clone(), existing];
    let state = RecurrenceEditorState::from_rules(&unsupported);
    assert_eq!(state.to_rules(start).unwrap(), unsupported);
}
