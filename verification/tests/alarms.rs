//! Alarms and their editor.

use tui_calendar::alarm::{
    AbsoluteResolution, AlarmEditorState, AlarmValidationError, EditableAlarm, PRESET_COUNT,
    absolute_edit_buffers, parse_alarms, resolve_absolute_alarm,
};
use tui_calendar::input::{KeyCode, KeyEvent, KeyModifiers};
use tui_calendar::model::{Alarm, AlarmMutation, TimeZoneProvenance};
use tui_calendar::time::{Timestamp, now, parse_instant};

fn at(text: &str) -> Timestamp {
    parse_instant(text).unwrap()
}

fn key(character: char) -> KeyEvent {
    KeyEvent::new(KeyCode::Char(character), KeyModifiers::none())
}

fn alarm_key(state: &mut AlarmEditorState, key: KeyEvent) -> Result<bool, String> {
    state
        .handle_key(key, "UTC")
        .expect("alarm key should be handled")
}

#[test]
fn parses_relative_and_absolute_alarms() {
    let alarms = parse_alarms("15m, 1d, @2026-09-01T12:00:00Z").unwrap();
    assert_eq!(alarms[0].relative_seconds, Some(-900));
    assert_eq!(alarms[1].relative_seconds, Some(-86400));
    assert!(alarms[2].absolute_date.is_some());
}

#[test]
fn alarm_editor_preserves_unchanged_basic_alarms_and_protects_lossy_forms() {
    let basic = Alarm {
        relative_seconds: Some(-900),
        absolute_date: None,
        is_editable: true,
    };
    let state = AlarmEditorState::from_existing(&vec![basic.clone()]);
    assert_eq!(
        state.draft_alarms_and_mutation(true).unwrap().1,
        AlarmMutation::Preserve
    );

    let non_minute = Alarm {
        relative_seconds: Some(-630),
        absolute_date: None,
        is_editable: true,
    };
    let protected = AlarmEditorState::from_existing(&vec![basic, non_minute]);
    assert!(protected.is_protected());
    assert_eq!(
        protected.draft_alarms_and_mutation(true).unwrap().1,
        AlarmMutation::Preserve
    );

    let absolute = Alarm {
        relative_seconds: None,
        absolute_date: Some(now()),
        is_editable: true,
    };
    assert!(!AlarmEditorState::from_existing(&vec![absolute]).is_protected());
}

#[test]
fn all_day_relative_alarms_are_protected_while_explicit_absolute_is_allowed() {
    for seconds in [0, -900, -86_400] {
        assert!(
            AlarmEditorState::from_event_alarms(
                &vec![Alarm {
                    relative_seconds: Some(seconds),
                    absolute_date: None,
                    is_editable: true
                }],
                true,
                TimeZoneProvenance::ExplicitEvent,
            )
            .is_protected()
        );
    }
    let absolute = Alarm {
        relative_seconds: None,
        absolute_date: Some(now()),
        is_editable: true,
    };
    assert!(
        !AlarmEditorState::from_event_alarms(
            &vec![absolute.clone()],
            true,
            TimeZoneProvenance::ExplicitEvent
        )
        .is_protected()
    );
    assert!(
        AlarmEditorState::from_event_alarms(
            &vec![absolute],
            true,
            TimeZoneProvenance::HelperFallback
        )
        .is_protected()
    );
}

#[test]
fn editable_alarm_round_trips_relative_absolute_and_safe_mixed_collections() {
    let instant = at("2026-09-01T12:00:00Z");
    let relative = Alarm {
        relative_seconds: Some(-900),
        absolute_date: None,
        is_editable: true,
    };
    let absolute = Alarm {
        relative_seconds: None,
        absolute_date: Some(instant),
        is_editable: true,
    };
    assert_eq!(
        EditableAlarm::from_alarm(&relative).unwrap(),
        EditableAlarm::Relative {
            relative_seconds: -900
        }
    );
    assert_eq!(
        EditableAlarm::from_alarm(&relative)
            .unwrap()
            .to_alarm()
            .unwrap(),
        relative
    );
    assert_eq!(
        EditableAlarm::from_alarm(&absolute).unwrap(),
        EditableAlarm::Absolute { date_time: instant }
    );
    assert_eq!(
        EditableAlarm::from_alarm(&absolute)
            .unwrap()
            .to_alarm()
            .unwrap(),
        absolute
    );

    let state = AlarmEditorState::from_existing(&vec![relative.clone(), absolute.clone()]);
    let AlarmEditorState::EditableBasic { data } = &state else {
        panic!("lossless mixed collection must be structurally represented");
    };
    assert_eq!(data.alarms.len(), 2);
    assert_eq!(data.to_alarms().unwrap(), vec![relative, absolute]);
    assert_eq!(
        state.draft_alarms_and_mutation(true).unwrap().1,
        AlarmMutation::Preserve
    );
    assert!(
        state
            .display_in_timezone("UTC")
            .contains("1 Sep 2026, 12:00")
    );
}

#[test]
fn invalid_or_provider_marked_absolute_alarms_remain_protected() {
    let instant = at("2026-09-01T12:00:00Z");
    for alarm in [
        Alarm {
            relative_seconds: Some(-900),
            absolute_date: Some(instant),
            is_editable: true,
        },
        Alarm {
            relative_seconds: None,
            absolute_date: None,
            is_editable: true,
        },
        Alarm {
            relative_seconds: None,
            absolute_date: Some(instant),
            is_editable: false,
        },
    ] {
        assert!(AlarmEditorState::from_existing(&vec![alarm]).is_protected());
    }
}

#[test]
fn changed_absolute_alarm_materializes_replace_without_losing_the_instant() {
    let first = at("2026-09-01T12:00:00Z");
    let second = at("2026-09-02T12:00:00Z");
    let original = Alarm {
        relative_seconds: None,
        absolute_date: Some(first),
        is_editable: true,
    };
    let mut state = AlarmEditorState::from_existing(&vec![original]);
    let AlarmEditorState::EditableBasic { data } = &mut state else {
        panic!("basic absolute alarm should be structurally represented");
    };
    data.alarms[0] = EditableAlarm::Absolute { date_time: second };
    assert_eq!(
        state.draft_alarms_and_mutation(true).unwrap().1,
        AlarmMutation::Replace(vec![Alarm {
            relative_seconds: None,
            absolute_date: Some(second),
            is_editable: true,
        }])
    );
}

#[test]
fn absolute_structural_state_does_not_capture_form_navigation_or_escape() {
    let state = AlarmEditorState::from_existing(&vec![Alarm {
        relative_seconds: None,
        absolute_date: Some(at("2026-09-01T12:00:00Z")),
        is_editable: true,
    }]);
    let mut state = state;
    assert!(
        state
            .handle_key(KeyEvent::new(KeyCode::Tab, KeyModifiers::none()), "UTC")
            .is_none()
    );
    assert!(
        state
            .handle_key(KeyEvent::new(KeyCode::Esc, KeyModifiers::none()), "UTC")
            .is_none()
    );
}

#[test]
fn absolute_alarm_resolution_is_timezone_and_dst_safe() {
    let AbsoluteResolution::Single(instant) =
        resolve_absolute_alarm("2026-09-15", "12:30", "Europe/Berlin").unwrap()
    else {
        panic!("ordinary time must resolve once")
    };
    assert_eq!(
        absolute_edit_buffers(instant, "Europe/Berlin").unwrap(),
        ("2026-09-15".into(), "12:30".into())
    );
    assert_eq!(
        resolve_absolute_alarm("2026-03-29", "02:30", "Europe/Berlin"),
        Err(AlarmValidationError::NonexistentLocalTime)
    );
    let AbsoluteResolution::Ambiguous(first, second) =
        resolve_absolute_alarm("2026-10-25", "02:30", "Europe/Berlin").unwrap()
    else {
        panic!("fall-back time must require a choice")
    };
    assert_ne!(first, second);
}

#[test]
fn alarm_editor_add_edit_delete_and_custom_values_are_structured() {
    let basic = Alarm {
        relative_seconds: Some(-900),
        absolute_date: None,
        is_editable: true,
    };
    let mut state = AlarmEditorState::from_existing(&vec![basic]);

    // Edit 15m to 30m, then add a custom 45m alarm through the same
    // canonical parser Quick Add already uses.
    assert!(
        !alarm_key(
            &mut state,
            KeyEvent::new(KeyCode::Enter, KeyModifiers::none())
        )
        .unwrap()
    );
    for character in "\x7f\x7f\x7f30m".chars() {
        let code = if character == '\x7f' {
            KeyCode::Backspace
        } else {
            KeyCode::Char(character)
        };
        alarm_key(&mut state, KeyEvent::new(code, KeyModifiers::none())).unwrap();
    }
    assert!(
        alarm_key(
            &mut state,
            KeyEvent::new(KeyCode::Enter, KeyModifiers::none())
        )
        .unwrap()
    );
    assert!(!alarm_key(&mut state, key('a')).unwrap());
    for _ in 0..(PRESET_COUNT - 1) {
        alarm_key(&mut state, key('j')).unwrap();
    }
    assert!(
        !alarm_key(
            &mut state,
            KeyEvent::new(KeyCode::Enter, KeyModifiers::none())
        )
        .unwrap()
    );
    for character in "45m".chars() {
        alarm_key(&mut state, key(character)).unwrap();
    }
    assert!(
        alarm_key(
            &mut state,
            KeyEvent::new(KeyCode::Enter, KeyModifiers::none())
        )
        .unwrap()
    );
    let (alarms, mutation) = state.draft_alarms_and_mutation(true).unwrap();
    assert_eq!(
        alarms
            .iter()
            .map(|alarm| alarm.relative_seconds)
            .collect::<Vec<_>>(),
        vec![Some(-1800), Some(-2700)]
    );
    assert_eq!(mutation, AlarmMutation::Replace(alarms));

    // Delete both entries: this is an intentional clear, not Preserve.
    assert!(alarm_key(&mut state, key('d')).unwrap());
    assert!(alarm_key(&mut state, key('d')).unwrap());
    assert_eq!(
        state.draft_alarms_and_mutation(true).unwrap().1,
        AlarmMutation::Replace(vec![])
    );
}

#[test]
fn alarm_editor_preserves_semantically_restored_sets_and_rejects_invalid_custom_input() {
    let original = Alarm {
        relative_seconds: Some(-900),
        absolute_date: None,
        is_editable: true,
    };
    let mut state = AlarmEditorState::from_existing(&vec![original]);
    alarm_key(
        &mut state,
        KeyEvent::new(KeyCode::Enter, KeyModifiers::none()),
    )
    .unwrap();
    for character in "\x7f\x7f\x7f30m".chars() {
        let code = if character == '\x7f' {
            KeyCode::Backspace
        } else {
            KeyCode::Char(character)
        };
        alarm_key(&mut state, KeyEvent::new(code, KeyModifiers::none())).unwrap();
    }
    alarm_key(
        &mut state,
        KeyEvent::new(KeyCode::Enter, KeyModifiers::none()),
    )
    .unwrap();
    alarm_key(
        &mut state,
        KeyEvent::new(KeyCode::Enter, KeyModifiers::none()),
    )
    .unwrap();
    for character in "\x7f\x7f\x7f15m".chars() {
        let code = if character == '\x7f' {
            KeyCode::Backspace
        } else {
            KeyCode::Char(character)
        };
        alarm_key(&mut state, KeyEvent::new(code, KeyModifiers::none())).unwrap();
    }
    alarm_key(
        &mut state,
        KeyEvent::new(KeyCode::Enter, KeyModifiers::none()),
    )
    .unwrap();
    assert_eq!(
        state.draft_alarms_and_mutation(true).unwrap().1,
        AlarmMutation::Preserve
    );

    let mut empty = AlarmEditorState::from_existing(&vec![]);
    alarm_key(&mut empty, key('a')).unwrap();
    for _ in 0..(PRESET_COUNT - 1) {
        alarm_key(&mut empty, key('j')).unwrap();
    }
    alarm_key(
        &mut empty,
        KeyEvent::new(KeyCode::Enter, KeyModifiers::none()),
    )
    .unwrap();
    for character in "nonsense".chars() {
        alarm_key(&mut empty, key(character)).unwrap();
    }
    assert!(
        alarm_key(
            &mut empty,
            KeyEvent::new(KeyCode::Enter, KeyModifiers::none())
        )
        .is_err()
    );
    assert!(
        empty
            .display_in_timezone("UTC")
            .contains("Custom: nonsense")
    );
}
