//! The helper: what it writes, how requests end, and where it is.

use tui_calendar::backend::eventkit::{
    create_event_payload, decode_message, ending_states, error_from_code, installed_service_path,
    legacy_update_event_payload, read_event, reconnect_delay, repeatable_connection_error,
    service_not_found, service_search_paths, sibling_development_service_path, understand,
    unreadable_reply, IncomingMessage, Outcome, ReaderAction, ReaderEvent, Requests, WireError,
    WireMessage,
};
use tui_calendar::backend::{
    resolve_service, BackendError, BackendState, OfflineBackend, ProtocolError,
    IPC_PROTOCOL_VERSION,
};
use tui_calendar::model::{CalendarError, EventDraft, EventTimeInput};
use tui_calendar::time::{parse_instant, parse_iso_date, Date, Timestamp};

fn date(year: i32, month: u32, day: u32) -> Date {
    parse_iso_date(&format!("{year:04}-{month:02}-{day:02}")).unwrap()
}

fn at(text: &str) -> Timestamp {
    parse_instant(text).unwrap()
}

fn reply_error(line: &str) -> BackendError {
    match decode_message(line) {
        Ok(IncomingMessage::Response { id: 1, result: Err(error) }) => error,
        other => panic!("an error reply was expected: {other:?}"),
    }
}

fn failure(code: &str) -> String {
    format!("{{\"protocol\":2,\"id\":1,\"error\":{{\"code\":\"{code}\",\"message\":\"opaque\"}}}}")
}

#[test]
fn explicit_helper_path_wins_when_present() {
    let paths = service_search_paths(Some("/opt/helper".into()), Some("/env/helper".into()), None);
    let found = vec![true; paths.len()];
    assert_eq!(resolve_service(&paths, &found), Some("/opt/helper".to_string()));
    let mut found = found;
    found[0] = false;
    assert_eq!(resolve_service(&paths, &found), Some("/env/helper".to_string()));
    let none = vec![false; paths.len()];
    assert_eq!(resolve_service(&paths, &none), None);
}

#[test]
fn homebrew_style_runtime_layout_resolves_to_the_sibling_libexec_helper() {
    assert_eq!(
        installed_service_path("/opt/homebrew/bin/tui-calendar"),
        Some("/opt/homebrew/libexec/tui-calendar/tui-calendar-service".to_string())
    );
    assert_eq!(
        installed_service_path("/bin/tui-calendar"),
        Some("/libexec/tui-calendar/tui-calendar-service".to_string())
    );
    assert_eq!(
        installed_service_path("bin/tui-calendar"),
        Some("libexec/tui-calendar/tui-calendar-service".to_string())
    );
    assert_eq!(installed_service_path("/tui-calendar"), None);
    assert_eq!(installed_service_path(""), None);
}

#[test]
fn make_build_layout_resolves_to_the_release_binary_sibling_helper() {
    assert_eq!(
        sibling_development_service_path("/src/target/release/tui-calendar"),
        Some("/src/target/release/tui-calendar-service".to_string())
    );
    assert_eq!(
        sibling_development_service_path("tui-calendar"),
        Some("tui-calendar-service".to_string())
    );
    assert_eq!(
        sibling_development_service_path("/src/./target//tui-calendar/"),
        Some("/src/./target/tui-calendar-service".to_string())
    );
    assert_eq!(
        sibling_development_service_path("./tui-calendar"),
        Some("./tui-calendar-service".to_string())
    );
    assert_eq!(
        sibling_development_service_path("//tui-calendar/."),
        Some("/tui-calendar-service".to_string())
    );
    assert_eq!(
        sibling_development_service_path("."),
        Some("tui-calendar-service".to_string())
    );
    assert_eq!(
        sibling_development_service_path("../tui-calendar"),
        Some("../tui-calendar-service".to_string())
    );
    assert_eq!(sibling_development_service_path("/."), None);
    assert_eq!(sibling_development_service_path("/"), None);
}

#[test]
fn helper_search_paths_preserve_an_explicit_missing_path_for_diagnostics() {
    let configured = "/missing/tui-calendar-service".to_string();
    let paths = service_search_paths(Some(configured.clone()), None, None);
    assert_eq!(paths.first(), Some(&configured));
    assert_eq!(
        service_not_found(&paths).message(),
        "calendar service is unavailable: tui-calendar-service not found; searched \
         /missing/tui-calendar-service, \
         macos-calendar-service/.build/release/tui-calendar-service, \
         macos-calendar-service/.build/debug/tui-calendar-service; \
         run `make swift-release` or set service_path in config.toml"
    );
}

#[test]
fn the_program_and_the_environment_add_their_paths_in_order() {
    assert_eq!(
        service_search_paths(None, Some("env".into()), Some("/usr/local/bin/tui-calendar".into())),
        vec![
            "env",
            "/usr/local/libexec/tui-calendar/tui-calendar-service",
            "/usr/local/bin/tui-calendar-service",
            "macos-calendar-service/.build/release/tui-calendar-service",
            "macos-calendar-service/.build/debug/tui-calendar-service",
        ]
    );
}

#[test]
fn structured_calendar_error_decodes_by_code() {
    assert!(matches!(
        reply_error(&failure("permission_denied")),
        BackendError::Calendar(CalendarError::PermissionDenied)
    ));
}

#[test]
fn calendar_create_failure_codes_round_trip() {
    for (code, expected) in [
        ("invalid_title", CalendarError::InvalidTitle),
        ("invalid_color", CalendarError::InvalidColor),
        ("source_not_found", CalendarError::SourceNotFound),
        ("permission_denied", CalendarError::PermissionDenied),
    ] {
        assert_eq!(reply_error(&failure(code)), BackendError::Calendar(expected));
    }
}

#[test]
fn calendar_rename_failure_codes_round_trip() {
    for (code, expected) in [
        ("invalid_title", CalendarError::InvalidTitle),
        ("not_found", CalendarError::NotFound),
        ("cannot_modify_metadata", CalendarError::CannotModifyMetadata),
        ("permission_denied", CalendarError::PermissionDenied),
    ] {
        assert_eq!(reply_error(&failure(code)), BackendError::Calendar(expected));
    }
}

#[test]
fn calendar_set_color_failure_codes_round_trip() {
    for (code, expected) in [
        ("invalid_color", CalendarError::InvalidColor),
        ("not_found", CalendarError::NotFound),
        ("cannot_modify_metadata", CalendarError::CannotModifyMetadata),
        ("permission_denied", CalendarError::PermissionDenied),
    ] {
        assert_eq!(reply_error(&failure(code)), BackendError::Calendar(expected));
    }
}

#[test]
fn calendar_delete_failure_codes_round_trip() {
    for (code, expected) in [
        ("not_found", CalendarError::NotFound),
        ("cannot_delete", CalendarError::CannotDelete),
        ("permission_denied", CalendarError::PermissionDenied),
        ("unsupported", CalendarError::Unsupported),
    ] {
        assert_eq!(reply_error(&failure(code)), BackendError::Calendar(expected));
    }
}

#[test]
fn other_codes_carry_the_message() {
    let text = || "opaque".to_string();
    assert_eq!(error_from_code("permissionDenied", text()), BackendError::PermissionDenied);
    assert_eq!(error_from_code("notFound", text()), BackendError::NotFound(text()));
    assert_eq!(error_from_code("invalid", text()), BackendError::Invalid(text()));
    assert_eq!(error_from_code("invalidAlarm", text()), BackendError::Invalid(text()));
    assert_eq!(error_from_code("anything", text()), BackendError::Service(text()));
    for (code, expected) in [
        ("source_unavailable", CalendarError::SourceUnavailable),
        ("read_only", CalendarError::ReadOnly),
        ("internal", CalendarError::Internal),
    ] {
        assert_eq!(error_from_code(code, text()), BackendError::Calendar(expected));
    }
    assert_eq!(
        reply_error("{\"protocol\":2,\"id\":1,\"error\":{\"code\":\"odd\"}}"),
        BackendError::Service("unknown error".into())
    );
}

#[test]
fn lines_that_are_not_messages_are_told_apart() {
    assert_eq!(decode_message("not json"), Err(ProtocolError::MalformedJson));
    for line in [
        "[]",
        "null",
        "true",
        "7",
        "\"text\"",
        "{}",
        "{\"protocol\":\"2\",\"id\":1,\"result\":[]}",
        "{\"protocol\":2,\"id\":1}",
        "{\"protocol\":2,\"id\":-1,\"result\":[]}",
        "{\"protocol\":2,\"result\":[]}",
        "{\"protocol\":2,\"id\":1,\"result\":[],\"error\":{\"code\":\"x\"}}",
        "{\"protocol\":2,\"id\":1,\"error\":\"x\"}",
        "{\"protocol\":2,\"id\":1,\"error\":{\"message\":\"x\"}}",
        "{\"protocol\":2,\"id\":1,\"error\":{\"code\":\"x\",\"message\":3}}",
        "{\"protocol\":2,\"notification\":\"somethingElse\"}",
        "{\"protocol\":2,\"notification\":\"storeChanged\",\"id\":1}",
        "{\"protocol\":2,\"notification\":\"storeChanged\",\"result\":null}",
    ] {
        assert_eq!(decode_message(line), Err(ProtocolError::UnknownMessageSchema), "{line}");
    }
    assert_eq!(
        decode_message("{\"protocol\":1,\"id\":1,\"result\":[]}"),
        Err(ProtocolError::VersionMismatch {
            expected: IPC_PROTOCOL_VERSION,
            received: Some(1),
        })
    );
}

#[test]
fn replies_and_notices_are_understood() {
    assert_eq!(
        decode_message("{\"protocol\":2,\"notification\":\"storeChanged\"}"),
        Ok(IncomingMessage::StoreChanged)
    );
    assert_eq!(
        decode_message("{ \"protocol\": 2, \"id\": 12, \"result\": { \"b\": [1, 2], \"a\": null } }"),
        Ok(IncomingMessage::Response {
            id: 12,
            result: Ok("{\"a\":null,\"b\":[1,2]}".into()),
        })
    );
    assert_eq!(
        decode_message("{\"protocol\":2,\"id\":0,\"result\":null}"),
        Ok(IncomingMessage::Response { id: 0, result: Ok("null".into()) })
    );
}

#[test]
fn what_a_message_holds_decides_what_it_says() {
    let message = |error: Option<Option<WireError>>| WireMessage {
        protocol: Some(2),
        notification: None,
        has_id: true,
        id: Some(5),
        result: None,
        error,
    };
    assert_eq!(
        understand(message(Some(Some(WireError {
            code: Some("notFound".into()),
            message: Some(Some("gone".into())),
        })))),
        Ok(IncomingMessage::Response {
            id: 5,
            result: Err(BackendError::NotFound("gone".into())),
        })
    );
    assert_eq!(understand(message(Some(None))), Err(ProtocolError::UnknownMessageSchema));
    assert_eq!(understand(message(None)), Err(ProtocolError::UnknownMessageSchema));
}

#[test]
fn typed_timed_create_payload_contains_only_instant_time_fields() {
    let mut draft = EventDraft::new("work".into(), date(2026, 9, 10));
    draft.time =
        EventTimeInput::timed(at("2026-09-10T09:00:00Z"), at("2026-09-10T10:00:00Z")).unwrap();
    let payload = create_event_payload(&draft).unwrap();
    assert_eq!(
        payload,
        vec![
            ("kind", "timed".to_string()),
            ("start", "2026-09-10T09:00:00Z".to_string()),
            ("end", "2026-09-10T10:00:00Z".to_string()),
        ]
    );
    assert!(payload.iter().all(|(name, _)| *name != "allDay"));
}

#[test]
fn typed_all_day_create_payload_carries_only_floating_dates() {
    let mut draft = EventDraft::new("work".into(), date(2026, 9, 10));
    draft.time = EventTimeInput::all_day(date(2026, 9, 10), date(2026, 9, 13)).unwrap();
    let payload = create_event_payload(&draft).unwrap();
    assert_eq!(
        payload,
        vec![
            ("kind", "allDay".to_string()),
            ("startDate", "2026-09-10".to_string()),
            ("endDateExclusive", "2026-09-13".to_string()),
        ]
    );
    assert!(payload.iter().all(|(_, value)| !value.contains("T00:00:00")));
    assert!(payload.iter().all(|(name, _)| *name != "start"));
}

#[test]
fn invalid_or_legacy_create_time_does_not_produce_an_ipc_payload() {
    let mut draft = EventDraft::new("work".into(), date(2026, 9, 10));
    let day = date(2026, 9, 10);
    draft.time = EventTimeInput::AllDay { start_date: day, end_date_exclusive: day };
    assert!(matches!(create_event_payload(&draft), Err(BackendError::Invalid(_))));
    draft.time = EventTimeInput::legacy_all_day_unknown(
        at("2026-09-10T00:00:00Z"),
        at("2026-09-11T00:00:00Z"),
    )
    .unwrap();
    assert!(matches!(create_event_payload(&draft), Err(BackendError::Invalid(_))));
    let start = at("2026-09-10T09:00:00Z");
    draft.time = EventTimeInput::Timed { start, end: start };
    assert_eq!(
        create_event_payload(&draft),
        Err(BackendError::Invalid("invalid event time range".into()))
    );
}

#[test]
fn updates_send_instants_but_no_typed_dates() {
    let mut draft = EventDraft::new("work".into(), date(2026, 9, 10));
    let (start, end) = (at("2026-09-10T09:00:00Z"), at("2026-09-10T10:00:00.5Z"));
    draft.time = EventTimeInput::timed(start, end).unwrap();
    assert_eq!(legacy_update_event_payload(&draft), Ok((start, end, false)));
    draft.time = EventTimeInput::legacy_all_day_unknown(start, end).unwrap();
    assert_eq!(legacy_update_event_payload(&draft), Ok((start, end, true)));
    draft.time = EventTimeInput::all_day(date(2026, 9, 10), date(2026, 9, 11)).unwrap();
    assert_eq!(
        legacy_update_event_payload(&draft),
        Err(BackendError::Invalid("typed all-day update must use timeMutation".into()))
    );
}

#[test]
fn the_reader_announces_answers_and_stops() {
    assert!(matches!(
        read_event(ReaderEvent::Line("{\"protocol\":2,\"notification\":\"storeChanged\"}".into())),
        ReaderAction::Announce
    ));
    assert!(matches!(
        read_event(ReaderEvent::Line("{\"protocol\":2,\"id\":3,\"result\":[]}".into())),
        ReaderAction::Answer { id: 3, result: Ok(_) }
    ));
    assert!(matches!(
        read_event(ReaderEvent::Closed),
        ReaderAction::Stop(BackendError::HelperExited)
    ));
    let ReaderAction::Stop(error) = read_event(ReaderEvent::Failed("broken pipe".into())) else {
        panic!("a failed read ends the connection");
    };
    assert_eq!(error, BackendError::Unavailable("broken pipe".into()));
    assert_eq!(repeatable_connection_error(&error), error);
    assert_eq!(ending_states(&error), vec![BackendState::Disconnected]);

    let ReaderAction::Stop(error) =
        read_event(ReaderEvent::Line("{\"protocol\":3,\"id\":1,\"result\":[]}".into()))
    else {
        panic!("another version ends the connection");
    };
    assert_eq!(
        ending_states(&error),
        vec![BackendState::ProtocolMismatch, BackendState::Disconnected]
    );
    assert_eq!(repeatable_connection_error(&error), error);
    assert_eq!(
        repeatable_connection_error(&BackendError::HelperExited),
        BackendError::HelperExited
    );
}

#[test]
fn reconnecting_waits_longer_each_time() {
    let mut attempt = 0;
    let mut waits = vec![];
    for _ in 0..7 {
        let (seconds, next) = reconnect_delay(attempt);
        waits.push(seconds);
        attempt = next;
    }
    assert_eq!(waits, vec![1, 2, 5, 10, 30, 30, 30]);
}

#[test]
fn three_timeouts_in_a_row_give_the_helper_up() {
    let mut requests = Requests::new();
    for round in 1..=4 {
        let id = requests.start();
        assert_eq!(id, round);
        assert_eq!(requests.pending_request_count(), 1);
        let verdict = requests.finish(id, "listCalendars", Outcome::TimedOut);
        assert_eq!(verdict.result, Err(BackendError::Timeout("listCalendars".into())));
        assert_eq!(verdict.disconnect, round >= 3);
        assert_eq!(verdict.reconnect, round >= 3);
        assert_eq!(requests.pending_request_count(), 0);
    }
    let id = requests.start();
    let verdict = requests.finish(id, "listCalendars", Outcome::Replied(Ok("[]".into())));
    assert_eq!(verdict.result, Ok("[]".into()));
    assert_eq!(verdict.state, None);
    let id = requests.start();
    assert!(!requests.finish(id, "listCalendars", Outcome::TimedOut).disconnect);
}

#[test]
fn every_outcome_ends_the_request() {
    let mut requests = Requests::new();
    let first = requests.start();
    let second = requests.start();
    let verdict = requests.finish(second, "x", Outcome::NotConnected);
    assert_eq!(
        verdict.result,
        Err(BackendError::Unavailable("calendar service is reconnecting".into()))
    );
    assert!(verdict.reconnect && !verdict.disconnect);
    assert_eq!(requests.pending, vec![first]);

    let third = requests.start();
    let verdict = requests.finish(third, "x", Outcome::NotWritten("broken pipe".into()));
    assert_eq!(verdict.result, Err(BackendError::Unavailable("broken pipe".into())));
    assert_eq!(verdict.state, Some(BackendState::Disconnected));
    assert!(verdict.disconnect);

    let fourth = requests.start();
    let verdict = requests.finish(fourth, "x", Outcome::Dropped);
    assert_eq!(
        verdict.result,
        Err(BackendError::Unavailable("calendar service disconnected".into()))
    );
    let fifth = requests.start();
    let verdict =
        requests.finish(fifth, "x", Outcome::Replied(Err(BackendError::PermissionDenied)));
    assert_eq!(verdict.state, Some(BackendState::PermissionDenied));

    assert_eq!(requests.drain(), vec![first]);
    assert_eq!(requests.pending_request_count(), 0);
    requests.sequence = u64::MAX;
    assert_eq!(requests.start(), u64::MAX);
    assert_eq!(requests.start(), 0);
}

#[test]
fn errors_say_what_went_wrong() {
    assert_eq!(
        unreadable_reply("listCalendars", "missing field").message(),
        "invalid calendar data: listCalendars response: missing field"
    );
    assert_eq!(
        OfflineBackend::new("no helper").error().message(),
        "calendar service is unavailable: no helper"
    );
    assert_eq!(
        BackendError::Calendar(CalendarError::NotFound).message(),
        "calendar operation rejected: NotFound"
    );
    assert_eq!(
        BackendError::Protocol(ProtocolError::VersionMismatch { expected: 2, received: Some(1) })
            .message(),
        "calendar IPC protocol error: version mismatch (expected v2, received Some(1))"
    );
    assert_eq!(
        BackendError::Protocol(ProtocolError::VersionMismatch { expected: 2, received: None })
            .message(),
        "calendar IPC protocol error: version mismatch (expected v2, received None)"
    );
    assert_eq!(BackendError::HelperExited.message(), "calendar service helper exited");
    assert_eq!(BackendError::Timeout("x".into()).message(), "calendar service timed out: x");
    assert_eq!(BackendError::Service("x".into()).message(), "calendar service error: x");
    assert_eq!(BackendError::NotFound("x".into()).message(), "calendar item was not found: x");
    assert_eq!(
        BackendError::Unsupported("x".into()).message(),
        "operation is not supported by EventKit: x"
    );
    assert_eq!(BackendError::PermissionDenied.message(), "calendar permission was denied");
}
