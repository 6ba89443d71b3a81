//! The provider in memory.

use tui_calendar::backend::{BackendError, MockBackend};
use tui_calendar::model::{
    AlarmMutation, CalendarError, CreateCalendarRequest, DeleteCalendarRequest, EventDraft,
    EventSpan, EventTimeInput, EventTimeMutation, InvitationResponse, InvitationStatus,
    RecurrenceFrequency, RecurrenceRule, RenameCalendarRequest, SetCalendarColorRequest,
};
use tui_calendar::time::{Date, Timestamp, local_today, now, parse_instant, parse_iso_date};

fn date(year: i32, month: u32, day: u32) -> Date {
    parse_iso_date(&format!("{year:04}-{month:02}-{day:02}")).unwrap()
}

fn at(text: &str) -> Timestamp {
    parse_instant(text).unwrap()
}

/// A span of time, in nanoseconds.
#[derive(Clone, Copy)]
struct Span(i128);

impl Span {
    fn minutes(n: i64) -> Span {
        Span(i128::from(n) * 60_000_000_000)
    }
    fn hours(n: i64) -> Span {
        Span::minutes(n * 60)
    }
    fn days(n: i64) -> Span {
        Span::hours(n * 24)
    }
}

impl std::ops::Add<Span> for Timestamp {
    type Output = Timestamp;
    fn add(self, span: Span) -> Timestamp {
        self.plus_nanos(span.0)
    }
}

impl std::ops::Sub<Span> for Timestamp {
    type Output = Timestamp;
    fn sub(self, span: Span) -> Timestamp {
        self.plus_nanos(-span.0)
    }
}

impl std::ops::Add<Span> for Date {
    type Output = Date;
    fn add(self, span: Span) -> Date {
        self.saturating_plus((span.0 / 86_400_000_000_000) as i32)
    }
}

impl std::ops::Sub<Span> for Date {
    type Output = Date;
    fn sub(self, span: Span) -> Date {
        self.saturating_plus(-((span.0 / 86_400_000_000_000) as i32))
    }
}

#[test]
fn supports_crud_without_eventkit() {
    let mut backend = MockBackend::seeded();
    let mut draft = EventDraft::new("work".into(), local_today());
    draft.title = "Test event".into();
    let created = backend.create_event(draft).unwrap();
    assert!(
        backend
            .events(
                created.start - Span::hours(1),
                created.end + Span::hours(1),
                &vec![]
            )
            .iter()
            .any(|e| e.id == created.id)
    );
    backend
        .delete_event(&created.id, EventSpan::ThisEvent)
        .unwrap();
    assert_eq!(backend.last_delete_span(), Some(EventSpan::ThisEvent));
}

#[test]
fn creates_all_day_events_from_floating_dates_without_utc_input() {
    let mut backend = MockBackend::seeded();
    let mut draft = EventDraft::new(
        "work".into(),
        date(2026, 9, 10),
    );
    draft.title = "All-day test".into();
    draft.time = EventTimeInput::all_day(
        date(2026, 9, 10),
        date(2026, 9, 13),
    )
    .unwrap();
    let created = backend.create_event(draft).unwrap();
    assert_eq!(
        backend.last_created_time(),
        Some(EventTimeInput::AllDay {
            start_date: date(2026, 9, 10),
            end_date_exclusive: date(2026, 9, 13),
        })
    );
    assert_eq!(
        created.all_day_date_range(),
        Some((
            date(2026, 9, 10),
            date(2026, 9, 13),
        ))
    );
}

#[test]
fn preserves_future_event_span_for_recurring_mutation_requests() {
    let mut backend = MockBackend::seeded();
    let mut draft = EventDraft::new("work".into(), local_today());
    draft.title = "Recurring test".into();
    let created = backend.create_event(draft).unwrap();
    let mut update = EventDraft::new("work".into(), local_today());
    update.id = Some(created.id);
    update.title = "Recurring test updated".into();
    backend
        .update_event(
            update,
            EventSpan::FutureEvents,
            AlarmMutation::Replace(vec![]),
            EventTimeMutation::ReplaceLegacy,
        )
        .unwrap();
    assert_eq!(backend.last_update_span(), Some(EventSpan::FutureEvents));
}

#[test]
fn recurring_all_day_mutation_scopes_preserve_trusted_date_identity() {
    let mut backend = MockBackend::seeded();
    let start = date(2026, 3, 28);
    let end = date(2026, 3, 31);
    let mut draft = EventDraft::new("personal".into(), start);
    draft.title = "Recurring all-day".into();
    draft.time = EventTimeInput::all_day(start, end).unwrap();
    draft.recurrence = vec![RecurrenceRule {
        frequency: RecurrenceFrequency::Weekly,
        interval: 1,
        days_of_week: vec![],
        occurrence_count: None,
        end_date: None,
    }];
    let created = backend.create_event(draft).unwrap();

    for span in [EventSpan::ThisEvent, EventSpan::FutureEvents] {
        let mut update = EventDraft::new(created.calendar_id.clone(), start);
        update.id = Some(created.id.clone());
        update.title = format!("Recurring all-day {span:?}");
        update.recurrence = created.recurrence.clone();
        let updated = backend
            .update_event(
                update,
                span,
                AlarmMutation::Preserve,
                EventTimeMutation::Preserve,
            )
            .unwrap();
        assert_eq!(updated.all_day_date_range(), Some((start, end)));
        assert!(updated.has_recurrence);
        assert_eq!(backend.last_update_span(), Some(span));
    }
}

#[test]
fn preserves_existing_alarms_when_an_update_requests_preservation() {
    let mut backend = MockBackend::seeded();
    let event = backend
        .events(
            now() - Span::days(1),
            now() + Span::days(1),
            &vec![],
        )
        .into_iter()
        .find(|event| event.id == "mock-standup")
        .unwrap();
    let mut draft = EventDraft::new(event.calendar_id.clone(), local_today());
    draft.id = Some(event.id.clone());
    draft.title = "Renamed stand-up".into();
    draft.time = EventTimeInput::timed(event.start, event.end).unwrap();
    draft.alarms = vec![];
    let updated = backend
        .update_event(
            draft,
            EventSpan::ThisEvent,
            AlarmMutation::Preserve,
            EventTimeMutation::ReplaceLegacy,
        )
        .unwrap();
    assert_eq!(updated.alarms, event.alarms);
}

#[test]
fn renames_writable_calendar_with_advertised_capability() {
    let mut backend = MockBackend::seeded();
    let capabilities = backend.calendar_capabilities();
    assert!(capabilities.can_create);
    assert!(capabilities.can_update);
    assert!(capabilities.can_change_color);
    assert!(capabilities.can_delete);
    let renamed = backend
        .rename_calendar(RenameCalendarRequest {
            calendar_id: "work".into(),
            title: "Work Renamed".into(),
        })
        .unwrap();
    assert_eq!(renamed.title, "Work Renamed");
    assert!(matches!(
        backend
            .rename_calendar(RenameCalendarRequest {
                calendar_id: "holidays".into(),
                title: "Nope".into(),
            })
            ,
        Err(BackendError::Calendar(CalendarError::CannotModifyMetadata))
    ));
}

#[test]
fn changes_writable_calendar_color_deterministically() {
    let mut backend = MockBackend::seeded();
    let updated = backend
        .set_calendar_color(SetCalendarColorRequest {
            calendar_id: "work".into(),
            color: "#336699".into(),
        })
        .unwrap();
    assert_eq!(updated.color, "#336699");
    assert!(matches!(
        backend
            .set_calendar_color(SetCalendarColorRequest {
                calendar_id: "holidays".into(),
                color: "#336699".into(),
            })
            ,
        Err(BackendError::Calendar(CalendarError::CannotModifyMetadata))
    ));
    assert!(matches!(
        backend
            .set_calendar_color(SetCalendarColorRequest {
                calendar_id: "work".into(),
                color: "blue".into(),
            })
            ,
        Err(BackendError::Calendar(CalendarError::InvalidColor))
    ));
}

#[test]
fn deletes_only_explicitly_deletable_calendars() {
    let mut backend = MockBackend::seeded();
    let deleted = backend
        .delete_calendar(DeleteCalendarRequest {
            calendar_id: "calendar-delete-test".into(),
        })
        .unwrap();
    assert_eq!(deleted.calendar_id, "calendar-delete-test");
    assert!(
        !backend
            .calendars()
            .iter()
            .any(|calendar| calendar.id == "calendar-delete-test")
    );
    assert!(matches!(
        backend
            .delete_calendar(DeleteCalendarRequest {
                calendar_id: "holidays".into(),
            })
            ,
        Err(BackendError::Calendar(CalendarError::CannotDelete))
    ));
    assert!(matches!(
        backend
            .delete_calendar(DeleteCalendarRequest {
                calendar_id: "missing".into(),
            })
            ,
        Err(BackendError::Calendar(CalendarError::NotFound))
    ));
}

#[test]
fn creates_calendar_and_exposes_it_in_subsequent_metadata() {
    let mut backend = MockBackend::seeded();
    let created = backend
        .create_calendar(CreateCalendarRequest {
            title: "Created in Mock".into(),
            color: "#336699".into(),
            source_id: "mock-work".into(),
        })
        .unwrap();
    assert_eq!(created.id, "calendar-test-created-1");
    assert!(
        backend
            .calendars()
            .iter()
            .any(|calendar| calendar.id == created.id)
    );
    assert!(matches!(
        backend
            .create_calendar(CreateCalendarRequest {
                title: "Denied".into(),
                color: "#336699".into(),
                source_id: "mock-denied".into(),
            })
            ,
        Err(BackendError::Calendar(CalendarError::PermissionDenied))
    ));
}

#[test]
fn exposes_trusted_and_legacy_all_day_fixture_metadata() {
    let backend = MockBackend::seeded();
    let events = backend
        .events(
            at("2025-01-01T00:00:00Z"),
            at("2027-01-01T00:00:00Z"),
            &vec![],
        );
    let one_day = events
        .iter()
        .find(|event| event.id == "mock-all-day-one")
        .unwrap();
    assert_eq!(
        one_day.all_day_date_range(),
        Some((
            date(2026, 9, 10),
            date(2026, 9, 11),
        ))
    );
    let multi_day = events
        .iter()
        .find(|event| event.id == "mock-all-day-multi")
        .unwrap();
    assert_eq!(
        multi_day.all_day_date_range(),
        Some((
            date(2026, 9, 10),
            date(2026, 9, 13),
        ))
    );
    assert_eq!(
        events
            .iter()
            .find(|event| event.id == "mock-all-day-legacy")
            .unwrap()
            .all_day_date_range(),
        None
    );
    assert!(events.iter().any(|event| {
        !event.all_day
            && event.all_day_start_date.is_none()
            && event.all_day_end_date_exclusive.is_none()
    }));
}

#[test]
fn new_events_get_identities_of_their_own() {
    let mut backend = MockBackend::seeded();
    let mut draft = EventDraft::new("work".into(), date(2026, 9, 10));
    draft.title = "One".into();
    draft.attendees = vec!["ada@example.test".into()];
    let one = backend.create_event(draft.clone()).unwrap();
    let two = backend.create_event(draft.clone()).unwrap();
    assert_eq!(one.id.len(), 36);
    assert_ne!(one.id, two.id);
    assert_eq!(one.provider_id.as_ref(), Some(&one.id));
    assert_eq!(one.attendees[0].email, "ada@example.test");
    assert_eq!(one.attendees[0].status, InvitationStatus::Pending);
    let three = backend.create_event_as(draft, "three".into()).unwrap();
    assert_eq!(three.id, "three");
}

#[test]
fn drafts_that_cannot_be_created_are_refused() {
    let mut backend = MockBackend::seeded();
    let before = backend.events.len();
    let mut draft = EventDraft::new("work".into(), date(2026, 9, 10));
    draft.title = "  ".into();
    assert_eq!(
        backend.create_event(draft.clone()),
        Err(BackendError::Invalid("title is required".into()))
    );
    draft.title = "Read-only".into();
    draft.calendar_id = "holidays".into();
    assert_eq!(
        backend.create_event(draft.clone()),
        Err(BackendError::Invalid("select a writable calendar".into()))
    );
    draft.calendar_id = "work".into();
    draft.time =
        EventTimeInput::legacy_all_day_unknown(at("2026-09-10T00:00:00Z"), at("2026-09-11T00:00:00Z"))
            .unwrap();
    assert!(matches!(backend.create_event(draft.clone()), Err(BackendError::Invalid(_))));
    assert_eq!(
        backend.update_event(
            draft.clone(),
            EventSpan::ThisEvent,
            AlarmMutation::Preserve,
            EventTimeMutation::Preserve,
        ),
        Err(BackendError::Invalid("event id is required".into()))
    );
    assert_eq!(backend.last_update_span(), None);
    draft.id = Some("missing".into());
    assert_eq!(
        backend.update_event(
            draft,
            EventSpan::ThisEvent,
            AlarmMutation::Preserve,
            EventTimeMutation::Preserve,
        ),
        Err(BackendError::NotFound("missing".into()))
    );
    assert_eq!(backend.last_update_span(), Some(EventSpan::ThisEvent));
    assert_eq!(
        backend.delete_event("missing", EventSpan::ThisEvent),
        Err(BackendError::NotFound("missing".into()))
    );
    assert_eq!(backend.events.len(), before);
}

#[test]
fn invitations_are_answered() {
    let mut backend = MockBackend::seeded();
    for (response, status) in [
        (InvitationResponse::Accept, InvitationStatus::Accepted),
        (InvitationResponse::Decline, InvitationStatus::Declined),
        (InvitationResponse::Maybe, InvitationStatus::Tentative),
    ] {
        backend.respond_to_invitation("mock-gym", response).unwrap();
        let event = backend.events.iter().find(|event| event.id == "mock-gym").unwrap();
        assert_eq!(event.invitation_status, status);
    }
    assert!(backend.respond_to_invitation("missing", InvitationResponse::Accept).is_err());
}

#[test]
fn calendars_are_created_only_as_they_may_be() {
    let request = |source: &str, title: &str, color: &str| CreateCalendarRequest {
        source_id: source.into(),
        title: title.into(),
        color: color.into(),
    };
    let mut backend = MockBackend::empty();
    for (request, error) in [
        (request("mock-work", " ", "#336699"), CalendarError::InvalidTitle),
        (request("mock-work", "A", "336699"), CalendarError::InvalidColor),
        (request("mock-work", "A", "#33669"), CalendarError::InvalidColor),
        (request("mock-work", "A", "#33669g"), CalendarError::InvalidColor),
        (request("mock-exchange", "A", "#336699"), CalendarError::SourceNotFound),
    ] {
        assert_eq!(backend.create_calendar(request), Err(BackendError::Calendar(error)));
    }
    assert!(backend.calendars.is_empty());
    backend.create_calendar(request("mock-work", "A", "#336699")).unwrap();
    backend.create_calendar(request("mock-personal", "B", "#aaBBcc")).unwrap();
    assert_eq!(backend.calendars.len(), 1);
    assert_eq!(backend.calendars[0].title, "B");
    assert_eq!(backend.calendar_sources().len(), 6);
}

#[test]
fn all_day_events_are_fetched_by_their_dates() {
    let backend = MockBackend::seeded();
    let on = |start: &str, end: &str| {
        backend
            .events(at(start), at(end), &vec!["personal".into()])
            .iter()
            .any(|event| event.id == "mock-all-day-shifted")
    };
    assert!(on("2026-09-10T00:00:00Z", "2026-09-11T00:00:00Z"));
    assert!(!on("2026-09-11T00:00:00Z", "2026-09-12T00:00:00Z"));
    assert!(backend
        .events(at("2026-09-10T00:00:00Z"), at("2026-09-11T00:00:00Z"), &vec!["work".into()])
        .iter()
        .all(|event| event.calendar_id == "work"));
}
