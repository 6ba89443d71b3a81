//! What holds of the providers of calendars: the one in memory and the one behind the helper.

use crate::backend::eventkit::{
    calendar_error_of, create_time, error_from_code, first_file, reconnect_delay, search_paths,
    understood, IncomingView, Outcome, Requests, Verdict, WireMessageView,
};
use crate::backend::mock::{drafted, updated, wanted, MockBackend};
use crate::backend::{BackendError, BackendErrorView, BackendState, ProtocolError};
use crate::model::{
    calendar_at, event_views, lemma_calendar_at, lemma_event_at, Alarm, AlarmMutation,
    CalendarError, CalendarInfo, CreateCalendarRequest, DeleteCalendarRequest,
    DeleteCalendarResponse, Event, EventDraft, EventDraftView, EventSpan, EventTimeInput,
    EventTimeMutation, EventView, InvitationResponse, InvitationStatus, RenameCalendarRequest,
    SetCalendarColorRequest,
};
use crate::text::{texts, trimmed};
use crate::time::{instant_text, iso_text, Timestamp};
use vstd::prelude::*;

verus! {

/// An event that is created says what its draft says, under the identity it is given, at the
/// draft's time.
pub proof fn law_created_events_say_what_was_drafted(draft: EventDraftView, id: Seq<char>)
    ensures
        ({
            let event = drafted(draft, id);
            &&& event.id == id
            &&& event.provider_id == Some(id)
            &&& event.title == draft.title
            &&& event.calendar_id == draft.calendar_id
            &&& event.location == draft.location
            &&& event.notes == draft.notes
            &&& event.url == draft.url
            &&& event.time_zone == draft.time_zone
            &&& event.availability == draft.availability
            &&& event.alarms == draft.alarms
            &&& event.recurrence == draft.recurrence
            &&& event.has_recurrence == (draft.recurrence.len() > 0)
            &&& event.attendees.len() == draft.attendees.len()
            &&& forall|i: int|
                0 <= i < draft.attendees.len() ==> (#[trigger] event.attendees[i]).email
                    == draft.attendees[i] && event.attendees[i].status == InvitationStatus::Pending
            &&& match draft.time {
                EventTimeInput::Timed { start, end } => !event.all_day && event.start == start
                    && event.end == end && event.all_day_start_date is None,
                EventTimeInput::AllDay { start_date, end_date_exclusive } => event.all_day
                    && event.all_day_start_date == Some(start_date)
                    && event.all_day_end_date_exclusive == Some(end_date_exclusive),
                EventTimeInput::LegacyAllDayUnknown { start, end } => event.all_day && event.start
                    == start && event.end == end && event.all_day_start_date is None,
            }
        }),
{
}

/// A change of an event keeps its time, and its alarms, where they are to be kept, and takes the
/// draft's where not; everything else is the draft's.
pub proof fn law_changed_events_say_what_was_drafted(
    draft: EventDraftView,
    id: Seq<char>,
    before: EventView,
    alarms: Option<Seq<Alarm>>,
    mutation: EventTimeMutation,
)
    ensures
        ({
            let event = updated(draft, id, before, alarms, mutation);
            &&& event.id == id
            &&& event.title == draft.title
            &&& event.calendar_id == draft.calendar_id
            &&& event.location == draft.location
            &&& event.notes == draft.notes
            &&& event.url == draft.url
            &&& event.availability == draft.availability
            &&& event.recurrence == draft.recurrence
            &&& alarms is None ==> event.alarms == before.alarms
            &&& alarms is Some ==> event.alarms == draft.alarms
            &&& mutation is Preserve ==> event.start == before.start && event.end == before.end
                && event.all_day == before.all_day && event.all_day_start_date
                == before.all_day_start_date && event.all_day_end_date_exclusive
                == before.all_day_end_date_exclusive && event.time_zone == before.time_zone
            &&& mutation matches EventTimeMutation::ReplaceAllDay { start_date, end_date_exclusive }
                ==> event.all_day && event.all_day_start_date == Some(start_date)
                && event.all_day_end_date_exclusive == Some(end_date_exclusive)
            &&& mutation is ReplaceLegacy ==> (draft.time matches EventTimeInput::Timed { start, end }
                ==> event.start == start && event.end == end && !event.all_day)
        }),
{
}

/// An event is read for a range that it takes place in, of the calendars that are asked for, or of
/// all where none are; one of another calendar, or that is over before the range or begins after
/// it, is not.
pub proof fn law_events_of_a_range(
    event: Event,
    start: Timestamp,
    end: Timestamp,
    calendars: Seq<String>,
)
    ensures
        calendars.len() > 0 && !texts(calendars).contains(event.calendar_id@) ==> !wanted(
            event,
            start,
            end,
            calendars,
        ),
        !event.all_day && (event.end.nanos <= start.nanos || event.start.nanos >= end.nanos)
            ==> !wanted(event, start, end, calendars),
        event.start.nanos < end.nanos && event.end.nanos > start.nanos && (calendars.len() == 0
            || texts(calendars).contains(event.calendar_id@)) ==> wanted(
            event,
            start,
            end,
            calendars,
        ),
{
}

/// A calendar is renamed, without the spaces around its new name, where it is there and may be
/// changed and the name is not blank; only its name changes, and no other calendar.
pub proof fn law_renamed_calendars(
    before: MockBackend,
    request: RenameCalendarRequest,
    after: MockBackend,
    r: Result<CalendarInfo, BackendError>,
)
    requires
        before.renames_calendar(request, after, r),
    ensures
        trimmed(request.title@).len() == 0 ==> r is Err && after == before,
        (forall|i: int|
            0 <= i < before.calendars@.len() ==> (#[trigger] before.calendars@[i]).id@
                != request.calendar_id@) ==> r is Err && after == before,
        r matches Ok(calendar) ==> {
            &&& calendar.title@ == trimmed(request.title@)
            &&& calendar.id@ == request.calendar_id@
            &&& after.calendars@.len() == before.calendars@.len()
            &&& after.events == before.events
            &&& exists|i: int|
                0 <= i < before.calendars@.len() && #[trigger] after.calendars@[i] == calendar
                    && before.calendars@[i].permissions.can_modify_metadata
                    && before.calendars@[i].color@ == calendar.color@ && forall|j: int|
                    0 <= j < before.calendars@.len() && j != i ==> #[trigger] after.calendars@[j]
                        == before.calendars@[j]
        },
{
    lemma_calendar_at(before.calendars@, request.calendar_id@);
    if let Ok(calendar) = r {
        let i = calendar_at(before.calendars@, request.calendar_id@)->0;
        assert(after.calendars@[i] == calendar);
    }
}

/// A calendar is colored where it is there, may be changed and the color can be read; only its
/// color changes.
pub proof fn law_colored_calendars(
    before: MockBackend,
    request: SetCalendarColorRequest,
    after: MockBackend,
    r: Result<CalendarInfo, BackendError>,
)
    requires
        before.colors_calendar(request, after, r),
    ensures
        r is Err ==> after == before,
        r matches Ok(calendar) ==> {
            &&& calendar.color@ == request.color@
            &&& calendar.id@ == request.calendar_id@
            &&& after.calendars@.len() == before.calendars@.len()
            &&& exists|i: int|
                0 <= i < before.calendars@.len() && #[trigger] after.calendars@[i] == calendar
                    && before.calendars@[i].permissions.can_modify_metadata
                    && before.calendars@[i].title@ == calendar.title@ && forall|j: int|
                    0 <= j < before.calendars@.len() && j != i ==> #[trigger] after.calendars@[j]
                        == before.calendars@[j]
        },
{
    lemma_calendar_at(before.calendars@, request.calendar_id@);
    if let Ok(calendar) = r {
        let i = calendar_at(before.calendars@, request.calendar_id@)->0;
        assert(after.calendars@[i] == calendar);
    }
}

/// A calendar is deleted where it is there and may be deleted: one calendar with that identity
/// leaves, the others stay in their order.
pub proof fn law_deleted_calendars(
    before: MockBackend,
    request: DeleteCalendarRequest,
    after: MockBackend,
    r: Result<DeleteCalendarResponse, BackendError>,
)
    requires
        before.deletes_calendar(request, after, r),
    ensures
        r is Err ==> after == before,
        r matches Ok(response) ==> response.calendar_id@ == request.calendar_id@ && exists|i: int|
            0 <= i < before.calendars@.len() && (#[trigger] before.calendars@[i]).id@
                == request.calendar_id@ && before.calendars@[i].permissions.can_delete
                && after.calendars@ == before.calendars@.remove(i),
        (exists|i: int|
            0 <= i < before.calendars@.len() && (#[trigger] before.calendars@[i]).id@
                == request.calendar_id@) && (forall|i: int|
            0 <= i < before.calendars@.len() && (#[trigger] before.calendars@[i]).id@
                == request.calendar_id@ ==> before.calendars@[i].permissions.can_delete) ==> r is Ok,
{
    lemma_calendar_at(before.calendars@, request.calendar_id@);
}

/// A calendar that is created has the name, the color and the source that were asked for, can be
/// written to, and is listed last; without a name, a color or a source that is known it is refused.
pub proof fn law_created_calendars(
    before: MockBackend,
    request: CreateCalendarRequest,
    after: MockBackend,
    r: Result<CalendarInfo, BackendError>,
)
    requires
        before.creates_calendar(request, after, r),
    ensures
        r is Err ==> after == before,
        trimmed(request.title@).len() == 0 ==> r == Err::<CalendarInfo, BackendError>(
            BackendError::Calendar(CalendarError::InvalidTitle),
        ),
        r matches Ok(calendar) ==> calendar.title@ == request.title@ && calendar.color@
            == request.color@ && calendar.source_id@ == request.source_id@ && calendar.is_writable
            && calendar.enabled && after.calendars@.len() > 0 && after.calendars@.last() == calendar
            && after.events == before.events,
{
}

/// An event that is created is listed, behind those that were there; it needs a name and a calendar
/// that can be written to.
pub proof fn law_created_events(
    before: MockBackend,
    draft: EventDraft,
    id: String,
    after: MockBackend,
    r: Result<Event, BackendError>,
)
    requires
        before.creates_event(draft, id, after, r),
    ensures
        r is Err ==> after == before,
        r is Ok ==> trimmed(draft@.title).len() > 0 && !(draft.time is LegacyAllDayUnknown)
            && exists|i: int|
            0 <= i < before.calendars@.len() && (#[trigger] before.calendars@[i]).id@
                == draft@.calendar_id && before.calendars@[i].is_writable,
        r matches Ok(event) ==> event.id@ == id@ && event.title@ == draft@.title
            && after.events@.len() == before.events@.len() + 1 && after.events@.last()@ == event@
            && forall|i: int|
            0 <= i < before.events@.len() ==> #[trigger] after.events@[i] == before.events@[i],
{
    if r is Ok {
        assert forall|i: int| 0 <= i < before.events@.len() implies #[trigger] after.events@[i]
            == before.events@[i] by {
            assert(after.events@.drop_last()[i] == after.events@[i]);
        }
    }
}

/// A change reaches the event with the identity that it names and no other; there is an answer for
/// an identity that no event has.
pub proof fn law_changed_events(
    before: MockBackend,
    draft: EventDraft,
    span: EventSpan,
    alarms: AlarmMutation,
    mutation: EventTimeMutation,
    after: MockBackend,
    r: Result<Event, BackendError>,
    id: Seq<char>,
)
    requires
        before.updates_event(draft, span, alarms, mutation, after, r),
        draft@.id == Some(id),
    ensures
        after.last_update_span == Some(span),
        after.calendars == before.calendars,
        r is Ok <==> exists|i: int|
            0 <= i < before.events@.len() && (#[trigger] before.events@[i]).id@ == id,
        r is Err ==> after.events == before.events,
        r matches Ok(event) ==> event.id@ == id && event.title@ == draft@.title && exists|i: int|
            0 <= i < before.events@.len() && (#[trigger] before.events@[i]).id@ == id
                && after.events@.len() == before.events@.len() && after.events@[i]@ == event@
                && forall|j: int|
                0 <= j < before.events@.len() && j != i ==> #[trigger] after.events@[j]
                    == before.events@[j],
{
    lemma_event_at(before.events@, id);
}

/// A deletion takes the events with the identity that it names away, and no other; there is an
/// answer for an identity that no event has.
pub proof fn law_deleted_events(
    before: MockBackend,
    id: &str,
    span: EventSpan,
    after: MockBackend,
    r: Result<(), BackendError>,
    event: Event,
)
    requires
        before.deletes_event(id, span, after, r),
    ensures
        after.last_delete_span == Some(span),
        r is Ok <==> exists|i: int|
            0 <= i < before.events@.len() && (#[trigger] before.events@[i]).id@ == id@,
        after.events@.contains(event) <==> before.events@.contains(event) && event.id@ != id@,
        after.calendars == before.calendars,
{
    lemma_event_at(before.events@, id@);
    let p = crate::backend::mock::not_event(id@);
    broadcast use vstd::seq_lib::group_filter_ensures;

    if r is Ok {
        if after.events@.contains(event) {
            before.events@.lemma_filter_contains_rev(p, event);
            let i = choose|i: int| 0 <= i < after.events@.len() && after.events@[i] == event;
            assert(p(before.events@.filter(p)[i]));
        }
        if before.events@.contains(event) && event.id@ != id@ {
            let i = choose|i: int| 0 <= i < before.events@.len() && before.events@[i] == event;
            assert(p(before.events@[i]));
            assert(before.events@.filter(p).contains(before.events@[i]));
        }
    } else if before.events@.contains(event) {
        let i = choose|i: int| 0 <= i < before.events@.len() && before.events@[i] == event;
        assert(before.events@[i].id@ != id@);
    }
}

/// An invitation that is accepted is accepted, one that is declined is declined, and one that is
/// answered with maybe is tentative; nothing else of the event changes.
pub proof fn law_answered_invitations(
    before: MockBackend,
    id: &str,
    response: InvitationResponse,
    after: MockBackend,
    r: Result<(), BackendError>,
)
    requires
        before.answers_invitation(id, response, after, r),
    ensures
        r is Err ==> after == before,
        r is Ok ==> exists|i: int|
            0 <= i < before.events@.len() && (#[trigger] before.events@[i]).id@ == id@
                && after.events@[i]@ == (EventView {
                invitation_status: after.events@[i]@.invitation_status,
                ..before.events@[i]@
            }) && (response is Accept ==> after.events@[i]@.invitation_status
                == InvitationStatus::Accepted) && (response is Decline
                ==> after.events@[i]@.invitation_status == InvitationStatus::Declined) && (
            response is Maybe ==> after.events@[i]@.invitation_status
                == InvitationStatus::Tentative),
{
    lemma_event_at(before.events@, id@);
}

/// A message of the helper is a notice that the calendars have changed, an answer with a result or
/// an answer with an error, each in the one shape it can have; a message of another version of the
/// protocol is refused for that.
pub proof fn law_messages_are_understood(message: WireMessageView)
    ensures
        message.protocol matches Some(version) ==> (version != 2 ==> (understood(
            message,
        ) matches Err(ProtocolError::VersionMismatch { received, .. }) && received == Some(
            version,
        ))),
        understood(message) == Ok::<IncomingView, ProtocolError>(IncomingView::StoreChanged) <==>
            message.protocol == Some(2u64) && message.notification == Some(Some("storeChanged"@))
            && !message.has_id && message.result is None && message.error is None,
        understood(message) matches Ok(IncomingView::Response { id, result }) ==> message.protocol
            == Some(2u64) && message.notification is None && message.id == Some(id) && match result {
            Ok(text) => message.result == Some(text) && message.error is None,
            Err(_) => message.result is None && message.error is Some,
        },
        message.protocol == Some(2u64) && message.notification is None && message.error is None ==> (
        message.id matches Some(id) ==> (message.result matches Some(text) ==> understood(message)
            == Ok::<IncomingView, ProtocolError>(IncomingView::Response { id, result: Ok(text) }))),
{
}

/// Each code of the helper stands for its own error, with the helper's words where the error has
/// some.
pub proof fn law_codes(code: &str, text: String, r: BackendError)
    requires
        call_ensures(error_from_code, (code, text), r),
    ensures
        code@ == "permissionDenied"@ && calendar_error_of(code@) is None ==> r is PermissionDenied,
        code@ == "invalid_title"@ ==> r@ == BackendErrorView::Calendar(CalendarError::InvalidTitle),
        r@ matches BackendErrorView::NotFound(said) ==> code@ == "notFound"@ && said == text@,
        r@ matches BackendErrorView::Invalid(said) ==> (code@ == "invalid"@ || code@
            == "invalidAlarm"@) && said == text@,
        r@ matches BackendErrorView::Service(said) ==> said == text@,
{
}

/// The waits before attempts to connect anew grow, from a second to half a minute, and stay there.
pub proof fn law_reconnecting(attempt: u32, r: (u64, u32), next: (u64, u32))
    requires
        call_ensures(reconnect_delay, (attempt,), r),
        call_ensures(reconnect_delay, (r.1,), next),
    ensures
        attempt == 0 ==> r.0 == 1 && next.0 == 2,
        attempt == 1 ==> r.0 == 2 && next.0 == 5,
        attempt == 2 ==> r.0 == 5 && next.0 == 10,
        attempt == 3 ==> r.0 == 10 && next.0 == 30,
        attempt >= 4 ==> r.0 == 30 && next.0 == 30,
        r.0 <= next.0 <= 30,
{
}

/// A request gets a number of its own, under which it waits until it ends, whatever it ends with; a
/// reply is handed on as it came, and only the third time-out in a row, or a connection that cannot
/// be written to, end the connection.
pub proof fn law_requests_end(
    before: Requests,
    id: u64,
    method: &str,
    outcome: Outcome,
    after: Requests,
    r: Verdict,
)
    requires
        before.finishes(id, method, outcome, after, r),
    ensures
        !after.pending@.contains(id),
        outcome matches Outcome::Replied(result) ==> r.result == result && !r.disconnect
            && !r.reconnect && after.consecutive_timeouts == 0,
        outcome is NotConnected ==> r.result is Err && r.reconnect && !r.disconnect,
        outcome is NotWritten ==> r.result is Err && r.reconnect && r.disconnect && r.state == Some(
            BackendState::Disconnected,
        ),
        outcome is Dropped ==> r.result is Err && !r.reconnect && !r.disconnect,
        outcome is TimedOut ==> (r.result matches Err(error) && error is Timeout) && r.reconnect
            == r.disconnect,
        outcome is TimedOut && before.consecutive_timeouts < u64::MAX ==> after.consecutive_timeouts
            == before.consecutive_timeouts + 1,
        outcome is TimedOut && before.consecutive_timeouts < 2 ==> !r.disconnect,
        outcome is TimedOut && 2 <= before.consecutive_timeouts ==> r.disconnect,
        !(outcome is TimedOut) && !(outcome is Replied) ==> after.consecutive_timeouts
            == before.consecutive_timeouts,
{
}

/// Requests that are started one after the other have different numbers, and wait.
pub proof fn law_requests_start(before: Requests, mid: Requests, after: Requests, a: u64, b: u64)
    requires
        before.starts(mid, a),
        mid.starts(after, b),
    ensures
        a != b,
        mid.pending@.contains(a),
        after.pending@.contains(a) && after.pending@.contains(b),
{
    broadcast use vstd::seq_lib::group_filter_ensures;

    let p = crate::backend::eventkit::other_than(b);
    assert(mid.pending@.last() == a);
    assert(mid.pending@[mid.pending@.len() - 1] == a);
    assert(after.pending@[after.pending@.len() - 1] == b);
    assert(p(mid.pending@[mid.pending@.len() - 1]));
    let kept = mid.pending@.filter(p);
    assert(kept.contains(a));
    let i = choose|i: int| 0 <= i < kept.len() && kept[i] == a;
    assert(after.pending@[i] == a);
}

/// The time of a new event is sent as two instants where it has a time of day and as two dates
/// where it lasts all day, never as a span that is empty or turned round.
pub proof fn law_sent_times(time: EventTimeInput)
    ensures
        create_time(time) matches Ok(fields) ==> fields.len() == 3,
        time matches EventTimeInput::Timed { start, end } ==> (create_time(time) is Ok
            <==> start.nanos < end.nanos) && (create_time(time) matches Ok(fields) ==> fields[0]
            == ("kind"@, "timed"@) && fields[1] == ("start"@, instant_text(start, true))
            && fields[2] == ("end"@, instant_text(end, true))),
        time matches EventTimeInput::AllDay { start_date, end_date_exclusive } ==> (create_time(time)
            is Ok <==> start_date.day < end_date_exclusive.day) && (create_time(time) matches Ok(
            fields,
        ) ==> fields[0] == ("kind"@, "allDay"@) && fields[1] == ("startDate"@, iso_text(start_date))
            && fields[2] == ("endDateExclusive"@, iso_text(end_date_exclusive))),
        time is LegacyAllDayUnknown ==> create_time(time) is Err,
{
}

/// The helper is the first of the paths at which there is a file.
pub proof fn law_first_file(paths: Seq<Seq<char>>, is_file: Seq<bool>)
    requires
        paths.len() == is_file.len(),
    ensures
        match first_file(paths, is_file) {
            Some(path) => exists|i: int|
                0 <= i < paths.len() && #[trigger] is_file[i] && paths[i] == path && forall|j: int|
                    0 <= j < i ==> !#[trigger] is_file[j],
            None => forall|i: int| 0 <= i < paths.len() ==> !#[trigger] is_file[i],
        },
    decreases paths.len(),
{
    if paths.len() > 0 && !is_file[0] {
        let rest = is_file.drop_first();
        law_first_file(paths.drop_first(), rest);
        match first_file(paths.drop_first(), rest) {
            Some(path) => {
                let i = choose|i: int|
                    0 <= i < rest.len() && #[trigger] rest[i] && paths.drop_first()[i] == path
                        && forall|j: int| 0 <= j < i ==> !#[trigger] rest[j];
                assert(is_file[i + 1] && paths[i + 1] == path);
                assert forall|j: int| 0 <= j < i + 1 implies !#[trigger] is_file[j] by {
                    if j > 0 {
                        assert(!rest[j - 1]);
                    }
                }
            },
            None => {
                assert forall|i: int| 0 <= i < paths.len() implies !#[trigger] is_file[i] by {
                    if i > 0 {
                        assert(!rest[i - 1]);
                    }
                }
            },
        }
    }
}

/// The helper is looked for where the settings say, then where the environment says, then beside
/// the program; the places where it is built come last.
pub proof fn law_searched_paths(
    configured: Option<Seq<char>>,
    variable: Option<Seq<char>>,
    executable: Option<Seq<char>>,
)
    ensures
        ({
            let paths = search_paths(configured, variable, executable);
            &&& paths.len() >= 2
            &&& paths.last() == "macos-calendar-service/.build/debug/tui-calendar-service"@
            &&& paths[paths.len() - 2]
                == "macos-calendar-service/.build/release/tui-calendar-service"@
            &&& configured matches Some(path) ==> paths[0] == path
            &&& configured is None ==> (variable matches Some(path) ==> paths[0] == path)
            &&& configured is Some ==> (variable matches Some(path) ==> paths[1] == path)
            &&& configured is None && variable is None && executable is None ==> paths.len() == 2
        }),
{
}

/// The events that are read for a range are those that take place in it, of the calendars that are
/// asked for, as they are.
pub proof fn law_read_events(
    backend: MockBackend,
    start: Timestamp,
    end: Timestamp,
    calendars: Vec<String>,
    r: Vec<Event>,
    i: int,
)
    requires
        call_ensures(MockBackend::events, (&backend, start, end, &calendars), r),
    ensures
        0 <= i < r@.len() ==> exists|j: int|
            0 <= j < backend.events@.len() && wanted(
                #[trigger] backend.events@[j],
                start,
                end,
                calendars@,
            ) && r@[i]@ == backend.events@[j]@,
        0 <= i < backend.events@.len() && wanted(backend.events@[i], start, end, calendars@)
            ==> exists|j: int| 0 <= j < r@.len() && (#[trigger] r@[j])@ == backend.events@[i]@,
{
    broadcast use vstd::seq_lib::group_filter_ensures;

    let p = |event: Event| wanted(event, start, end, calendars@);
    let kept = backend.events@.filter(p);
    assert(event_views(r@) == event_views(kept));
    assert(event_views(r@).len() == r@.len() && event_views(kept).len() == kept.len());
    if 0 <= i < r@.len() {
        assert(event_views(r@)[i] == event_views(kept)[i]);
        assert(kept.contains(kept[i]));
        backend.events@.lemma_filter_contains_rev(p, kept[i]);
        assert(p(kept[i]));
        let j = choose|j: int| 0 <= j < backend.events@.len() && backend.events@[j] == kept[i];
        assert(wanted(backend.events@[j], start, end, calendars@));
    }
    if 0 <= i < backend.events@.len() && wanted(backend.events@[i], start, end, calendars@) {
        assert(p(backend.events@[i]));
        assert(kept.contains(backend.events@[i]));
        let j = choose|j: int| 0 <= j < kept.len() && kept[j] == backend.events@[i];
        assert(event_views(r@)[j] == event_views(kept)[j]);
        assert(r@[j]@ == backend.events@[i]@);
    }
}

} // verus!
