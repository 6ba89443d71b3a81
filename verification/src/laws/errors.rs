//! What is understood of the helper and of failures, what is said of them, and small steps of the
//! forms.

use crate::app::worker::calendar_error_from_backend;
use crate::app::{App, Mode};
use crate::backend::eventkit::{
    decode_message, ending_states, number_member, read_event, repeatable_connection_error,
    text_member, IncomingMessage, ReaderAction, ReaderEvent,
};
use crate::backend::json::{is_named, json_value, member, JsonView};
use crate::backend::{BackendError, BackendErrorView, BackendState, ProtocolError};
use crate::cache::damage::{
    companion_move, finish_quarantine, is_sqlite_corruption, CompanionMove,
};
use crate::cache::CacheRecovery;
use crate::calendar_form::{
    color_error_text, create_error_text, delete_error_text, rename_error_text, CalendarForm,
    CalendarFormField,
};
use crate::model::{CalendarError, EventTimeInput};
use crate::seqs::lemma_first_from;
use crate::text::{ascii_lower, occurs_in};
use crate::time::{Date, Timestamp};
use vstd::prelude::*;

verus! {

/// A line of the helper that is no JSON is malformed, and one that is no object has an unknown
/// shape. A notice that the calendars have changed is an object with the version of the protocol
/// and that notice, and without the parts of an answer; an answer with a result has its number and
/// its result.
pub proof fn law_lines_are_decoded(line: &str, r: Result<IncomingMessage, ProtocolError>)
    requires
        call_ensures(decode_message, (line,), r),
    ensures
        json_value(line@) is None ==> (r matches Err(ProtocolError::MalformedJson)),
        json_value(line@) matches Some(JsonView::Text(_)) ==> (
        r matches Err(ProtocolError::UnknownMessageSchema)),
        json_value(line@) matches Some(JsonView::Object(pairs)) ==> {
            &&& (r matches Ok(IncomingMessage::StoreChanged)) <==> number_member(pairs, "protocol"@)
                == Some(2u64) && text_member(pairs, "notification"@) == Some(
                Some("storeChanged"@),
            ) && member(pairs, "id"@) is None && member(pairs, "result"@) is None && member(
                pairs,
                "error"@,
            ) is None
            &&& r matches Ok(IncomingMessage::Response { id, result }) ==> number_member(
                pairs,
                "protocol"@,
            ) == Some(2u64) && number_member(pairs, "id"@) == Some(id) && (
            result matches Ok(text) ==> member(pairs, "result"@) == Some(text@))
            &&& number_member(pairs, "protocol"@) == Some(2u64) && member(pairs, "notification"@)
                is None && member(pairs, "error"@) is None && number_member(pairs, "id"@) is Some
                && member(pairs, "result"@) is Some ==> (r matches Ok(
                IncomingMessage::Response { result, .. },
            ) && result is Ok)
        },
{
}

/// The value of a member is that of the first with its name; there is none where no member has it.
pub proof fn law_members(pairs: Seq<(Seq<char>, Seq<char>)>, name: Seq<char>)
    ensures
        match member(pairs, name) {
            Some(value) => exists|i: int|
                0 <= i < pairs.len() && (#[trigger] pairs[i]).0 == name && pairs[i].1 == value
                    && forall|j: int| 0 <= j < i ==> (#[trigger] pairs[j]).0 != name,
            None => forall|i: int| 0 <= i < pairs.len() ==> (#[trigger] pairs[i]).0 != name,
        },
{
    let p = is_named(name);
    lemma_first_from(pairs, p, 0);
    assert forall|i: int| 0 <= i < pairs.len() implies p(#[trigger] pairs[i]) == (pairs[i].0
        == name) by {}
}

/// A notice is passed on, an answer goes to the request with its number, and anything that cannot
/// be understood, an end or a failure stops the connection with its error.
pub proof fn law_reader(event: ReaderEvent, r: ReaderAction)
    requires
        call_ensures(read_event, (event,), r),
    ensures
        event is Closed ==> (r matches ReaderAction::Stop(error) && error@
            == BackendErrorView::HelperExited),
        event matches ReaderEvent::Failed(text) ==> (r matches ReaderAction::Stop(error) && error@
            == BackendErrorView::Unavailable(text@)),
        event matches ReaderEvent::Line(line) ==> (json_value(line@) is None ==> (
        r matches ReaderAction::Stop(error) && error@ == BackendErrorView::Protocol(
            ProtocolError::MalformedJson,
        ))),
{
}

/// A connection that ends is said to be gone; that the helper speaks another version is said first.
pub proof fn law_endings(error: BackendError, r: Vec<BackendState>)
    requires
        call_ensures(ending_states, (&error,), r),
    ensures
        r@.len() > 0 && r@.last() == BackendState::Disconnected,
        r@.contains(BackendState::ProtocolMismatch) <==> (
        error@ matches BackendErrorView::Protocol(ProtocolError::VersionMismatch { .. })),
{
    if r@.len() == 2 {
        assert(r@[0] == BackendState::ProtocolMismatch);
    }
    if r@.contains(BackendState::ProtocolMismatch) {
        let i = choose|i: int| 0 <= i < r@.len() && r@[i] == BackendState::ProtocolMismatch;
    }
}

/// A failure is damage of the database where it says so in one of four ways, in any case.
pub proof fn law_damage(error: &str, r: bool)
    requires
        call_ensures(is_sqlite_corruption, (error,), r),
    ensures
        r <==> occurs_in(ascii_lower(error@), "file is not a database"@) || occurs_in(
            ascii_lower(error@),
            "database disk image is malformed"@,
        ) || occurs_in(ascii_lower(error@), "database corruption"@) || occurs_in(
            ascii_lower(error@),
            "database malformed"@,
        ),
{
}

/// A companion of a damaged cache that is there is put aside, itself or its copy.
pub proof fn law_companions(original: bool, backup: bool, r: CompanionMove)
    requires
        call_ensures(companion_move, (original, backup), r),
    ensures
        original ==> r == CompanionMove::Original,
        !original && backup ==> r == CompanionMove::Backup,
        original || backup <==> r != CompanionMove::Nothing,
{
}

/// What was put aside is named, all of it; that nothing was is an error.
pub proof fn law_put_aside(paths: Vec<String>, r: Result<CacheRecovery, String>)
    requires
        call_ensures(finish_quarantine, (paths,), r),
    ensures
        r is Ok <==> paths@.len() > 0,
        r matches Ok(recovery) ==> recovery.quarantined_paths == paths,
{
}

/// A dialog of calendars shows the calendar's own error, that access was denied, that something is
/// not supported, or else that something went wrong.
pub proof fn law_errors_in_dialogs(error: BackendError, r: CalendarError)
    requires
        call_ensures(calendar_error_from_backend, (error,), r),
    ensures
        error matches BackendError::Calendar(own) ==> r == own,
        error is PermissionDenied ==> r == CalendarError::PermissionDenied,
        error is Unsupported ==> r == CalendarError::Unsupported,
        error is NotFound || error is Invalid || error is Unavailable || error is HelperExited
            || error is Timeout || error is Protocol || error is Service ==> r
            == CalendarError::Internal,
{
}

/// What is said where a calendar could not be created, renamed, colored or deleted.
pub proof fn law_error_texts(error: CalendarError)
    ensures
        error is InvalidTitle ==> create_error_text(error) == "Calendar title is required"@
            && rename_error_text(error) == "Calendar title is required"@,
        error is InvalidColor ==> create_error_text(error) == "Calendar color must use #RRGGBB"@
            && color_error_text(error) == "Calendar color must use #RRGGBB"@,
        error is SourceNotFound ==> create_error_text(error)
            == "Selected calendar source was not found"@,
        error is SourceUnavailable ==> create_error_text(error)
            == "Selected calendar source is unavailable"@,
        error is PermissionDenied ==> create_error_text(error) == "Calendar access was denied"@
            && rename_error_text(error) == "Calendar access was denied"@ && color_error_text(error)
            == "Calendar access was denied"@ && delete_error_text(error)
            == "Calendar deletion is not permitted"@,
        error is Unsupported ==> create_error_text(error) == "Calendar creation is not supported"@
            && rename_error_text(error) == "Calendar renaming is not supported"@
            && color_error_text(error) == "Calendar color changes are not supported"@
            && delete_error_text(error) == "Calendar deletion is not supported"@,
        error is NotFound ==> rename_error_text(error) == "Calendar was not found"@
            && color_error_text(error) == "Calendar was not found"@ && delete_error_text(error)
            == "Calendar no longer exists"@,
        error is CannotModifyMetadata ==> rename_error_text(error)
            == "This calendar's metadata cannot be modified"@ && color_error_text(error)
            == "Calendar metadata is read-only"@,
        error is CannotDelete || error is ReadOnly ==> delete_error_text(error)
            == "Calendar deletion is not permitted"@,
        error is Internal ==> create_error_text(error) == "Calendar could not be created"@
            && rename_error_text(error) == "Calendar could not be renamed"@ && color_error_text(
            error,
        ) == "Calendar color could not be updated"@ && delete_error_text(error)
            == "Calendar could not be deleted"@,
{
}

/// What an error of a provider says ends with the provider's own words, where it has some.
pub proof fn law_error_words(error: BackendError, r: String)
    requires
        call_ensures(BackendError::message, (&error,), r),
    ensures
        error matches BackendError::NotFound(text) ==> r@ == "calendar item was not found: "@
            + text@,
        error matches BackendError::Invalid(text) ==> r@ == "invalid calendar data: "@ + text@,
        error matches BackendError::Unavailable(text) ==> r@
            == "calendar service is unavailable: "@ + text@,
        error matches BackendError::Timeout(text) ==> r@ == "calendar service timed out: "@ + text@,
        error matches BackendError::Service(text) ==> r@ == "calendar service error: "@ + text@,
        error is PermissionDenied ==> r@ == "calendar permission was denied"@,
        error is HelperExited ==> r@ == "calendar service helper exited"@,
{
}

/// An error of the connection is told to every request that waits, just as it was.
pub proof fn law_connection_errors(error: BackendError, r: BackendError)
    requires
        call_ensures(repeatable_connection_error, (&error,), r),
    ensures
        r@ == error@,
{
}

/// Times that an event can take place at end after they begin.
pub proof fn law_time_inputs(
    start: Timestamp,
    end: Timestamp,
    first: Date,
    last: Date,
    a: Result<EventTimeInput, String>,
    b: Result<EventTimeInput, String>,
    c: Result<EventTimeInput, String>,
)
    requires
        call_ensures(EventTimeInput::timed, (start, end), a),
        call_ensures(EventTimeInput::all_day, (first, last), b),
        call_ensures(EventTimeInput::legacy_all_day_unknown, (start, end), c),
    ensures
        a is Ok <==> start.nanos < end.nanos,
        b is Ok <==> first.day < last.day,
        c is Ok <==> start.nanos < end.nanos,
        a matches Ok(time) ==> time == (EventTimeInput::Timed { start, end }),
        b matches Ok(time) ==> time == (EventTimeInput::AllDay {
            start_date: first,
            end_date_exclusive: last,
        }),
        c matches Ok(time) ==> time == (EventTimeInput::LegacyAllDayUnknown { start, end }),
{
}

/// The source of a new calendar goes round those that there are, from each to the next, and back;
/// at first it is the first, or the last but one on the way back.
pub proof fn law_sources_go_round(form: CalendarForm, i: usize, count: int)
    requires
        form.current() == CalendarFormField::Source,
        form.source_index == Some(i),
        0 <= i < count <= usize::MAX,
    ensures
        form.next_source(1, count) == Some((if i + 1 < count {
            i + 1
        } else {
            0
        }) as usize),
        form.next_source(-1, count) == Some((if i > 0 {
            i - 1
        } else {
            count - 1
        }) as usize),
{
    if i + 1 == count {
        vstd::arithmetic::div_mod::lemma_mod_self_0(count);
    } else {
        vstd::arithmetic::div_mod::lemma_small_mod((i + 1) as nat, count as nat);
    }
    if i == 0 {
        vstd::arithmetic::div_mod::lemma_small_mod((count - 1) as nat, count as nat);
    } else {
        vstd::arithmetic::div_mod::lemma_mod_add_multiples_vanish(i - 1, count);
        vstd::arithmetic::div_mod::lemma_small_mod((i - 1) as nat, count as nat);
    }
}

/// An editor that is given up leaves no form behind, and where it was not opened over details,
/// shows again the view and the date that it was opened from.
pub proof fn law_editors_are_given_up(app: App, post: App)
    requires
        app.editor_cancelled(post),
    ensures
        post.form is None,
        !post.form_dirty,
        post.pending_recurring_mutation is None,
        post.snapshot == app.snapshot,
        post.mode != Mode::Details ==> (app.interaction_context matches Some(context) ==> post.view
            == context.source_view && post.active_date == context.source_active_date
            && post.interaction_context is None),
        post.mode == Mode::Details ==> post.view == app.view && post.active_date == app.active_date
            && post.interaction_context == app.interaction_context,
{
}

} // verus!
