//! How the calendars of the system are reached: through a helper that reads requests and writes
//! replies and notices, one line of JSON each.

use super::json::{find_member, json_value, member, members, read_json, Json, JsonView};
use super::{BackendError, BackendErrorView, BackendState, ProtocolError};
use crate::model::{CalendarError, EventDraft, EventTimeInput};
use crate::paths::{below, parent_of, parent_path, path_below};
use crate::seqs::{lemma_filter_all, lemma_filter_remove};
use crate::text::{concat3, join, joined, lemma_texts_push, opt_view, same_text, texts};
use crate::time::{instant_text, iso_date_text, iso_text, rfc3339_text, Timestamp};
use vstd::prelude::*;

verus! {

/// The version of the protocol that is spoken.
pub const IPC_PROTOCOL_VERSION: u64 = 2;

/// The seconds for which a reply is waited for.
pub const REPLY_SECONDS: u64 = 30;

/// The number of requests in a row that may go without a reply before the helper is given up.
pub const TIMEOUT_LIMIT: u64 = 3;

/// What an error message of the helper holds.
#[derive(Debug, PartialEq, Eq)]
pub struct WireError {
    /// The code, where it is a text.
    pub code: Option<String>,
    /// The message, where there is one, and its text, where it is one.
    pub message: Option<Option<String>>,
}

/// What a message of the helper holds.
#[derive(Debug, PartialEq, Eq)]
pub struct WireMessage {
    /// The protocol's version, where it is a number.
    pub protocol: Option<u64>,
    /// The notice, where there is one, and its text, where it is one.
    pub notification: Option<Option<String>>,
    pub has_id: bool,
    /// The request that is answered, where it is a number.
    pub id: Option<u64>,
    /// The result, where there is one, as JSON.
    pub result: Option<String>,
    /// The error, where there is one, and what it holds, where it is an object.
    pub error: Option<Option<WireError>>,
}

/// What an error message holds, as values of mathematics.
pub ghost struct WireErrorView {
    pub code: Option<Seq<char>>,
    pub message: Option<Option<Seq<char>>>,
}

/// What a message holds, as values of mathematics.
pub ghost struct WireMessageView {
    pub protocol: Option<u64>,
    pub notification: Option<Option<Seq<char>>>,
    pub has_id: bool,
    pub id: Option<u64>,
    pub result: Option<Seq<char>>,
    pub error: Option<Option<WireErrorView>>,
}

/// Two layers of absence around a text.
pub open spec fn opt_opt_view(text: Option<Option<String>>) -> Option<Option<Seq<char>>> {
    match text {
        Some(text) => Some(opt_view(text)),
        None => None,
    }
}

impl View for WireError {
    type V = WireErrorView;

    open spec fn view(&self) -> WireErrorView {
        WireErrorView { code: opt_view(self.code), message: opt_opt_view(self.message) }
    }
}

/// Two layers of absence around an error message.
pub open spec fn error_view(error: Option<Option<WireError>>) -> Option<Option<WireErrorView>> {
    match error {
        Some(Some(error)) => Some(Some(error@)),
        Some(None) => Some(None),
        None => None,
    }
}

impl View for WireMessage {
    type V = WireMessageView;

    open spec fn view(&self) -> WireMessageView {
        WireMessageView {
            protocol: self.protocol,
            notification: opt_opt_view(self.notification),
            has_id: self.has_id,
            id: self.id,
            result: opt_view(self.result),
            error: error_view(self.error),
        }
    }
}

/// A message of the helper that could be understood.
#[derive(Debug, PartialEq, Eq)]
pub enum IncomingMessage {
    /// The calendars have changed in some way.
    StoreChanged,
    /// The answer to a request: a result as JSON, or an error.
    Response { id: u64, result: Result<String, BackendError> },
}

/// A message that could be understood, as values of mathematics.
pub ghost enum IncomingView {
    StoreChanged,
    Response { id: u64, result: Result<Seq<char>, BackendErrorView> },
}

impl View for IncomingMessage {
    type V = IncomingView;

    open spec fn view(&self) -> IncomingView {
        match self {
            IncomingMessage::StoreChanged => IncomingView::StoreChanged,
            IncomingMessage::Response { id, result } => IncomingView::Response {
                id: *id,
                result: match result {
                    Ok(text) => Ok(text@),
                    Err(error) => Err(error@),
                },
            },
        }
    }
}

/// A message that may not be understood, as values of mathematics.
pub open spec fn incoming_view(r: Result<IncomingMessage, ProtocolError>) -> Result<
    IncomingView,
    ProtocolError,
> {
    match r {
        Ok(message) => Ok(message@),
        Err(error) => Err(error),
    }
}

/// The refusal that a code stands for.
pub open spec fn calendar_error_of(code: Seq<char>) -> Option<CalendarError> {
    if code == "invalid_title"@ {
        Some(CalendarError::InvalidTitle)
    } else if code == "invalid_color"@ {
        Some(CalendarError::InvalidColor)
    } else if code == "source_not_found"@ {
        Some(CalendarError::SourceNotFound)
    } else if code == "permission_denied"@ {
        Some(CalendarError::PermissionDenied)
    } else if code == "unsupported"@ {
        Some(CalendarError::Unsupported)
    } else if code == "source_unavailable"@ {
        Some(CalendarError::SourceUnavailable)
    } else if code == "not_found"@ {
        Some(CalendarError::NotFound)
    } else if code == "cannot_modify_metadata"@ {
        Some(CalendarError::CannotModifyMetadata)
    } else if code == "cannot_delete"@ {
        Some(CalendarError::CannotDelete)
    } else if code == "read_only"@ {
        Some(CalendarError::ReadOnly)
    } else if code == "internal"@ {
        Some(CalendarError::Internal)
    } else {
        None
    }
}

fn find_calendar_error(code: &str) -> (r: Option<CalendarError>)
    ensures
        r == calendar_error_of(code@),
{
    if same_text(code, "invalid_title") {
        Some(CalendarError::InvalidTitle)
    } else if same_text(code, "invalid_color") {
        Some(CalendarError::InvalidColor)
    } else if same_text(code, "source_not_found") {
        Some(CalendarError::SourceNotFound)
    } else if same_text(code, "permission_denied") {
        Some(CalendarError::PermissionDenied)
    } else if same_text(code, "unsupported") {
        Some(CalendarError::Unsupported)
    } else if same_text(code, "source_unavailable") {
        Some(CalendarError::SourceUnavailable)
    } else if same_text(code, "not_found") {
        Some(CalendarError::NotFound)
    } else if same_text(code, "cannot_modify_metadata") {
        Some(CalendarError::CannotModifyMetadata)
    } else if same_text(code, "cannot_delete") {
        Some(CalendarError::CannotDelete)
    } else if same_text(code, "read_only") {
        Some(CalendarError::ReadOnly)
    } else if same_text(code, "internal") {
        Some(CalendarError::Internal)
    } else {
        None
    }
}

/// The error that a code and a message stand for.
pub open spec fn wire_error(code: Seq<char>, text: Seq<char>) -> BackendErrorView {
    match calendar_error_of(code) {
        Some(error) => BackendErrorView::Calendar(error),
        None => if code == "permissionDenied"@ {
            BackendErrorView::PermissionDenied
        } else if code == "notFound"@ {
            BackendErrorView::NotFound(text)
        } else if code == "invalid"@ || code == "invalidAlarm"@ {
            BackendErrorView::Invalid(text)
        } else {
            BackendErrorView::Service(text)
        },
    }
}

/// The error that a code and a message stand for.
pub fn error_from_code(code: &str, text: String) -> (r: BackendError)
    ensures
        r@ == wire_error(code@, text@),
{
    match find_calendar_error(code) {
        Some(error) => BackendError::Calendar(error),
        None => if same_text(code, "permissionDenied") {
            BackendError::PermissionDenied
        } else if same_text(code, "notFound") {
            BackendError::NotFound(text)
        } else if same_text(code, "invalid") || same_text(code, "invalidAlarm") {
            BackendError::Invalid(text)
        } else {
            BackendError::Service(text)
        },
    }
}

/// What an error message says: it has a code, and a message that is a text where there is one.
pub open spec fn understood_error(error: WireErrorView) -> Result<BackendErrorView, ProtocolError> {
    match (error.code, error.message) {
        (None, _) => Err(ProtocolError::UnknownMessageSchema),
        (Some(_), Some(None)) => Err(ProtocolError::UnknownMessageSchema),
        (Some(code), Some(Some(text))) => Ok(wire_error(code, text)),
        (Some(code), None) => Ok(wire_error(code, "unknown error"@)),
    }
}

/// What a message says. A notice answers no request, and an answer holds either a result or an
/// error.
pub open spec fn understood(message: WireMessageView) -> Result<IncomingView, ProtocolError> {
    let schema = Err(ProtocolError::UnknownMessageSchema);
    match message.protocol {
        None => schema,
        Some(protocol) => if protocol != IPC_PROTOCOL_VERSION {
            Err(
                ProtocolError::VersionMismatch {
                    expected: IPC_PROTOCOL_VERSION,
                    received: Some(protocol),
                },
            )
        } else {
            match message.notification {
                Some(notice) => if notice == Some("storeChanged"@) && !message.has_id
                    && message.result is None && message.error is None {
                    Ok(IncomingView::StoreChanged)
                } else {
                    schema
                },
                None => match (message.id, message.result, message.error) {
                    (Some(id), Some(result), None) => Ok(
                        IncomingView::Response { id, result: Ok(result) },
                    ),
                    (Some(id), None, Some(Some(error))) => match understood_error(error) {
                        Ok(error) => Ok(IncomingView::Response { id, result: Err(error) }),
                        Err(error) => Err(error),
                    },
                    _ => schema,
                },
            }
        },
    }
}

fn understand_error(error: WireError) -> (r: Result<BackendError, ProtocolError>)
    ensures
        match understood_error(error@) {
            Ok(view) => r is Ok && r->Ok_0@ == view,
            Err(problem) => r == Err::<BackendError, ProtocolError>(problem),
        },
{
    let code = match error.code {
        Some(code) => code,
        None => return Err(ProtocolError::UnknownMessageSchema),
    };
    let text = match error.message {
        Some(Some(text)) => text,
        Some(None) => return Err(ProtocolError::UnknownMessageSchema),
        None => "unknown error".to_owned(),
    };
    Ok(error_from_code(code.as_str(), text))
}

/// What a message says.
pub fn understand(message: WireMessage) -> (r: Result<IncomingMessage, ProtocolError>)
    ensures
        incoming_view(r) == understood(message@),
{
    let protocol: u64 = match message.protocol {
        Some(protocol) => protocol,
        None => return Err(ProtocolError::UnknownMessageSchema),
    };
    if protocol != IPC_PROTOCOL_VERSION {
        return Err(
            ProtocolError::VersionMismatch {
                expected: IPC_PROTOCOL_VERSION,
                received: Some(protocol),
            },
        );
    }
    if let Some(notice) = message.notification {
        if let Some(notice) = notice {
            if same_text(notice.as_str(), "storeChanged") && !message.has_id
                && message.result.is_none() && message.error.is_none() {
                return Ok(IncomingMessage::StoreChanged);
            }
        }
        return Err(ProtocolError::UnknownMessageSchema);
    }
    match (message.id, message.result, message.error) {
        (Some(id), Some(result), None) => Ok(
            IncomingMessage::Response { id, result: Ok(result) },
        ),
        (Some(id), None, Some(Some(error))) => match understand_error(error) {
            Ok(error) => Ok(IncomingMessage::Response { id, result: Err(error) }),
            Err(problem) => Err(problem),
        },
        _ => Err(ProtocolError::UnknownMessageSchema),
    }
}

/// The number that a member is.
pub open spec fn number_member(
    pairs: Seq<(Seq<char>, Seq<char>)>,
    name: Seq<char>,
) -> Option<u64> {
    match member(pairs, name) {
        Some(text) => match json_value(text) {
            Some(JsonView::Number(number)) => number,
            _ => None,
        },
        None => None,
    }
}

/// Whether there is a member, and the text that it is.
pub open spec fn text_member(
    pairs: Seq<(Seq<char>, Seq<char>)>,
    name: Seq<char>,
) -> Option<Option<Seq<char>>> {
    match member(pairs, name) {
        Some(text) => Some(
            match json_value(text) {
                Some(JsonView::Text(text)) => Some(text),
                _ => None,
            },
        ),
        None => None,
    }
}

/// What an error message holds.
pub open spec fn wire_error_of(pairs: Seq<(Seq<char>, Seq<char>)>) -> WireErrorView {
    WireErrorView {
        code: match text_member(pairs, "code"@) {
            Some(code) => code,
            None => None,
        },
        message: text_member(pairs, "message"@),
    }
}

/// What a message holds.
pub open spec fn wire_message_of(pairs: Seq<(Seq<char>, Seq<char>)>) -> WireMessageView {
    WireMessageView {
        protocol: number_member(pairs, "protocol"@),
        notification: text_member(pairs, "notification"@),
        has_id: member(pairs, "id"@) is Some,
        id: number_member(pairs, "id"@),
        result: member(pairs, "result"@),
        error: match member(pairs, "error"@) {
            Some(text) => Some(
                match json_value(text) {
                    Some(JsonView::Object(pairs)) => Some(wire_error_of(pairs)),
                    _ => None,
                },
            ),
            None => None,
        },
    }
}

fn read_number(pairs: &Vec<(String, String)>, name: &str) -> (r: Option<u64>)
    ensures
        r == number_member(members(pairs@), name@),
{
    match find_member(pairs, name) {
        Some(text) => match read_json(text) {
            Some(Json::Number(number)) => number,
            _ => None,
        },
        None => None,
    }
}

fn read_text(pairs: &Vec<(String, String)>, name: &str) -> (r: Option<Option<String>>)
    ensures
        opt_opt_view(r) == text_member(members(pairs@), name@),
{
    match find_member(pairs, name) {
        Some(text) => match read_json(text) {
            Some(Json::Text(text)) => Some(Some(text)),
            _ => Some(None),
        },
        None => None,
    }
}

fn read_error(pairs: &Vec<(String, String)>) -> (r: Option<Option<WireError>>)
    ensures
        error_view(r) == wire_message_of(members(pairs@)).error,
{
    match find_member(pairs, "error") {
        Some(text) => match read_json(text) {
            Some(Json::Object(pairs)) => {
                let code = match read_text(&pairs, "code") {
                    Some(code) => code,
                    None => None,
                };
                let message = read_text(&pairs, "message");
                Some(Some(WireError { code, message }))
            },
            _ => Some(None),
        },
        None => None,
    }
}

fn read_message(pairs: &Vec<(String, String)>) -> (r: WireMessage)
    ensures
        r@ == wire_message_of(members(pairs@)),
{
    WireMessage {
        protocol: read_number(pairs, "protocol"),
        notification: read_text(pairs, "notification"),
        has_id: find_member(pairs, "id").is_some(),
        id: read_number(pairs, "id"),
        result: match find_member(pairs, "result") {
            Some(result) => Some(result.to_owned()),
            None => None,
        },
        error: read_error(pairs),
    }
}

/// What a line of the helper says.
pub open spec fn decoded(line: Seq<char>) -> Result<IncomingView, ProtocolError> {
    match json_value(line) {
        None => Err(ProtocolError::MalformedJson),
        Some(JsonView::Object(pairs)) => understood(wire_message_of(pairs)),
        Some(_) => Err(ProtocolError::UnknownMessageSchema),
    }
}

/// What a line of the helper says.
pub fn decode_message(line: &str) -> (r: Result<IncomingMessage, ProtocolError>)
    ensures
        incoming_view(r) == decoded(line@),
{
    match read_json(line) {
        None => Err(ProtocolError::MalformedJson),
        Some(Json::Object(pairs)) => understand(read_message(&pairs)),
        Some(_) => Err(ProtocolError::UnknownMessageSchema),
    }
}

// Connections.

/// Whether an error is about the connection: it is then the answer to every request that waits.
pub open spec fn is_connection_error(error: BackendErrorView) -> bool {
    error is HelperExited || error is Protocol || error is Unavailable
}

/// An error of the connection, once more.
pub fn repeatable_connection_error(error: &BackendError) -> (r: BackendError)
    requires
        is_connection_error(error@),
    ensures
        r@ == error@,
{
    match error {
        BackendError::Protocol(problem) => BackendError::Protocol(*problem),
        BackendError::Unavailable(text) => BackendError::Unavailable(text.clone()),
        _ => BackendError::HelperExited,
    }
}

/// What came from the helper.
#[derive(Debug)]
pub enum ReaderEvent {
    Line(String),
    Closed,
    Failed(String),
}

/// What is to be done about it.
#[derive(Debug)]
pub enum ReaderAction {
    /// Tell everyone that the calendars have changed.
    Announce,
    /// Answer a request, where it still waits.
    Answer { id: u64, result: Result<String, BackendError> },
    /// Answer all requests that wait with an error, and connect anew.
    Stop(BackendError),
}

/// What is to be done about it, as values of mathematics.
pub ghost enum ReaderActionView {
    Announce,
    Answer { id: u64, result: Result<Seq<char>, BackendErrorView> },
    Stop(BackendErrorView),
}

impl View for ReaderAction {
    type V = ReaderActionView;

    open spec fn view(&self) -> ReaderActionView {
        match self {
            ReaderAction::Announce => ReaderActionView::Announce,
            ReaderAction::Answer { id, result } => ReaderActionView::Answer {
                id: *id,
                result: match result {
                    Ok(text) => Ok(text@),
                    Err(error) => Err(error@),
                },
            },
            ReaderAction::Stop(error) => ReaderActionView::Stop(error@),
        }
    }
}

/// What a message that may not be understood leads to.
pub open spec fn action_for(message: Result<IncomingView, ProtocolError>) -> ReaderActionView {
    match message {
        Ok(IncomingView::StoreChanged) => ReaderActionView::Announce,
        Ok(IncomingView::Response { id, result }) => ReaderActionView::Answer { id, result },
        Err(problem) => ReaderActionView::Stop(BackendErrorView::Protocol(problem)),
    }
}

/// What is to be done about what came from the helper. A line that cannot be understood ends the
/// connection.
pub fn read_event(event: ReaderEvent) -> (r: ReaderAction)
    ensures
        r@ == (match event {
            ReaderEvent::Line(line) => action_for(decoded(line@)),
            ReaderEvent::Closed => ReaderActionView::Stop(BackendErrorView::HelperExited),
            ReaderEvent::Failed(text) => ReaderActionView::Stop(
                BackendErrorView::Unavailable(text@),
            ),
        }),
        r@ matches ReaderActionView::Stop(error) ==> is_connection_error(error),
{
    match event {
        ReaderEvent::Line(line) => match decode_message(line.as_str()) {
            Ok(IncomingMessage::StoreChanged) => ReaderAction::Announce,
            Ok(IncomingMessage::Response { id, result }) => ReaderAction::Answer { id, result },
            Err(problem) => ReaderAction::Stop(BackendError::Protocol(problem)),
        },
        ReaderEvent::Closed => ReaderAction::Stop(BackendError::HelperExited),
        ReaderEvent::Failed(text) => ReaderAction::Stop(BackendError::Unavailable(text)),
    }
}

/// What is announced of the connection when it ends.
pub open spec fn ending(error: BackendErrorView) -> Seq<BackendState> {
    if error is Protocol && error->Protocol_0 is VersionMismatch {
        seq![BackendState::ProtocolMismatch, BackendState::Disconnected]
    } else {
        seq![BackendState::Disconnected]
    }
}

/// What is announced of the connection when it ends.
pub fn ending_states(error: &BackendError) -> (r: Vec<BackendState>)
    ensures
        r@ == ending(error@),
{
    let mut r: Vec<BackendState> = Vec::new();
    if let BackendError::Protocol(ProtocolError::VersionMismatch { .. }) = error {
        r.push(BackendState::ProtocolMismatch);
    }
    r.push(BackendState::Disconnected);
    proof {
        assert(r@ =~= ending(error@));
    }
    r
}

/// The seconds to wait before an attempt to connect anew.
pub open spec fn backoff(attempt: int) -> u64 {
    if attempt <= 0 {
        1
    } else if attempt == 1 {
        2
    } else if attempt == 2 {
        5
    } else if attempt == 3 {
        10
    } else {
        30
    }
}

/// The seconds to wait before an attempt to connect anew, and the attempt to count from if it
/// fails.
pub fn reconnect_delay(attempt: u32) -> (r: (u64, u32))
    ensures
        r.0 == backoff(attempt as int),
        r.1 == (if attempt < 4 {
            attempt + 1
        } else {
            4
        }),
{
    let seconds: u64 = match attempt {
        0 => 1,
        1 => 2,
        2 => 5,
        3 => 10,
        _ => 30,
    };
    let next: u32 = if attempt < 4 {
        attempt + 1
    } else {
        4
    };
    (seconds, next)
}

// Requests.

/// The requests that wait for a reply.
#[derive(Debug)]
pub struct Requests {
    /// The number of the next request.
    pub sequence: u64,
    /// The numbers of the requests that wait.
    pub pending: Vec<u64>,
    /// The requests in a row that went without a reply.
    pub consecutive_timeouts: u64,
}

/// Whether a number is another one.
pub open spec fn other_than(id: u64) -> spec_fn(u64) -> bool {
    |n: u64| n != id
}

/// What came of a request.
#[derive(Debug)]
pub enum Outcome {
    /// There was no helper to write to.
    NotConnected,
    /// The request could not be written.
    NotWritten(String),
    /// The reply.
    Replied(Result<String, BackendError>),
    /// The connection ended before the reply.
    Dropped,
    /// The reply did not come in time.
    TimedOut,
}

/// What a request comes to, and what is to be done about the connection.
#[derive(Debug)]
pub struct Verdict {
    pub result: Result<String, BackendError>,
    /// Whether to give the helper up.
    pub disconnect: bool,
    /// Whether to ask for a connection.
    pub reconnect: bool,
    /// What to announce.
    pub state: Option<BackendState>,
}

/// A result as a value of mathematics.
pub open spec fn reply_view(r: Result<String, BackendError>) -> Result<Seq<char>, BackendErrorView> {
    match r {
        Ok(text) => Ok(text@),
        Err(error) => Err(error@),
    }
}

impl Requests {
    /// Nothing waits.
    pub fn new() -> (r: Self)
        ensures
            r.sequence == 1,
            r.pending@ == Seq::<u64>::empty(),
            r.consecutive_timeouts == 0,
    {
        Requests { sequence: 1, pending: Vec::new(), consecutive_timeouts: 0 }
    }

    /// The number of requests that wait.
    pub fn pending_request_count(&self) -> (r: usize)
        ensures
            r == self.pending@.len(),
    {
        self.pending.len()
    }

    /// What comes of starting a request.
    pub open spec fn starts(
        self,
        post: Requests,
        r: u64,
    ) -> bool {
        &&& r == self.sequence
        &&& post.sequence == (if r == u64::MAX {
            0
        } else {
            r + 1
        })
        &&& post.pending@ == self.pending@.filter(other_than(r)).push(r)
        &&& post.consecutive_timeouts == self.consecutive_timeouts
    }

    /// Starts a request under the next number.
    pub fn start(&mut self) -> (r: u64)
        ensures
            old(self).starts(*final(self), r),
    {
        let id: u64 = self.sequence;
        self.sequence = if id == u64::MAX {
            0
        } else {
            id + 1
        };
        self.forget(id);
        self.pending.push(id);
        id
    }

    /// Takes a request out of those that wait.
    pub fn forget(&mut self, id: u64)
        ensures
            *final(self) == (Requests { pending: final(self).pending, ..*old(self) }),
            final(self).pending@ == old(self).pending@.filter(other_than(id)),
            !final(self).pending@.contains(id),
    {
        let ghost kept = other_than(id);
        let mut i: usize = 0;
        while i < self.pending.len()
            invariant
                i <= self.pending@.len(),
                kept == other_than(id),
                *self == (Requests { pending: self.pending, ..*old(self) }),
                self.pending@.filter(kept) == old(self).pending@.filter(kept),
                forall|j: int| 0 <= j < i ==> kept(#[trigger] self.pending@[j]),
            decreases self.pending@.len() - i,
        {
            if self.pending[i] == id {
                proof {
                    lemma_filter_remove(self.pending@, kept, i as int);
                }
                self.pending.remove(i);
            } else {
                i += 1;
            }
        }
        proof {
            lemma_filter_all(self.pending@, kept);
        }
    }

    /// Takes out all requests that wait: each is answered with the error that ended the connection.
    pub fn drain(&mut self) -> (r: Vec<u64>)
        ensures
            *final(self) == (Requests { pending: final(self).pending, ..*old(self) }),
            final(self).pending@ == Seq::<u64>::empty(),
            r@ == old(self).pending@,
    {
        let r = self.pending.clone();
        self.pending = Vec::new();
        proof {
            assert(r@ =~= old(self).pending@);
        }
        r
    }

    /// The number of requests in a row without a reply, after an outcome.
    pub open spec fn timeouts_after(self, outcome: Outcome) -> int {
        match outcome {
            Outcome::Replied(_) => 0,
            Outcome::TimedOut => if self.consecutive_timeouts == u64::MAX {
                u64::MAX as int
            } else {
                self.consecutive_timeouts + 1
            },
            _ => self.consecutive_timeouts as int,
        }
    }

    /// What comes of the end of a request of a method.
    pub open spec fn finishes(
        self,
        id: u64,
        method: &str,
        outcome: Outcome,
        post: Requests,
        r: Verdict,
    ) -> bool {
        &&& post.sequence == self.sequence
        &&& post.pending@ == self.pending@.filter(other_than(id))
        &&& !post.pending@.contains(id)
        &&& post.consecutive_timeouts == self.timeouts_after(outcome)
        &&& match outcome {
            Outcome::NotConnected => reply_view(r.result) == Err::<Seq<char>, _>(
                BackendErrorView::Unavailable("calendar service is reconnecting"@),
            ) && !r.disconnect && r.reconnect && r.state is None,
            Outcome::NotWritten(text) => reply_view(r.result) == Err::<Seq<char>, _>(
                BackendErrorView::Unavailable(text@),
            ) && r.disconnect && r.reconnect && r.state == Some(BackendState::Disconnected),
            Outcome::Replied(result) => r.result == result && !r.disconnect && !r.reconnect
                && r.state == (if result is Err && result->Err_0 is PermissionDenied {
                Some(BackendState::PermissionDenied)
            } else {
                None
            }),
            Outcome::Dropped => reply_view(r.result) == Err::<Seq<char>, _>(
                BackendErrorView::Unavailable("calendar service disconnected"@),
            ) && !r.disconnect && !r.reconnect && r.state is None,
            Outcome::TimedOut => {
                &&& reply_view(r.result) == Err::<Seq<char>, _>(
                    BackendErrorView::Timeout(method@),
                )
                &&& r.disconnect == (post.consecutive_timeouts >= TIMEOUT_LIMIT)
                &&& r.reconnect == r.disconnect
                &&& r.state == (if r.disconnect {
                    Some(BackendState::Disconnected)
                } else {
                    None
                })
            },
        }
    }

    /// Ends a request of a method. Whatever came of it, it waits no more.
    pub fn finish(&mut self, id: u64, method: &str, outcome: Outcome) -> (r: Verdict)
        ensures
            old(self).finishes(id, method, outcome, *final(self), r),
    {
        self.forget(id);
        match outcome {
            Outcome::NotConnected => Verdict {
                result: Err(
                    BackendError::Unavailable("calendar service is reconnecting".to_owned()),
                ),
                disconnect: false,
                reconnect: true,
                state: None,
            },
            Outcome::NotWritten(text) => Verdict {
                result: Err(BackendError::Unavailable(text)),
                disconnect: true,
                reconnect: true,
                state: Some(BackendState::Disconnected),
            },
            Outcome::Replied(result) => {
                self.consecutive_timeouts = 0;
                let denied = match &result {
                    Err(BackendError::PermissionDenied) => true,
                    _ => false,
                };
                Verdict {
                    result,
                    disconnect: false,
                    reconnect: false,
                    state: if denied {
                        Some(BackendState::PermissionDenied)
                    } else {
                        None
                    },
                }
            },
            Outcome::Dropped => Verdict {
                result: Err(BackendError::Unavailable("calendar service disconnected".to_owned())),
                disconnect: false,
                reconnect: false,
                state: None,
            },
            Outcome::TimedOut => {
                if self.consecutive_timeouts < u64::MAX {
                    self.consecutive_timeouts = self.consecutive_timeouts + 1;
                }
                let disconnect = self.consecutive_timeouts >= TIMEOUT_LIMIT;
                Verdict {
                    result: Err(BackendError::Timeout(method.to_owned())),
                    disconnect,
                    reconnect: disconnect,
                    state: if disconnect {
                        Some(BackendState::Disconnected)
                    } else {
                        None
                    },
                }
            },
        }
    }
}

/// The error for a result that is not what a method gives.
pub fn unreadable_reply(method: &str, problem: &str) -> (r: BackendError)
    ensures
        r@ == BackendErrorView::Invalid(method@ + " response: "@ + problem@),
{
    BackendError::Invalid(concat3(method, " response: ", problem))
}

// Events as they are sent.

/// Names and values, as values of mathematics.
pub open spec fn fields_view(fields: Seq<(&'static str, String)>) -> Seq<(Seq<char>, Seq<char>)> {
    fields.map_values(|field: (&'static str, String)| (field.0@, field.1@))
}

/// The time of a new event as it is sent: instants for a timed event, and dates alone for an all-day
/// event. An all-day event whose dates are not known cannot be created.
pub open spec fn create_time(time: EventTimeInput) -> Result<
    Seq<(Seq<char>, Seq<char>)>,
    BackendErrorView,
> {
    match time {
        EventTimeInput::LegacyAllDayUnknown { .. } => Err(
            BackendErrorView::Invalid(
                "legacy all-day drafts cannot be created without floating date identity"@,
            ),
        ),
        EventTimeInput::Timed { start, end } => if start.nanos < end.nanos {
            Ok(
                seq![
                    ("kind"@, "timed"@),
                    ("start"@, instant_text(start, true)),
                    ("end"@, instant_text(end, true)),
                ],
            )
        } else {
            Err(BackendErrorView::Invalid("invalid event time range"@))
        },
        EventTimeInput::AllDay { start_date, end_date_exclusive } => if start_date.day
            < end_date_exclusive.day {
            Ok(
                seq![
                    ("kind"@, "allDay"@),
                    ("startDate"@, iso_text(start_date)),
                    ("endDateExclusive"@, iso_text(end_date_exclusive)),
                ],
            )
        } else {
            Err(BackendErrorView::Invalid("invalid event time range"@))
        },
    }
}

/// The time of a new event as it is sent.
pub fn create_event_payload(event: &EventDraft) -> (r: Result<
    Vec<(&'static str, String)>,
    BackendError,
>)
    ensures
        match create_time(event.time) {
            Ok(fields) => r is Ok && fields_view(r->Ok_0@) == fields,
            Err(error) => r is Err && r->Err_0@ == error,
        },
{
    let mut fields: Vec<(&'static str, String)> = Vec::new();
    match event.time {
        EventTimeInput::LegacyAllDayUnknown { .. } => {
            return Err(
                BackendError::Invalid(
                    "legacy all-day drafts cannot be created without floating date identity".to_owned(),
                ),
            );
        },
        EventTimeInput::Timed { start, end } => {
            if end.nanos <= start.nanos {
                return Err(BackendError::Invalid("invalid event time range".to_owned()));
            }
            fields.push(("kind", "timed".to_owned()));
            fields.push(("start", rfc3339_text(start, true)));
            fields.push(("end", rfc3339_text(end, true)));
        },
        EventTimeInput::AllDay { start_date, end_date_exclusive } => {
            if end_date_exclusive.day <= start_date.day {
                return Err(BackendError::Invalid("invalid event time range".to_owned()));
            }
            fields.push(("kind", "allDay".to_owned()));
            fields.push(("startDate", iso_date_text(start_date)));
            fields.push(("endDateExclusive", iso_date_text(end_date_exclusive)));
        },
    }
    proof {
        assert(fields_view(fields@) =~= create_time(event.time)->Ok_0);
    }
    Ok(fields)
}

/// The time of an updated event as it is sent: its instants, and whether it is an all-day event. New
/// dates of an all-day event are sent otherwise.
pub fn legacy_update_event_payload(event: &EventDraft) -> (r: Result<
    (Timestamp, Timestamp, bool),
    BackendError,
>)
    ensures
        match event.time {
            EventTimeInput::Timed { start, end } => r == Ok::<_, BackendError>((start, end, false)),
            EventTimeInput::LegacyAllDayUnknown { start, end } => r == Ok::<_, BackendError>(
                (start, end, true),
            ),
            EventTimeInput::AllDay { .. } => r is Err && r->Err_0@ == BackendErrorView::Invalid(
                "typed all-day update must use timeMutation"@,
            ),
        },
{
    match event.time {
        EventTimeInput::Timed { start, end } => Ok((start, end, false)),
        EventTimeInput::LegacyAllDayUnknown { start, end } => Ok((start, end, true)),
        EventTimeInput::AllDay { .. } => Err(
            BackendError::Invalid("typed all-day update must use timeMutation".to_owned()),
        ),
    }
}

// Where the helper is.

/// Where an installed helper is, for the path of the program.
pub open spec fn installed_path(executable: Seq<char>) -> Option<Seq<char>> {
    match parent_path(executable) {
        Some(parent) => match parent_path(parent) {
            Some(prefix) => Some(
                path_below(prefix, "libexec/tui-calendar/tui-calendar-service"@),
            ),
            None => None,
        },
        None => None,
    }
}

/// Where an installed helper is, for the path of the program.
pub fn installed_service_path(executable: &str) -> (r: Option<String>)
    ensures
        opt_view(r) == installed_path(executable@),
{
    match parent_of(executable) {
        Some(parent) => match parent_of(parent.as_str()) {
            Some(prefix) => Some(
                below(prefix.as_str(), "libexec/tui-calendar/tui-calendar-service"),
            ),
            None => None,
        },
        None => None,
    }
}

/// Where the helper is while both are being developed: beside the program.
pub open spec fn sibling_path(executable: Seq<char>) -> Option<Seq<char>> {
    match parent_path(executable) {
        Some(parent) => Some(path_below(parent, "tui-calendar-service"@)),
        None => None,
    }
}

/// Where the helper is while both are being developed: beside the program.
pub fn sibling_development_service_path(executable: &str) -> (r: Option<String>)
    ensures
        opt_view(r) == sibling_path(executable@),
{
    match parent_of(executable) {
        Some(parent) => Some(below(parent.as_str(), "tui-calendar-service")),
        None => None,
    }
}

/// A list of what is there.
pub open spec fn present(path: Option<Seq<char>>) -> Seq<Seq<char>> {
    match path {
        Some(path) => seq![path],
        None => Seq::empty(),
    }
}

/// Where the helper is looked for, in order.
pub open spec fn search_paths(
    configured: Option<Seq<char>>,
    variable: Option<Seq<char>>,
    executable: Option<Seq<char>>,
) -> Seq<Seq<char>> {
    present(configured) + present(variable) + (match executable {
        Some(executable) => present(installed_path(executable)) + present(sibling_path(executable)),
        None => Seq::empty(),
    }) + seq![
        "macos-calendar-service/.build/release/tui-calendar-service"@,
        "macos-calendar-service/.build/debug/tui-calendar-service"@,
    ]
}

fn push_present(list: &mut Vec<String>, path: Option<String>)
    ensures
        texts(final(list)@) == texts(old(list)@) + present(opt_view(path)),
{
    match path {
        Some(path) => {
            proof {
                lemma_texts_push(list@, path);
            }
            list.push(path);
            proof {
                assert(texts(list@) =~= texts(old(list)@) + seq![path@]);
            }
        },
        None => {
            proof {
                assert(texts(list@) =~= texts(old(list)@) + Seq::<Seq<char>>::empty());
            }
        },
    }
}

/// Where the helper is looked for, in order: the configured path, the one in the environment, those
/// that follow from the program's own path, and where it is built.
pub fn service_search_paths(
    configured: Option<String>,
    variable: Option<String>,
    executable: Option<String>,
) -> (r: Vec<String>)
    ensures
        texts(r@) == search_paths(opt_view(configured), opt_view(variable), opt_view(executable)),
{
    let mut r: Vec<String> = Vec::new();
    push_present(&mut r, configured);
    push_present(&mut r, variable);
    if let Some(executable) = &executable {
        push_present(&mut r, installed_service_path(executable.as_str()));
        push_present(&mut r, sibling_development_service_path(executable.as_str()));
    }
    push_present(
        &mut r,
        Some("macos-calendar-service/.build/release/tui-calendar-service".to_owned()),
    );
    push_present(
        &mut r,
        Some("macos-calendar-service/.build/debug/tui-calendar-service".to_owned()),
    );
    proof {
        assert(texts(r@) =~= search_paths(
            opt_view(configured),
            opt_view(variable),
            opt_view(executable),
        ));
    }
    r
}

/// The first of some paths at which there is a file.
pub open spec fn first_file(paths: Seq<Seq<char>>, is_file: Seq<bool>) -> Option<Seq<char>>
    decreases paths.len(),
{
    if paths.len() == 0 {
        None
    } else if is_file[0] {
        Some(paths[0])
    } else {
        first_file(paths.drop_first(), is_file.drop_first())
    }
}

/// Where the helper is: the first of the paths at which there is a file, where it is known of each
/// whether there is one.
pub fn resolve_service(paths: &Vec<String>, is_file: &Vec<bool>) -> (r: Option<String>)
    requires
        paths@.len() == is_file@.len(),
    ensures
        opt_view(r) == first_file(texts(paths@), is_file@),
{
    let mut i: usize = 0;
    proof {
        assert(texts(paths@).skip(0) =~= texts(paths@));
        assert(is_file@.skip(0) =~= is_file@);
    }
    while i < paths.len()
        invariant
            i <= paths@.len(),
            paths@.len() == is_file@.len(),
            first_file(texts(paths@), is_file@) == first_file(
                texts(paths@).skip(i as int),
                is_file@.skip(i as int),
            ),
        decreases paths@.len() - i,
    {
        proof {
            assert(texts(paths@).skip(i as int)[0] == paths@[i as int]@);
            assert(is_file@.skip(i as int)[0] == is_file@[i as int]);
            assert(texts(paths@).skip(i as int).drop_first() =~= texts(paths@).skip(i + 1));
            assert(is_file@.skip(i as int).drop_first() =~= is_file@.skip(i + 1));
        }
        if is_file[i] {
            return Some(paths[i].clone());
        }
        i += 1;
    }
    None
}

/// The error where there is no helper.
pub fn service_not_found(paths: &Vec<String>) -> (r: BackendError)
    ensures
        r@ == BackendErrorView::Unavailable(
            "tui-calendar-service not found; searched "@ + joined(texts(paths@), ", "@)
                + "; run `make swift-release` or set service_path in config.toml"@,
        ),
{
    let searched = join(paths, ", ");
    BackendError::Unavailable(
        concat3(
            "tui-calendar-service not found; searched ",
            searched.as_str(),
            "; run `make swift-release` or set service_path in config.toml",
        ),
    )
}

// Laws.

/// A configured path is always the first at which the helper is looked for, and it is used wherever
/// there is a file.
pub proof fn law_configured_path_wins(
    configured: Seq<char>,
    variable: Option<Seq<char>>,
    executable: Option<Seq<char>>,
    is_file: Seq<bool>,
)
    requires
        is_file.len() == search_paths(Some(configured), variable, executable).len(),
        is_file[0],
    ensures
        search_paths(Some(configured), variable, executable)[0] == configured,
        first_file(search_paths(Some(configured), variable, executable), is_file) == Some(
            configured,
        ),
{
}

/// A message in another version of the protocol is never taken for anything else.
pub proof fn law_other_versions_are_refused(message: WireMessageView)
    requires
        message.protocol is Some,
        message.protocol != Some(IPC_PROTOCOL_VERSION),
    ensures
        understood(message) == Err::<IncomingView, ProtocolError>(
            ProtocolError::VersionMismatch {
                expected: IPC_PROTOCOL_VERSION,
                received: message.protocol,
            },
        ),
{
}

/// No request waits twice, and no number is given to a second request while the first one waits.
pub proof fn law_requests_wait_once(pending: Seq<u64>, id: u64)
    requires
        pending.no_duplicates(),
    ensures
        pending.filter(other_than(id)).push(id).no_duplicates(),
        pending.filter(other_than(id)).no_duplicates(),
{
    let kept = pending.filter(other_than(id));
    lemma_filter_no_duplicates(pending, other_than(id));
    let after = kept.push(id);
    assert forall|i: int, j: int| 0 <= i < after.len() && 0 <= j < after.len() && i
        != j implies after[i] != after[j] by {
        if i < kept.len() {
            pending.lemma_filter_pred(other_than(id), i);
            assert(after[i] == kept[i]);
        }
        if j < kept.len() {
            pending.lemma_filter_pred(other_than(id), j);
            assert(after[j] == kept[j]);
        }
    }
}

proof fn lemma_filter_no_duplicates(s: Seq<u64>, p: spec_fn(u64) -> bool)
    requires
        s.no_duplicates(),
    ensures
        s.filter(p).no_duplicates(),
    decreases s.len(),
{
    reveal(Seq::filter);
    if s.len() > 0 {
        let t = s.drop_last();
        assert(t.no_duplicates());
        lemma_filter_no_duplicates(t, p);
        let u = t.filter(p);
        assert forall|i: int| 0 <= i < u.len() implies #[trigger] u[i] != s.last() by {
            lemma_filter_within(t, p, i);
            let k = choose|k: int| 0 <= k < t.len() && t[k] == u[i];
            assert(s[k] != s[s.len() - 1]);
        }
    }
}

proof fn lemma_filter_within(s: Seq<u64>, p: spec_fn(u64) -> bool, i: int)
    requires
        0 <= i < s.filter(p).len(),
    ensures
        exists|k: int| 0 <= k < s.len() && s[k] == s.filter(p)[i],
    decreases s.len(),
{
    reveal(Seq::filter);
    if s.len() > 0 {
        let t = s.drop_last();
        if i < t.filter(p).len() {
            lemma_filter_within(t, p, i);
            let k = choose|k: int| 0 <= k < t.len() && t[k] == t.filter(p)[i];
            assert(s[k] == s.filter(p)[i]);
        } else {
            assert(s[s.len() - 1] == s.filter(p)[i]);
        }
    }
}

} // verus!
