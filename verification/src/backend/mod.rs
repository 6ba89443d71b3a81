//! Where calendars come from: the state of a provider and what can go wrong with it.

use crate::model::CalendarError;
use crate::text::{concat2, decimal, to_decimal};
use vstd::prelude::*;
use vstd::string::StringExecFns;

pub mod eventkit;
pub mod json;
pub mod mock;
pub mod seed;

pub use eventkit::{resolve_service, IPC_PROTOCOL_VERSION};
pub use mock::MockBackend;

verus! {

/// How the connection to a provider stands.
#[derive(Clone, Copy, Debug, PartialEq, Eq, Structural)]
pub enum BackendState {
    Starting,
    Connected,
    Disconnected,
    Restarting,
    PermissionDenied,
    ProtocolMismatch,
    Failed,
}

/// What went wrong with a provider.
#[derive(Debug, PartialEq, Eq)]
pub enum BackendError {
    Calendar(CalendarError),
    PermissionDenied,
    NotFound(String),
    Invalid(String),
    Unsupported(String),
    Unavailable(String),
    HelperExited,
    Timeout(String),
    Protocol(ProtocolError),
    Service(String),
}

/// What the contents of an error are, as values of mathematics.
pub ghost enum BackendErrorView {
    Calendar(CalendarError),
    PermissionDenied,
    NotFound(Seq<char>),
    Invalid(Seq<char>),
    Unsupported(Seq<char>),
    Unavailable(Seq<char>),
    HelperExited,
    Timeout(Seq<char>),
    Protocol(ProtocolError),
    Service(Seq<char>),
}

impl View for BackendError {
    type V = BackendErrorView;

    open spec fn view(&self) -> BackendErrorView {
        match self {
            BackendError::Calendar(error) => BackendErrorView::Calendar(*error),
            BackendError::PermissionDenied => BackendErrorView::PermissionDenied,
            BackendError::NotFound(text) => BackendErrorView::NotFound(text@),
            BackendError::Invalid(text) => BackendErrorView::Invalid(text@),
            BackendError::Unsupported(text) => BackendErrorView::Unsupported(text@),
            BackendError::Unavailable(text) => BackendErrorView::Unavailable(text@),
            BackendError::HelperExited => BackendErrorView::HelperExited,
            BackendError::Timeout(text) => BackendErrorView::Timeout(text@),
            BackendError::Protocol(error) => BackendErrorView::Protocol(*error),
            BackendError::Service(text) => BackendErrorView::Service(text@),
        }
    }
}

/// What went wrong with a message. None of these shows what the helper wrote.
#[derive(Clone, Copy, Debug, PartialEq, Eq, Structural)]
pub enum ProtocolError {
    MalformedJson,
    UnknownMessageSchema,
    VersionMismatch { expected: u64, received: Option<u64> },
}

/// The name of a refusal.
pub open spec fn calendar_error_name(error: CalendarError) -> Seq<char> {
    match error {
        CalendarError::InvalidTitle => "InvalidTitle"@,
        CalendarError::InvalidColor => "InvalidColor"@,
        CalendarError::SourceNotFound => "SourceNotFound"@,
        CalendarError::PermissionDenied => "PermissionDenied"@,
        CalendarError::Unsupported => "Unsupported"@,
        CalendarError::SourceUnavailable => "SourceUnavailable"@,
        CalendarError::NotFound => "NotFound"@,
        CalendarError::CannotModifyMetadata => "CannotModifyMetadata"@,
        CalendarError::CannotDelete => "CannotDelete"@,
        CalendarError::ReadOnly => "ReadOnly"@,
        CalendarError::Internal => "Internal"@,
    }
}

fn calendar_error_name_text(error: CalendarError) -> (r: &'static str)
    ensures
        r@ == calendar_error_name(error),
{
    match error {
        CalendarError::InvalidTitle => "InvalidTitle",
        CalendarError::InvalidColor => "InvalidColor",
        CalendarError::SourceNotFound => "SourceNotFound",
        CalendarError::PermissionDenied => "PermissionDenied",
        CalendarError::Unsupported => "Unsupported",
        CalendarError::SourceUnavailable => "SourceUnavailable",
        CalendarError::NotFound => "NotFound",
        CalendarError::CannotModifyMetadata => "CannotModifyMetadata",
        CalendarError::CannotDelete => "CannotDelete",
        CalendarError::ReadOnly => "ReadOnly",
        CalendarError::Internal => "Internal",
    }
}

impl ProtocolError {
    /// What the error says.
    pub open spec fn text(self) -> Seq<char> {
        match self {
            ProtocolError::MalformedJson => "malformed JSON response"@,
            ProtocolError::UnknownMessageSchema => "unknown message schema"@,
            ProtocolError::VersionMismatch { expected, received } => "version mismatch (expected v"@
                + decimal(expected as nat) + ", received "@ + (match received {
                Some(version) => "Some("@ + decimal(version as nat) + ")"@,
                None => "None"@,
            }) + ")"@,
        }
    }

    /// What the error says.
    pub fn message(self) -> (r: String)
        ensures
            r@ == self.text(),
    {
        match self {
            ProtocolError::MalformedJson => "malformed JSON response".to_owned(),
            ProtocolError::UnknownMessageSchema => "unknown message schema".to_owned(),
            ProtocolError::VersionMismatch { expected, received } => {
                let mut shown = String::new();
                match received {
                    Some(version) => {
                        shown.append("Some(");
                        shown.append(to_decimal(version).as_str());
                        shown.append(")");
                    },
                    None => shown.append("None"),
                }
                proof {
                    assert(shown@ =~= (match received {
                        Some(version) => "Some("@ + decimal(version as nat) + ")"@,
                        None => "None"@,
                    }));
                }
                let mut out = "version mismatch (expected v".to_owned();
                out.append(to_decimal(expected).as_str());
                out.append(", received ");
                out.append(shown.as_str());
                out.append(")");
                out
            },
        }
    }
}

impl BackendError {
    /// What the error says.
    pub open spec fn text(self) -> Seq<char> {
        match self {
            BackendError::Calendar(error) => "calendar operation rejected: "@ + calendar_error_name(
                error,
            ),
            BackendError::PermissionDenied => "calendar permission was denied"@,
            BackendError::NotFound(text) => "calendar item was not found: "@ + text@,
            BackendError::Invalid(text) => "invalid calendar data: "@ + text@,
            BackendError::Unsupported(text) => "operation is not supported by EventKit: "@ + text@,
            BackendError::Unavailable(text) => "calendar service is unavailable: "@ + text@,
            BackendError::HelperExited => "calendar service helper exited"@,
            BackendError::Timeout(text) => "calendar service timed out: "@ + text@,
            BackendError::Protocol(error) => "calendar IPC protocol error: "@ + error.text(),
            BackendError::Service(text) => "calendar service error: "@ + text@,
        }
    }

    /// What the error says.
    pub fn message(&self) -> (r: String)
        ensures
            r@ == self.text(),
    {
        match self {
            BackendError::Calendar(error) => concat2(
                "calendar operation rejected: ",
                calendar_error_name_text(*error),
            ),
            BackendError::PermissionDenied => "calendar permission was denied".to_owned(),
            BackendError::NotFound(text) => concat2("calendar item was not found: ", text.as_str()),
            BackendError::Invalid(text) => concat2("invalid calendar data: ", text.as_str()),
            BackendError::Unsupported(text) => concat2(
                "operation is not supported by EventKit: ",
                text.as_str(),
            ),
            BackendError::Unavailable(text) => concat2(
                "calendar service is unavailable: ",
                text.as_str(),
            ),
            BackendError::HelperExited => "calendar service helper exited".to_owned(),
            BackendError::Timeout(text) => concat2("calendar service timed out: ", text.as_str()),
            BackendError::Protocol(error) => concat2(
                "calendar IPC protocol error: ",
                error.message().as_str(),
            ),
            BackendError::Service(text) => concat2("calendar service error: ", text.as_str()),
        }
    }
}

/// A provider that cannot be reached.
#[derive(Debug)]
pub struct OfflineBackend {
    pub reason: String,
}

impl OfflineBackend {
    /// A provider that cannot be reached for a reason.
    pub fn new(reason: &str) -> (r: Self)
        ensures
            r.reason@ == reason@,
    {
        OfflineBackend { reason: reason.to_owned() }
    }

    /// What every operation is answered.
    pub fn error(&self) -> (r: BackendError)
        ensures
            r@ == BackendErrorView::Unavailable(self.reason@),
    {
        BackendError::Unavailable(self.reason.clone())
    }
}

} // verus!
