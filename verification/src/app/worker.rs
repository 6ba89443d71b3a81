//! What the worker does beside the screen: it carries out commands, one piece of outside work at a
//! time, and reports on them.
//!
//! Each function takes what a piece of work came to and says what to report and what to do next.

use super::{MutationEffect, WorkerCommand, WorkerUpdate};
use crate::backend::{BackendError, BackendState};
use crate::model::{
    event_at, find_event, AlarmMutation, AuthorizationStatus, CalendarCapabilities, CalendarError,
    CalendarInfo, CalendarSource, CreateCalendarRequest, DeleteCalendarRequest,
    DeleteCalendarResponse, Event, EventDraft, EventMutationTarget, EventSpan, EventTimeMutation,
    RangePriority, RangeReason, RangeRequest, RecurrenceMutationScope, RenameCalendarRequest,
    SetCalendarColorRequest, Snapshot,
};
use crate::coverage::DateRange;
use crate::text::{concat2, opt_view};
use crate::time::Timestamp;
use vstd::prelude::*;

verus! {

/// How long notices of changes are gathered before the calendars are read again.
pub const CHANGE_DELAY_MILLIS: u64 = 750;

/// The seconds by which a change's time is widened when its surroundings are read again.
pub const MARGIN_SECONDS: i64 = 86_400;

/// The seconds of a day.
pub const DAY_SECONDS: i64 = 86_400;

/// An event to change, and when it took place before.
#[derive(Debug)]
pub struct UpdateJob {
    pub session: Option<u64>,
    pub event: EventDraft,
    pub span: EventSpan,
    pub recurrence_scope: Option<RecurrenceMutationScope>,
    pub alarms: AlarmMutation,
    pub time_mutation: EventTimeMutation,
}

/// An event to delete.
#[derive(Debug)]
pub struct DeleteJob {
    pub session: Option<u64>,
    pub event_id: String,
    pub span: EventSpan,
    pub recurrence_scope: Option<RecurrenceMutationScope>,
}

/// What is to be done outside.
#[derive(Debug)]
pub enum Work {
    /// Nothing until the next command, notice or tick.
    Wait,
    CheckAuthorization,
    RequestAccess,
    SaveAuthorization(AuthorizationStatus),
    ReadCapabilities,
    ReadSources,
    /// Read the whole window again.
    RefreshWindow,
    /// Load a range, again where it is forced.
    LoadRange { request: RangeRequest, force: bool },
    SetCalendarEnabled(String, bool),
    CreateCalendar(CreateCalendarRequest),
    RenameCalendar(RenameCalendarRequest),
    SetCalendarColor(SetCalendarColorRequest),
    DeleteCalendar(DeleteCalendarRequest),
    ReadCalendars,
    SaveCalendars(Vec<CalendarInfo>),
    CreateEvent { session: Option<u64>, event: EventDraft },
    /// Read the snapshot before an update.
    FindUpdated(UpdateJob),
    UpdateEvent { job: UpdateJob, before: Option<(Timestamp, Timestamp)> },
    /// Read the snapshot before a deletion.
    FindDeleted(DeleteJob),
    DeleteEvent {
        deletion: DeleteJob,
        target: EventMutationTarget,
        interval: (Timestamp, Timestamp),
    },
    /// Read which ranges are loaded from an instant on.
    ReadCoverage { from: Timestamp, intervals: Vec<(Timestamp, Timestamp)> },
    /// Read these ranges again, the first one next.
    RefreshRanges(Vec<RangeRequest>),
    OpenUrl(String),
}

/// What to report, in order, and what to do next.
#[derive(Debug)]
pub struct Step {
    pub updates: Vec<WorkerUpdate>,
    pub work: Work,
}

/// A report whose texts are values of mathematics.
pub ghost enum Report {
    Syncing(bool),
    BackendState(BackendState),
    Snapshot(Snapshot),
    CalendarCapabilities(CalendarCapabilities),
    CalendarSources(Vec<CalendarSource>),
    CalendarCreateSucceeded(CalendarInfo),
    CalendarCreateFailed(CalendarError),
    CalendarRenameSucceeded(CalendarInfo),
    CalendarRenameFailed(CalendarError),
    CalendarColorSucceeded(CalendarInfo),
    CalendarColorFailed(CalendarError),
    CalendarDeleteSucceeded(DeleteCalendarResponse),
    CalendarDeleteFailed(CalendarError),
    RangeStarted(u64),
    RangeLoaded(u64),
    RangeFailed(u64, Seq<char>),
    MutationSaving,
    MutationSucceeded(MutationEffect),
    MutationFailed(Seq<char>),
    MutationSavingFor(u64),
    MutationSucceededFor(u64, MutationEffect),
    MutationFailedFor(u64, Seq<char>),
    Status(Seq<char>),
    Error(Seq<char>),
}

/// A report whose texts are values of mathematics.
pub open spec fn report(update: WorkerUpdate) -> Report {
    match update {
        WorkerUpdate::Syncing(on) => Report::Syncing(on),
        WorkerUpdate::BackendState(state) => Report::BackendState(state),
        WorkerUpdate::Snapshot(snapshot) => Report::Snapshot(snapshot),
        WorkerUpdate::CalendarCapabilities(all) => Report::CalendarCapabilities(all),
        WorkerUpdate::CalendarSources(sources) => Report::CalendarSources(sources),
        WorkerUpdate::CalendarCreateSucceeded(calendar) => Report::CalendarCreateSucceeded(calendar),
        WorkerUpdate::CalendarCreateFailed(error) => Report::CalendarCreateFailed(error),
        WorkerUpdate::CalendarRenameSucceeded(calendar) => Report::CalendarRenameSucceeded(calendar),
        WorkerUpdate::CalendarRenameFailed(error) => Report::CalendarRenameFailed(error),
        WorkerUpdate::CalendarColorSucceeded(calendar) => Report::CalendarColorSucceeded(calendar),
        WorkerUpdate::CalendarColorFailed(error) => Report::CalendarColorFailed(error),
        WorkerUpdate::CalendarDeleteSucceeded(response) => Report::CalendarDeleteSucceeded(response),
        WorkerUpdate::CalendarDeleteFailed(error) => Report::CalendarDeleteFailed(error),
        WorkerUpdate::RangeStarted(id) => Report::RangeStarted(id),
        WorkerUpdate::RangeLoaded(id) => Report::RangeLoaded(id),
        WorkerUpdate::RangeFailed(id, text) => Report::RangeFailed(id, text@),
        WorkerUpdate::MutationSaving => Report::MutationSaving,
        WorkerUpdate::MutationSucceeded(effect) => Report::MutationSucceeded(effect),
        WorkerUpdate::MutationFailed(text) => Report::MutationFailed(text@),
        WorkerUpdate::MutationSavingFor(session) => Report::MutationSavingFor(session),
        WorkerUpdate::MutationSucceededFor(session, effect) => Report::MutationSucceededFor(
            session,
            effect,
        ),
        WorkerUpdate::MutationFailedFor(session, text) => Report::MutationFailedFor(session, text@),
        WorkerUpdate::Status(text) => Report::Status(text@),
        WorkerUpdate::Error(text) => Report::Error(text@),
    }
}

/// Reports whose texts are values of mathematics.
pub open spec fn reports(updates: Seq<WorkerUpdate>) -> Seq<Report> {
    updates.map_values(|update: WorkerUpdate| report(update))
}

fn say(update: WorkerUpdate) -> (r: Vec<WorkerUpdate>)
    ensures
        reports(r@) == seq![report(update)],
{
    let mut r: Vec<WorkerUpdate> = Vec::new();
    r.push(update);
    proof {
        assert(reports(r@) =~= seq![report(update)]);
    }
    r
}

fn say_both(first: WorkerUpdate, second: WorkerUpdate) -> (r: Vec<WorkerUpdate>)
    ensures
        reports(r@) == seq![report(first), report(second)],
{
    let mut r: Vec<WorkerUpdate> = Vec::new();
    r.push(first);
    r.push(second);
    proof {
        assert(reports(r@) =~= seq![report(first), report(second)]);
    }
    r
}

fn say_nothing() -> (r: Vec<WorkerUpdate>)
    ensures
        reports(r@) == Seq::<Report>::empty(),
{
    let r: Vec<WorkerUpdate> = Vec::new();
    proof {
        assert(reports(r@) =~= Seq::<Report>::empty());
    }
    r
}

impl Step {
    /// Whether a step reports some updates.
    pub open spec fn says(self, wanted: Seq<Report>) -> bool {
        reports(self.updates@) == wanted
    }
}

/// How an error of a provider is shown in a dialog of calendars.
pub open spec fn calendar_error(error: BackendError) -> CalendarError {
    match error {
        BackendError::Calendar(error) => error,
        BackendError::PermissionDenied => CalendarError::PermissionDenied,
        BackendError::Unsupported(_) => CalendarError::Unsupported,
        _ => CalendarError::Internal,
    }
}

/// How an error of a provider is shown in a dialog of calendars.
pub fn calendar_error_from_backend(error: BackendError) -> (r: CalendarError)
    ensures
        r == calendar_error(error),
{
    match error {
        BackendError::Calendar(error) => error,
        BackendError::PermissionDenied => CalendarError::PermissionDenied,
        BackendError::Unsupported(_) => CalendarError::Unsupported,
        _ => CalendarError::Internal,
    }
}

/// The seconds between two readings that nobody asked for.
pub fn refresh_period(refresh_seconds: u64) -> (r: u64)
    ensures
        r == (if refresh_seconds < 5 {
            5
        } else {
            refresh_seconds
        }),
{
    if refresh_seconds < 5 {
        5
    } else {
        refresh_seconds
    }
}

// Reading everything again.

/// Starts to read everything again.
pub fn synchronize() -> (r: Step)
    ensures
        r.says(seq![Report::Syncing(true)]),
        r.work == Work::CheckAuthorization,
{
    Step { updates: say(WorkerUpdate::Syncing(true)), work: Work::CheckAuthorization }
}

/// What a reading that failed reports.
pub open spec fn gave_up(step: Step, text: Seq<char>) -> bool {
    step.says(seq![Report::Error(text), Report::Syncing(false)]) && step.work == Work::Wait
}

fn give_up(text: String) -> (r: Step)
    ensures
        gave_up(r, text@),
{
    Step {
        updates: say_both(WorkerUpdate::Error(text), WorkerUpdate::Syncing(false)),
        work: Work::Wait,
    }
}

/// After the authorization was read: access is asked for where nobody has decided yet.
pub fn after_authorization(result: Result<AuthorizationStatus, BackendError>) -> (r: Step)
    ensures
        match result {
            Err(error) => gave_up(r, error.text()),
            Ok(AuthorizationStatus::NotDetermined) => r.says(
                seq![Report::Status("Terminal Calendar requires access to macOS calendars."@)],
            ) && r.work == Work::RequestAccess,
            Ok(status) => r.says(Seq::empty()) && r.work == Work::SaveAuthorization(status),
        },
{
    match result {
        Err(error) => give_up(error.message()),
        Ok(AuthorizationStatus::NotDetermined) => Step {
            updates: say(
                WorkerUpdate::Status(
                    "Terminal Calendar requires access to macOS calendars.".to_owned(),
                ),
            ),
            work: Work::RequestAccess,
        },
        Ok(status) => Step { updates: say_nothing(), work: Work::SaveAuthorization(status) },
    }
}

/// After access was asked for.
pub fn after_access(result: Result<AuthorizationStatus, BackendError>) -> (r: Step)
    ensures
        match result {
            Err(error) => gave_up(r, error.text()),
            Ok(status) => r.says(Seq::empty()) && r.work == Work::SaveAuthorization(status),
        },
{
    match result {
        Err(error) => give_up(error.message()),
        Ok(status) => Step { updates: say_nothing(), work: Work::SaveAuthorization(status) },
    }
}

/// What is said where events cannot be read.
pub open spec fn denial_text(status: AuthorizationStatus) -> Seq<char> {
    match status {
        AuthorizationStatus::Denied =>
            "Calendar access denied. Enable it in System Settings → Privacy & Security → Calendars."@,
        AuthorizationStatus::Restricted => "Calendar access is restricted by macOS policy."@,
        AuthorizationStatus::WriteOnly => "Full Calendar access is required to browse events."@,
        _ => "Calendar access is not available."@,
    }
}

fn denial(status: AuthorizationStatus) -> (r: String)
    ensures
        r@ == denial_text(status),
{
    match status {
        AuthorizationStatus::Denied =>
            "Calendar access denied. Enable it in System Settings → Privacy & Security → Calendars.".to_owned(),
        AuthorizationStatus::Restricted =>
            "Calendar access is restricted by macOS policy.".to_owned(),
        AuthorizationStatus::WriteOnly =>
            "Full Calendar access is required to browse events.".to_owned(),
        _ => "Calendar access is not available.".to_owned(),
    }
}

/// After the authorization was saved: reading goes on only with full access.
pub fn after_authorization_saved(
    status: AuthorizationStatus,
    result: Result<(), String>,
) -> (r: Step)
    ensures
        match result {
            Err(error) => gave_up(r, error@),
            Ok(()) => if status == AuthorizationStatus::FullAccess {
                r.says(Seq::empty()) && r.work == Work::ReadCapabilities
            } else {
                gave_up(r, denial_text(status))
            },
        },
{
    match result {
        Err(error) => give_up(error),
        Ok(()) => if status == AuthorizationStatus::FullAccess {
            Step { updates: say_nothing(), work: Work::ReadCapabilities }
        } else {
            give_up(denial(status))
        },
    }
}

/// After the capabilities were read; where they could not be, nothing is said.
pub fn after_capabilities(result: Result<CalendarCapabilities, BackendError>) -> (r: Step)
    ensures
        r.work == Work::ReadSources,
        match result {
            Ok(all) => r.says(seq![Report::CalendarCapabilities(all)]),
            Err(_) => r.says(Seq::empty()),
        },
{
    match result {
        Ok(all) => Step {
            updates: say(WorkerUpdate::CalendarCapabilities(all)),
            work: Work::ReadSources,
        },
        Err(_) => Step { updates: say_nothing(), work: Work::ReadSources },
    }
}

/// After the sources were read; where they could not be, nothing is said.
pub fn after_sources(result: Result<Vec<CalendarSource>, BackendError>) -> (r: Step)
    ensures
        r.work == Work::RefreshWindow,
        match result {
            Ok(sources) => r.says(seq![Report::CalendarSources(sources)]),
            Err(_) => r.says(Seq::empty()),
        },
{
    match result {
        Ok(sources) => Step {
            updates: say(WorkerUpdate::CalendarSources(sources)),
            work: Work::RefreshWindow,
        },
        Err(_) => Step { updates: say_nothing(), work: Work::RefreshWindow },
    }
}

/// The window around an instant that is kept up to date.
pub open spec fn window(now: Timestamp, past_days: int, future_days: int) -> RangeRequest {
    RangeRequest {
        id: 0,
        start: now.shifted(-(past_days * DAY_SECONDS)),
        end: now.shifted(future_days * DAY_SECONDS),
        all_day_range: None,
        reason: RangeReason::BackgroundRefresh,
        priority: RangePriority::Background,
    }
}

/// The window around an instant that is kept up to date.
pub fn window_request(now: Timestamp, past_days: u32, future_days: u32) -> (r: RangeRequest)
    ensures
        r == window(now, past_days as int, future_days as int),
{
    RangeRequest {
        id: 0,
        start: now.plus_seconds(-(past_days as i64 * DAY_SECONDS)),
        end: now.plus_seconds(future_days as i64 * DAY_SECONDS),
        all_day_range: None,
        reason: RangeReason::BackgroundRefresh,
        priority: RangePriority::Background,
    }
}

/// After the window was read.
pub fn after_window(result: Result<Snapshot, String>) -> (r: Step)
    ensures
        match result {
            Ok(snapshot) => r.says(seq![Report::Snapshot(snapshot), Report::Syncing(false)])
                && r.work == Work::Wait,
            Err(error) => gave_up(r, error@),
        },
{
    match result {
        Ok(snapshot) => Step {
            updates: say_both(WorkerUpdate::Snapshot(snapshot), WorkerUpdate::Syncing(false)),
            work: Work::Wait,
        },
        Err(error) => give_up(error),
    }
}

// Commands.

/// What is reported when a change of an event starts.
pub open spec fn saving(session: Option<u64>) -> Report {
    match session {
        Some(session) => Report::MutationSavingFor(session),
        None => Report::MutationSaving,
    }
}

/// What is reported when a change of an event has succeeded.
pub open spec fn saved(session: Option<u64>, effect: MutationEffect) -> Report {
    match session {
        Some(session) => Report::MutationSucceededFor(session, effect),
        None => Report::MutationSucceeded(effect),
    }
}

/// What is reported when a change of an event has failed.
pub open spec fn not_saved(session: Option<u64>, text: Seq<char>) -> Report {
    match session {
        Some(session) => Report::MutationFailedFor(session, text),
        None => Report::MutationFailed(text),
    }
}

fn say_saving(session: Option<u64>) -> (r: Vec<WorkerUpdate>)
    ensures
        reports(r@) == seq![saving(session)],
{
    match session {
        Some(session) => say(WorkerUpdate::MutationSavingFor(session)),
        None => say(WorkerUpdate::MutationSaving),
    }
}

fn say_saved(session: Option<u64>, effect: MutationEffect) -> (r: Vec<WorkerUpdate>)
    ensures
        reports(r@) == seq![saved(session, effect)],
{
    match session {
        Some(session) => say(WorkerUpdate::MutationSucceededFor(session, effect)),
        None => say(WorkerUpdate::MutationSucceeded(effect)),
    }
}

fn say_not_saved(session: Option<u64>, text: String) -> (r: Vec<WorkerUpdate>)
    ensures
        reports(r@) == seq![not_saved(session, text@)],
{
    match session {
        Some(session) => say(WorkerUpdate::MutationFailedFor(session, text)),
        None => say(WorkerUpdate::MutationFailed(text)),
    }
}

/// The work that a command starts with.
pub open spec fn first_work(command: WorkerCommand) -> Work {
    match command {
        WorkerCommand::Refresh => Work::CheckAuthorization,
        WorkerCommand::EnsureRange(request) => Work::LoadRange { request, force: false },
        WorkerCommand::RefreshRange(request) => Work::LoadRange { request, force: true },
        WorkerCommand::SetCalendarEnabled(id, enabled) => Work::SetCalendarEnabled(id, enabled),
        WorkerCommand::CreateCalendar(request) => Work::CreateCalendar(request),
        WorkerCommand::RenameCalendar(request) => Work::RenameCalendar(request),
        WorkerCommand::SetCalendarColor(request) => Work::SetCalendarColor(request),
        WorkerCommand::DeleteCalendar(request) => Work::DeleteCalendar(request),
        WorkerCommand::Create(event) => Work::CreateEvent { session: None, event },
        WorkerCommand::CreateWithSession { session, event } => Work::CreateEvent {
            session: Some(session),
            event,
        },
        WorkerCommand::Update(event, span, recurrence_scope, alarms, time_mutation) =>
            Work::FindUpdated(
            UpdateJob { session: None, event, span, recurrence_scope, alarms, time_mutation },
        ),
        WorkerCommand::UpdateWithSession {
            session,
            event,
            span,
            recurrence_scope,
            alarms,
            time_mutation,
        } => Work::FindUpdated(
            UpdateJob {
                session: Some(session),
                event,
                span,
                recurrence_scope,
                alarms,
                time_mutation,
            },
        ),
        WorkerCommand::Delete(event_id, span, recurrence_scope) => Work::FindDeleted(
            DeleteJob { session: None, event_id, span, recurrence_scope },
        ),
        WorkerCommand::DeleteWithSession { session, event_id, span, recurrence_scope } =>
            Work::FindDeleted(
            DeleteJob { session: Some(session), event_id, span, recurrence_scope },
        ),
        WorkerCommand::OpenUrl(url) => Work::OpenUrl(url),
    }
}

/// What is reported when a command starts.
pub open spec fn first_reports(command: WorkerCommand) -> Seq<Report> {
    match command {
        WorkerCommand::Refresh => seq![Report::Syncing(true)],
        WorkerCommand::EnsureRange(request) => seq![Report::RangeStarted(request.id)],
        WorkerCommand::RefreshRange(request) => seq![Report::RangeStarted(request.id)],
        WorkerCommand::CreateCalendar(_) => seq![Report::MutationSaving],
        WorkerCommand::RenameCalendar(_) => seq![Report::MutationSaving],
        WorkerCommand::SetCalendarColor(_) => seq![Report::MutationSaving],
        WorkerCommand::Create(_) => seq![Report::MutationSaving],
        WorkerCommand::Update(..) => seq![Report::MutationSaving],
        WorkerCommand::Delete(..) => seq![Report::MutationSaving],
        WorkerCommand::CreateWithSession { session, .. } => seq![
            Report::MutationSavingFor(session),
        ],
        WorkerCommand::UpdateWithSession { session, .. } => seq![
            Report::MutationSavingFor(session),
        ],
        WorkerCommand::DeleteWithSession { session, .. } => seq![
            Report::MutationSavingFor(session),
        ],
        _ => Seq::empty(),
    }
}

/// Starts to carry out a command.
pub fn begin(command: WorkerCommand) -> (r: Step)
    ensures
        r.says(first_reports(command)),
        r.work == first_work(command),
{
    match command {
        WorkerCommand::Refresh => synchronize(),
        WorkerCommand::EnsureRange(request) => Step {
            updates: say(WorkerUpdate::RangeStarted(request.id)),
            work: Work::LoadRange { request, force: false },
        },
        WorkerCommand::RefreshRange(request) => Step {
            updates: say(WorkerUpdate::RangeStarted(request.id)),
            work: Work::LoadRange { request, force: true },
        },
        WorkerCommand::SetCalendarEnabled(id, enabled) => Step {
            updates: say_nothing(),
            work: Work::SetCalendarEnabled(id, enabled),
        },
        WorkerCommand::CreateCalendar(request) => Step {
            updates: say(WorkerUpdate::MutationSaving),
            work: Work::CreateCalendar(request),
        },
        WorkerCommand::RenameCalendar(request) => Step {
            updates: say(WorkerUpdate::MutationSaving),
            work: Work::RenameCalendar(request),
        },
        WorkerCommand::SetCalendarColor(request) => Step {
            updates: say(WorkerUpdate::MutationSaving),
            work: Work::SetCalendarColor(request),
        },
        WorkerCommand::DeleteCalendar(request) => Step {
            updates: say_nothing(),
            work: Work::DeleteCalendar(request),
        },
        WorkerCommand::Create(event) => Step {
            updates: say_saving(None),
            work: Work::CreateEvent { session: None, event },
        },
        WorkerCommand::CreateWithSession { session, event } => Step {
            updates: say_saving(Some(session)),
            work: Work::CreateEvent { session: Some(session), event },
        },
        WorkerCommand::Update(event, span, recurrence_scope, alarms, time_mutation) => Step {
            updates: say_saving(None),
            work: Work::FindUpdated(
                UpdateJob { session: None, event, span, recurrence_scope, alarms, time_mutation },
            ),
        },
        WorkerCommand::UpdateWithSession {
            session,
            event,
            span,
            recurrence_scope,
            alarms,
            time_mutation,
        } => Step {
            updates: say_saving(Some(session)),
            work: Work::FindUpdated(
                UpdateJob {
                    session: Some(session),
                    event,
                    span,
                    recurrence_scope,
                    alarms,
                    time_mutation,
                },
            ),
        },
        WorkerCommand::Delete(event_id, span, recurrence_scope) => Step {
            updates: say_saving(None),
            work: Work::FindDeleted(DeleteJob { session: None, event_id, span, recurrence_scope }),
        },
        WorkerCommand::DeleteWithSession { session, event_id, span, recurrence_scope } => Step {
            updates: say_saving(Some(session)),
            work: Work::FindDeleted(
                DeleteJob { session: Some(session), event_id, span, recurrence_scope },
            ),
        },
        WorkerCommand::OpenUrl(url) => Step { updates: say_nothing(), work: Work::OpenUrl(url) },
    }
}

// Ranges.

/// After a range was loaded.
pub fn after_range(id: u64, result: Result<Snapshot, String>) -> (r: Step)
    ensures
        r.work == Work::Wait,
        match result {
            Ok(snapshot) => r.says(seq![Report::Snapshot(snapshot), Report::RangeLoaded(id)]),
            Err(error) => r.says(
                seq![Report::RangeFailed(id, "Could not load requested range: "@ + error@)],
            ),
        },
{
    match result {
        Ok(snapshot) => Step {
            updates: say_both(WorkerUpdate::Snapshot(snapshot), WorkerUpdate::RangeLoaded(id)),
            work: Work::Wait,
        },
        Err(error) => {
            let text = concat2("Could not load requested range: ", error.as_str());
            Step { updates: say(WorkerUpdate::RangeFailed(id, text)), work: Work::Wait }
        },
    }
}

// Calendars.

/// After a calendar was shown or hidden.
pub fn after_calendar_enabled(result: Result<Snapshot, String>) -> (r: Step)
    ensures
        r.work == Work::Wait,
        match result {
            Ok(snapshot) => r.says(seq![Report::Snapshot(snapshot)]),
            Err(error) => r.says(seq![Report::Error(error@)]),
        },
{
    match result {
        Ok(snapshot) => Step { updates: say(WorkerUpdate::Snapshot(snapshot)), work: Work::Wait },
        Err(error) => Step { updates: say(WorkerUpdate::Error(error)), work: Work::Wait },
    }
}

/// After a calendar was to be created.
pub fn after_calendar_created(result: Result<CalendarInfo, BackendError>) -> (r: Step)
    ensures
        match result {
            Ok(calendar) => r.says(seq![Report::CalendarCreateSucceeded(calendar)]) && r.work
                == Work::ReadCalendars,
            Err(error) => r.says(seq![Report::CalendarCreateFailed(calendar_error(error))])
                && r.work == Work::Wait,
        },
{
    match result {
        Ok(calendar) => Step {
            updates: say(WorkerUpdate::CalendarCreateSucceeded(calendar)),
            work: Work::ReadCalendars,
        },
        Err(error) => Step {
            updates: say(WorkerUpdate::CalendarCreateFailed(calendar_error_from_backend(error))),
            work: Work::Wait,
        },
    }
}

/// After a calendar was to be renamed.
pub fn after_calendar_renamed(result: Result<CalendarInfo, BackendError>) -> (r: Step)
    ensures
        match result {
            Ok(calendar) => r.says(seq![Report::CalendarRenameSucceeded(calendar)]) && r.work
                == Work::ReadCalendars,
            Err(error) => r.says(seq![Report::CalendarRenameFailed(calendar_error(error))])
                && r.work == Work::Wait,
        },
{
    match result {
        Ok(calendar) => Step {
            updates: say(WorkerUpdate::CalendarRenameSucceeded(calendar)),
            work: Work::ReadCalendars,
        },
        Err(error) => Step {
            updates: say(WorkerUpdate::CalendarRenameFailed(calendar_error_from_backend(error))),
            work: Work::Wait,
        },
    }
}

/// After a calendar was to be colored.
pub fn after_calendar_colored(result: Result<CalendarInfo, BackendError>) -> (r: Step)
    ensures
        match result {
            Ok(calendar) => r.says(seq![Report::CalendarColorSucceeded(calendar)]) && r.work
                == Work::ReadCalendars,
            Err(error) => r.says(seq![Report::CalendarColorFailed(calendar_error(error))])
                && r.work == Work::Wait,
        },
{
    match result {
        Ok(calendar) => Step {
            updates: say(WorkerUpdate::CalendarColorSucceeded(calendar)),
            work: Work::ReadCalendars,
        },
        Err(error) => Step {
            updates: say(WorkerUpdate::CalendarColorFailed(calendar_error_from_backend(error))),
            work: Work::Wait,
        },
    }
}

/// After a calendar was to be deleted.
pub fn after_calendar_deleted(result: Result<DeleteCalendarResponse, BackendError>) -> (r: Step)
    ensures
        match result {
            Ok(response) => r.says(seq![Report::CalendarDeleteSucceeded(response)]) && r.work
                == Work::ReadCalendars,
            Err(error) => r.says(seq![Report::CalendarDeleteFailed(calendar_error(error))])
                && r.work == Work::Wait,
        },
{
    match result {
        Ok(response) => Step {
            updates: say(WorkerUpdate::CalendarDeleteSucceeded(response)),
            work: Work::ReadCalendars,
        },
        Err(error) => Step {
            updates: say(WorkerUpdate::CalendarDeleteFailed(calendar_error_from_backend(error))),
            work: Work::Wait,
        },
    }
}

/// After the calendars were read again.
pub fn after_calendars(result: Result<Vec<CalendarInfo>, BackendError>) -> (r: Step)
    ensures
        match result {
            Ok(calendars) => r.says(Seq::empty()) && r.work == Work::SaveCalendars(calendars),
            Err(error) => r.says(
                seq![
                    Report::Error(
                        "Calendar created, but metadata refresh failed: "@ + error.text(),
                    ),
                ],
            ) && r.work == Work::Wait,
        },
{
    match result {
        Ok(calendars) => Step { updates: say_nothing(), work: Work::SaveCalendars(calendars) },
        Err(error) => {
            let text = concat2(
                "Calendar created, but metadata refresh failed: ",
                error.message().as_str(),
            );
            Step { updates: say(WorkerUpdate::Error(text)), work: Work::Wait }
        },
    }
}

/// After the calendars were saved.
pub fn after_calendars_saved(result: Result<Snapshot, String>) -> (r: Step)
    ensures
        r.work == Work::Wait,
        match result {
            Ok(snapshot) => r.says(seq![Report::Snapshot(snapshot)]),
            Err(error) => r.says(
                seq![
                    Report::Error(
                        "Calendar created, but local metadata refresh failed: "@ + error@,
                    ),
                ],
            ),
        },
{
    match result {
        Ok(snapshot) => Step { updates: say(WorkerUpdate::Snapshot(snapshot)), work: Work::Wait },
        Err(error) => {
            let text = concat2(
                "Calendar created, but local metadata refresh failed: ",
                error.as_str(),
            );
            Step { updates: say(WorkerUpdate::Error(text)), work: Work::Wait }
        },
    }
}

// Events.

/// The times that a change touches, and the instant from which all that is loaded may have changed.
pub open spec fn touched(effect: MutationEffect) -> (Seq<(Timestamp, Timestamp)>, Option<
    Timestamp,
>) {
    let future = Some(RecurrenceMutationScope::FutureEvents);
    match effect {
        MutationEffect::Created { interval, .. } => (seq![interval], None),
        MutationEffect::Deleted { interval, recurrence_scope, .. } => (
            seq![interval],
            if recurrence_scope == future {
                Some(interval.0)
            } else {
                None
            },
        ),
        MutationEffect::Updated { before_interval, after_interval, recurrence_scope, .. } => (
            seq![before_interval, after_interval],
            if recurrence_scope == future {
                Some(before_interval.0)
            } else {
                None
            },
        ),
    }
}

/// The request that reads a time again.
pub open spec fn reread(start: Timestamp, end: Timestamp) -> RangeRequest {
    RangeRequest {
        id: 0,
        start,
        end,
        all_day_range: None,
        reason: RangeReason::EventKitChange,
        priority: RangePriority::Critical,
    }
}

/// The requests that read some times and their surroundings again.
pub open spec fn around(intervals: Seq<(Timestamp, Timestamp)>) -> Seq<RangeRequest> {
    intervals.map_values(
        |interval: (Timestamp, Timestamp)|
            reread(interval.0.shifted(-MARGIN_SECONDS), interval.1.shifted(MARGIN_SECONDS as int)),
    )
}

/// The requests that read some loaded ranges again, as they are.
pub open spec fn exactly(ranges: Seq<DateRange>) -> Seq<RangeRequest> {
    ranges.map_values(|range: DateRange| reread(range.start, range.end))
}

fn request_for(start: Timestamp, end: Timestamp) -> (r: RangeRequest)
    ensures
        r == reread(start, end),
{
    RangeRequest {
        id: 0,
        start,
        end,
        all_day_range: None,
        reason: RangeReason::EventKitChange,
        priority: RangePriority::Critical,
    }
}

fn requests_around(intervals: &Vec<(Timestamp, Timestamp)>) -> (r: Vec<RangeRequest>)
    ensures
        r@ == around(intervals@),
{
    let mut r: Vec<RangeRequest> = Vec::new();
    let mut i: usize = 0;
    while i < intervals.len()
        invariant
            i <= intervals@.len(),
            r@ == around(intervals@).take(i as int),
        decreases intervals@.len() - i,
    {
        let (start, end) = intervals[i];
        r.push(request_for(start.plus_seconds(-MARGIN_SECONDS), end.plus_seconds(MARGIN_SECONDS)));
        proof {
            assert(r@ =~= around(intervals@).take(i + 1));
        }
        i += 1;
    }
    proof {
        assert(around(intervals@).take(i as int) =~= around(intervals@));
    }
    r
}

fn requests_exactly(ranges: &Vec<DateRange>) -> (r: Vec<RangeRequest>)
    ensures
        r@ == exactly(ranges@),
{
    let mut r: Vec<RangeRequest> = Vec::new();
    let mut i: usize = 0;
    while i < ranges.len()
        invariant
            i <= ranges@.len(),
            r@ == exactly(ranges@).take(i as int),
        decreases ranges@.len() - i,
    {
        let range = ranges[i];
        r.push(request_for(range.start, range.end));
        proof {
            assert(r@ =~= exactly(ranges@).take(i + 1));
        }
        i += 1;
    }
    proof {
        assert(exactly(ranges@).take(i as int) =~= exactly(ranges@));
    }
    r
}

/// Whether work reads again what a change touches: the loaded ranges from its start on where all
/// that follows may have changed, and else its own times.
pub open spec fn rereads(work: Work, effect: MutationEffect) -> bool {
    let (times, future) = touched(effect);
    match future {
        Some(start) => work is ReadCoverage && work->from == start && work->intervals@ == times,
        None => work is RefreshRanges && work->RefreshRanges_0@ == around(times),
    }
}

/// The work that reads again what a change touches.
pub fn refresh_mutation_effect(effect: &MutationEffect) -> (r: Work)
    ensures
        rereads(r, *effect),
{
    let mut times: Vec<(Timestamp, Timestamp)> = Vec::new();
    let mut future: Option<Timestamp> = None;
    match effect {
        MutationEffect::Created { interval, .. } => {
            times.push(*interval);
        },
        MutationEffect::Deleted { interval, recurrence_scope, .. } => {
            times.push(*interval);
            if let Some(RecurrenceMutationScope::FutureEvents) = recurrence_scope {
                future = Some(interval.0);
            }
        },
        MutationEffect::Updated { before_interval, after_interval, recurrence_scope, .. } => {
            times.push(*before_interval);
            times.push(*after_interval);
            if let Some(RecurrenceMutationScope::FutureEvents) = recurrence_scope {
                future = Some(before_interval.0);
            }
        },
    }
    proof {
        assert(times@ =~= touched(*effect).0);
    }
    match future {
        Some(from) => Work::ReadCoverage { from, intervals: times },
        None => Work::RefreshRanges(requests_around(&times)),
    }
}

/// After the loaded ranges were read: they are read again as they are, so that no time in the gaps
/// between them counts as loaded. Where nothing is loaded, the change's own times are read again.
pub fn after_coverage(
    intervals: Vec<(Timestamp, Timestamp)>,
    result: Result<Vec<DateRange>, String>,
) -> (r: Step)
    ensures
        match result {
            Ok(covered) => {
                &&& r.says(Seq::empty())
                &&& r.work is RefreshRanges
                &&& r.work->RefreshRanges_0@ == (if covered@.len() > 0 {
                    exactly(covered@)
                } else {
                    around(intervals@)
                })
            },
            Err(error) => r.says(
                seq![
                    Report::Error(
                        "Event saved, but reading loaded future coverage failed: "@ + error@,
                    ),
                ],
            ) && r.work == Work::Wait,
        },
{
    match result {
        Ok(covered) => {
            let requests = if covered.len() > 0 {
                requests_exactly(&covered)
            } else {
                requests_around(&intervals)
            };
            Step { updates: say_nothing(), work: Work::RefreshRanges(requests) }
        },
        Err(error) => {
            let text = concat2(
                "Event saved, but reading loaded future coverage failed: ",
                error.as_str(),
            );
            Step { updates: say(WorkerUpdate::Error(text)), work: Work::Wait }
        },
    }
}

/// After the first of some ranges was read again: the others follow, also where it failed.
pub fn after_refreshed(left: Vec<RangeRequest>, result: Result<Snapshot, String>) -> (r: Step)
    ensures
        match result {
            Ok(snapshot) => r.says(seq![Report::Snapshot(snapshot)]),
            Err(error) => r.says(
                seq![Report::Error("Event saved, but refreshing its range failed: "@ + error@)],
            ),
        },
        if left@.len() <= 1 {
            r.work == Work::Wait
        } else {
            r.work is RefreshRanges && r.work->RefreshRanges_0@ == left@.drop_first()
        },
{
    let updates = match result {
        Ok(snapshot) => say(WorkerUpdate::Snapshot(snapshot)),
        Err(error) => {
            let text = concat2("Event saved, but refreshing its range failed: ", error.as_str());
            say(WorkerUpdate::Error(text))
        },
    };
    let mut left = left;
    let ghost before = left@;
    if left.len() <= 1 {
        return Step { updates, work: Work::Wait };
    }
    left.remove(0);
    proof {
        assert(left@ =~= before.drop_first());
    }
    Step { updates, work: Work::RefreshRanges(left) }
}

/// Whether a step reports the success of a change, and then reads again what it touches.
pub open spec fn succeeds(step: Step, session: Option<u64>, effect: MutationEffect) -> bool {
    step.says(seq![saved(session, effect)]) && rereads(step.work, effect)
}

/// Whether a step reports the failure of a change, and nothing follows.
pub open spec fn fails(step: Step, session: Option<u64>, text: Seq<char>) -> bool {
    step.says(seq![not_saved(session, text)]) && step.work == Work::Wait
}

fn succeed(session: Option<u64>, effect: MutationEffect) -> (r: Step)
    ensures
        succeeds(r, session, effect),
{
    let work = refresh_mutation_effect(&effect);
    Step { updates: say_saved(session, effect), work }
}

fn fail(session: Option<u64>, prefix: &str, error: &BackendError) -> (r: Step)
    ensures
        fails(r, session, prefix@ + error.text()),
{
    let text = concat2(prefix, error.message().as_str());
    Step { updates: say_not_saved(session, text), work: Work::Wait }
}

/// After an event was to be created.
pub fn after_created(session: Option<u64>, result: Result<Event, BackendError>) -> (r: Step)
    ensures
        match result {
            Ok(created) => succeeds(
                r,
                session,
                MutationEffect::Created {
                    event_id: created.id,
                    interval: (created.start, created.end),
                },
            ),
            Err(error) => fails(r, session, "Unable to save event: "@ + error.text()),
        },
{
    match result {
        Ok(created) => succeed(
            session,
            MutationEffect::Created {
                event_id: created.id,
                interval: (created.start, created.end),
            },
        ),
        Err(error) => fail(session, "Unable to save event: ", &error),
    }
}

/// When an event took place, where it is in a snapshot.
pub open spec fn interval_in(snapshot: Option<Snapshot>, id: Option<Seq<char>>) -> Option<
    (Timestamp, Timestamp),
> {
    match (snapshot, id) {
        (Some(snapshot), Some(id)) => match event_at(snapshot.events@, id) {
            Some(i) => Some((snapshot.events@[i].start, snapshot.events@[i].end)),
            None => None,
        },
        _ => None,
    }
}

/// After the snapshot before an update was read, or could not be.
pub fn after_update_lookup(job: UpdateJob, snapshot: Option<Snapshot>) -> (r: Step)
    ensures
        r.says(Seq::empty()),
        r.work == (Work::UpdateEvent {
            job,
            before: interval_in(snapshot, opt_view(job.event.occurrence_id)),
        }),
{
    let mut before: Option<(Timestamp, Timestamp)> = None;
    if let Some(snapshot) = &snapshot {
        if let Some(id) = &job.event.occurrence_id {
            if let Some(i) = find_event(&snapshot.events, id.as_str()) {
                before = Some((snapshot.events[i].start, snapshot.events[i].end));
            }
        }
    }
    Step { updates: say_nothing(), work: Work::UpdateEvent { job, before } }
}

/// What an update did. An event that was not known before counts as one that has not moved.
pub open spec fn update_effect(
    updated: Event,
    before: Option<(Timestamp, Timestamp)>,
    recurrence_scope: Option<RecurrenceMutationScope>,
) -> MutationEffect {
    MutationEffect::Updated {
        event_id: updated.id,
        before_interval: match before {
            Some(interval) => interval,
            None => (updated.start, updated.end),
        },
        after_interval: (updated.start, updated.end),
        recurrence_scope,
    }
}

/// After an event was to be updated.
pub fn after_updated(
    session: Option<u64>,
    before: Option<(Timestamp, Timestamp)>,
    recurrence_scope: Option<RecurrenceMutationScope>,
    result: Result<Event, BackendError>,
) -> (r: Step)
    ensures
        match result {
            Ok(updated) => succeeds(r, session, update_effect(updated, before, recurrence_scope)),
            Err(error) => fails(r, session, "Unable to save event: "@ + error.text()),
        },
{
    match result {
        Ok(updated) => {
            let after = (updated.start, updated.end);
            let effect = MutationEffect::Updated {
                event_id: updated.id,
                before_interval: match before {
                    Some(interval) => interval,
                    None => after,
                },
                after_interval: after,
                recurrence_scope,
            };
            succeed(session, effect)
        },
        Err(error) => fail(session, "Unable to save event: ", &error),
    }
}

/// The event to delete, where it is in a snapshot and the provider has a name for it.
pub open spec fn deletable(snapshot: Option<Snapshot>, id: Seq<char>) -> Option<Event> {
    match snapshot {
        Some(snapshot) => match event_at(snapshot.events@, id) {
            Some(i) => if snapshot.events@[i].provider_id is Some {
                Some(snapshot.events@[i])
            } else {
                None
            },
            None => None,
        },
        None => None,
    }
}

/// What is said where the provider has no name for an event to delete.
pub open spec fn unknown_target_text() -> Seq<char> {
    "Unable to delete event: "@
        + "invalid calendar data: event provider identity is unavailable; refresh before deleting"@
}

/// After the snapshot before a deletion was read, or could not be.
pub fn after_delete_lookup(job: DeleteJob, snapshot: Option<Snapshot>) -> (r: Step)
    ensures
        match deletable(snapshot, job.event_id@) {
            Some(event) => {
                &&& r.says(Seq::empty())
                &&& r.work == (Work::DeleteEvent {
                    deletion: job,
                    target: EventMutationTarget {
                        provider_id: event.provider_id->0,
                        calendar_id: event.calendar_id,
                        occurrence_start: event.start,
                    },
                    interval: (event.start, event.end),
                })
            },
            None => fails(r, job.session, unknown_target_text()),
        },
{
    if let Some(snapshot) = &snapshot {
        if let Some(i) = find_event(&snapshot.events, job.event_id.as_str()) {
            let event = &snapshot.events[i];
            if let Some(provider_id) = &event.provider_id {
                let target = EventMutationTarget {
                    provider_id: provider_id.clone(),
                    calendar_id: event.calendar_id.clone(),
                    occurrence_start: event.start,
                };
                let interval = (event.start, event.end);
                return Step {
                    updates: say_nothing(),
                    work: Work::DeleteEvent { deletion: job, target, interval },
                };
            }
        }
    }
    let text = concat2(
        "Unable to delete event: ",
        "invalid calendar data: event provider identity is unavailable; refresh before deleting",
    );
    Step { updates: say_not_saved(job.session, text), work: Work::Wait }
}

/// After an event was to be deleted.
pub fn after_deleted(
    job: DeleteJob,
    interval: (Timestamp, Timestamp),
    result: Result<(), BackendError>,
) -> (r: Step)
    ensures
        match result {
            Ok(()) => succeeds(
                r,
                job.session,
                MutationEffect::Deleted {
                    event_id: job.event_id,
                    interval,
                    recurrence_scope: job.recurrence_scope,
                },
            ),
            Err(error) => fails(r, job.session, "Unable to delete event: "@ + error.text()),
        },
{
    match result {
        Ok(()) => succeed(
            job.session,
            MutationEffect::Deleted {
                event_id: job.event_id,
                interval,
                recurrence_scope: job.recurrence_scope,
            },
        ),
        Err(error) => fail(job.session, "Unable to delete event: ", &error),
    }
}

// Links.

/// What came of opening a link.
#[derive(Debug)]
pub enum OpenOutcome {
    Opened,
    /// The program ended with this status.
    Exited(String),
    /// The program could not be run.
    NotRun(String),
}

/// After a link was to be opened.
pub fn after_open(outcome: OpenOutcome) -> (r: Step)
    ensures
        r.work == Work::Wait,
        r.says(
            seq![
                match outcome {
                    OpenOutcome::Opened => Report::Status("Opened event link"@),
                    OpenOutcome::Exited(status) => Report::Error("macOS open exited with "@ + status@),
                    OpenOutcome::NotRun(error) => Report::Error("Could not open link: "@ + error@),
                },
            ],
        ),
{
    let update = match outcome {
        OpenOutcome::Opened => WorkerUpdate::Status("Opened event link".to_owned()),
        OpenOutcome::Exited(status) => WorkerUpdate::Error(
            concat2("macOS open exited with ", status.as_str()),
        ),
        OpenOutcome::NotRun(error) => WorkerUpdate::Error(
            concat2("Could not open link: ", error.as_str()),
        ),
    };
    Step { updates: say(update), work: Work::Wait }
}

// Notices.

/// What happens by itself between commands.
#[derive(Clone, Copy, Debug, PartialEq, Eq, Structural)]
pub enum Notice {
    /// The provider's calendars have changed in some way.
    Changed,
    /// The connection to the provider stands otherwise.
    State(BackendState),
    /// The delay after a change is over.
    DelayOver,
    /// The period between two readings is over.
    Tick,
}

/// Whether a reading is due after a change: a change sets it, and the reading that it leads to
/// clears it. Changes in between only put the reading off.
pub fn after_notice(notice: Notice, due: bool) -> (r: (Step, bool))
    ensures
        match notice {
            Notice::Changed => r.0.says(Seq::empty()) && r.0.work == Work::Wait && r.1,
            Notice::State(state) => r.0.says(seq![Report::BackendState(state)]) && r.0.work
                == Work::Wait && r.1 == due,
            Notice::DelayOver => r.0.says(seq![Report::Syncing(true)]) && r.0.work
                == Work::CheckAuthorization && !r.1,
            Notice::Tick => r.0.says(seq![Report::Syncing(true)]) && r.0.work
                == Work::CheckAuthorization && r.1 == due,
        },
{
    match notice {
        Notice::Changed => (Step { updates: say_nothing(), work: Work::Wait }, true),
        Notice::State(state) => (
            Step { updates: say(WorkerUpdate::BackendState(state)), work: Work::Wait },
            due,
        ),
        Notice::DelayOver => (synchronize(), false),
        Notice::Tick => (synchronize(), due),
    }
}

// Laws.

/// What is read again after a change holds the change's own times.
pub proof fn law_rereading_covers_the_change(intervals: Seq<(Timestamp, Timestamp)>, i: int)
    requires
        0 <= i < intervals.len(),
    ensures
        around(intervals).len() == intervals.len(),
        around(intervals)[i].start.nanos <= intervals[i].0.nanos,
        around(intervals)[i].end.nanos >= intervals[i].1.nanos,
{
}

/// Where later events of a series may have changed, exactly the loaded ranges are read again: no
/// instant that was not loaded is asked for.
pub proof fn law_gaps_are_not_read(covered: Seq<DateRange>, instant: Timestamp)
    requires
        forall|i: int|
            0 <= i < covered.len() ==> !((#[trigger] covered[i]).start.nanos <= instant.nanos
                < covered[i].end.nanos),
    ensures
        forall|i: int|
            0 <= i < covered.len() ==> !((#[trigger] exactly(covered)[i]).start.nanos
                <= instant.nanos < exactly(covered)[i].end.nanos),
        exactly(covered).len() == covered.len(),
{
    assert forall|i: int| 0 <= i < covered.len() implies !((
    #[trigger] exactly(covered)[i]).start.nanos <= instant.nanos < exactly(
        covered,
    )[i].end.nanos) by {
        assert(exactly(covered)[i] == reread(covered[i].start, covered[i].end));
    }
}

/// The session that a change of an event is asked for with.
pub open spec fn session_of(command: WorkerCommand) -> Option<u64> {
    match command {
        WorkerCommand::CreateWithSession { session, .. } => Some(session),
        WorkerCommand::UpdateWithSession { session, .. } => Some(session),
        WorkerCommand::DeleteWithSession { session, .. } => Some(session),
        _ => None,
    }
}

/// A change that is asked for with a session is answered for that session: the report that it
/// starts names the session, and the work carries it on to the report on how it ended.
pub proof fn law_changes_carry_their_session(command: WorkerCommand)
    requires
        session_of(command) is Some,
    ensures
        first_reports(command) == seq![saving(session_of(command))],
        match first_work(command) {
            Work::CreateEvent { session, .. } => session == session_of(command),
            Work::FindUpdated(job) => job.session == session_of(command),
            Work::FindDeleted(job) => job.session == session_of(command),
            _ => false,
        },
{
}

} // verus!
