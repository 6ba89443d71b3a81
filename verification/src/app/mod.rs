//! The application's state, and what the user and the provider do to it.
//!
//! What depends on the machine's clock is stated over what the clock answered: the bounds of the
//! view as instants, and the days on which events take place.

pub mod actions;
pub mod calendars;
pub mod dialogs;
pub mod editing;
pub mod history;
pub mod keys;
pub mod overlays;
pub mod palette;
pub mod pointer;
pub mod prompts;
pub mod shown;
pub mod timeline;
pub mod update;
pub mod worker;

use crate::backend::BackendState;
use crate::calendar_form::{
    CalendarColorForm, CalendarDeleteConfirmation, CalendarForm, CalendarRenameForm,
};
use crate::config::Config;
use crate::event_form::EventForm;
use crate::hit_test::CalendarHitTarget;
use crate::model::{
    Alarm, AlarmMutation, CalendarCapabilities, CalendarError, CalendarInfo, CalendarSource,
    CreateCalendarRequest, DeleteCalendarRequest, DeleteCalendarResponse, EventDraft,
    EventDraftView, EventSpan, EventTimeMutation, RangeRequest, RecurrenceMutationScope,
    RenameCalendarRequest, SetCalendarColorRequest, Snapshot,
};
use crate::text::{ascii_lower, same_text, to_ascii_lower};
use crate::time::{Date, Timestamp};
use vstd::prelude::*;
use vstd::view::View as _;

verus! {

#[verifier::external_type_specification]
#[verifier::external_body]
pub struct ExInstant(std::time::Instant);

/// `std::time::Instant::now` gives the current instant of the machine's steady clock. The clock
/// decides its value.
#[verifier::external_body]
pub(crate) fn steady_now() -> (r: std::time::Instant) {
    std::time::Instant::now()
}

/// A message for the user: its text, whether it is an error, and when it came.
pub type Status = Option<(String, bool, std::time::Instant)>;

/// Whether a message says a text.
pub open spec fn says(status: Status, text: Seq<char>, error: bool) -> bool {
    status matches Some(message) && message.0@ == text && message.1 == error
}

/// A message for the user.
pub(crate) fn message(text: String, error: bool) -> (r: Status)
    ensures
        says(r, text@, error),
{
    Some((text, error, steady_now()))
}

/// Says a text where `needed` holds.
pub(crate) fn say_when(status: &mut Status, needed: bool, text: &str, error: bool)
    ensures
        needed ==> says(*final(status), text@, error),
        !needed ==> *final(status) == *old(status),
{
    if needed {
        *status = message(text.to_owned(), error);
    }
}

/// Empties a place where `needed` holds.
pub(crate) fn clear_when<T>(place: &mut Option<T>, needed: bool)
    ensures
        *final(place) == (if needed {
            None
        } else {
            *old(place)
        }),
{
    if needed {
        *place = None;
    }
}

/// Closes all overlays where `needed` holds.
pub(crate) fn close_when(frames: &mut Vec<ModalFrame>, needed: bool)
    ensures
        needed ==> final(frames)@.len() == 0,
        !needed ==> *final(frames) == *old(frames),
{
    if needed {
        frames.clear();
    }
}

#[derive(Clone, Copy, Debug, PartialEq, Eq, Structural)]
pub enum View {
    Day,
    Week,
    Month,
    Agenda,
}

impl View {
    /// The view that a setting names; the week for any other text.
    pub open spec fn named(value: Seq<char>) -> View {
        let lower = ascii_lower(value);
        if lower == "day"@ {
            View::Day
        } else if lower == "month"@ {
            View::Month
        } else if lower == "agenda"@ {
            View::Agenda
        } else {
            View::Week
        }
    }

    /// The view that a setting names; the week for any other text.
    pub fn from_config(value: &str) -> (r: Self)
        ensures
            r == Self::named(value@),
    {
        let lower = to_ascii_lower(value);
        if same_text(lower.as_str(), "day") {
            View::Day
        } else if same_text(lower.as_str(), "month") {
            View::Month
        } else if same_text(lower.as_str(), "agenda") {
            View::Agenda
        } else {
            View::Week
        }
    }

    /// The name of the view.
    pub open spec fn text(self) -> Seq<char> {
        match self {
            View::Day => "Day"@,
            View::Week => "Week"@,
            View::Month => "Month"@,
            View::Agenda => "Agenda"@,
        }
    }

    /// The name of the view.
    pub fn label(self) -> (r: &'static str)
        ensures
            r@ == self.text(),
    {
        match self {
            View::Day => "Day",
            View::Week => "Week",
            View::Month => "Month",
            View::Agenda => "Agenda",
        }
    }
}

/// Who positions the timeline. Once the user has scrolled it, a redraw does not move it.
#[derive(Clone, Copy, Debug, PartialEq, Eq, Structural)]
pub enum TimelineViewportOwner {
    Auto,
    Manual,
}

/// What the user is doing.
#[derive(Clone, Copy, Debug, PartialEq, Eq, Structural)]
pub enum Mode {
    Normal,
    Calendars,
    CalendarManager,
    CalendarManagerDetails,
    CalendarCreate,
    CalendarRename,
    CalendarColor,
    CalendarDeleteConfirm,
    QuickAdd,
    Details,
    Search,
    Palette,
    DateJump,
    Form,
    DiscardConfirm,
    Delete,
    RecurringEditScope,
    RecurringDeleteScope,
    Help,
}

/// An overlay, and what it returns to.
#[derive(Clone, Copy, Debug, PartialEq, Eq, Structural)]
pub struct ModalFrame {
    pub current: Mode,
    pub return_to: Mode,
}

/// What was selected before the view or the events change, by identity: an index does not survive
/// the change.
#[derive(Debug, PartialEq, Eq)]
pub struct SelectionContext {
    pub active_date: Date,
    pub selected_event_id: Option<String>,
    pub selected_event_date: Option<Date>,
}

/// The occurrence that details or an editor were opened for.
#[derive(Debug, PartialEq, Eq)]
pub struct InteractionContext {
    pub source_view: View,
    pub source_active_date: Date,
    pub occurrence_id: String,
    pub occurrence_local_date: Date,
    pub provider_id: Option<String>,
    pub calendar_id: String,
    pub canonical_occurrence_start: Timestamp,
}

/// What the user wants, whichever way it was said.
#[derive(Debug, PartialEq, Eq)]
pub enum UserAction {
    CreateEvent,
    QuickAdd,
    EditEvent(String),
    DuplicateEvent(String),
    DeleteEvent(String),
    MoveEvent { event_id: String, target: EventMoveTarget },
    Search,
    OpenDateJump,
    GoToDate(Date),
    Today,
    ChangeView(View),
    Refresh,
    RetryVisibleRange,
    ToggleSidebar,
    Undo,
    Redo,
}

/// Where an event is moved: to instants, or to dates.
#[derive(Clone, Copy, Debug, PartialEq, Eq, Structural)]
pub enum EventMoveTarget {
    Timed { start: Timestamp, end: Timestamp },
    AllDay { start_date: Date, end_date_exclusive: Date },
}

#[derive(Clone, Copy, Debug, PartialEq, Eq, Structural)]
pub enum DragState {
    Idle,
    Pressed,
    Dragging,
    Preview,
    Dropped,
}

/// A move of an event that is being tried. It changes no event; when it is done it gives the action
/// that moves the event.
#[derive(Debug, PartialEq, Eq)]
pub struct DragSession {
    pub event_id: Option<String>,
    pub origin: Option<CalendarHitTarget>,
    pub current_target: Option<CalendarHitTarget>,
    pub state: DragState,
}

/// What a recurring event was chosen for before its scope is chosen.
#[derive(Clone, Copy, Debug, PartialEq, Eq, Structural)]
pub enum RecurrenceMutationAction {
    Edit,
    Delete,
    Move(EventMoveTarget),
}

/// What the worker is asked to do.
#[derive(Debug)]
pub enum WorkerCommand {
    Refresh,
    RefreshRange(RangeRequest),
    SetCalendarEnabled(String, bool),
    CreateCalendar(CreateCalendarRequest),
    RenameCalendar(RenameCalendarRequest),
    SetCalendarColor(SetCalendarColorRequest),
    DeleteCalendar(DeleteCalendarRequest),
    Create(EventDraft),
    CreateWithSession { session: u64, event: EventDraft },
    Update(
        EventDraft,
        EventSpan,
        Option<RecurrenceMutationScope>,
        AlarmMutation,
        EventTimeMutation,
    ),
    UpdateWithSession {
        session: u64,
        event: EventDraft,
        span: EventSpan,
        recurrence_scope: Option<RecurrenceMutationScope>,
        alarms: AlarmMutation,
        time_mutation: EventTimeMutation,
    },
    Delete(String, EventSpan, Option<RecurrenceMutationScope>),
    DeleteWithSession {
        session: u64,
        event_id: String,
        span: EventSpan,
        recurrence_scope: Option<RecurrenceMutationScope>,
    },
    OpenUrl(String),
    EnsureRange(RangeRequest),
}

/// What the worker is asked to do, as values of mathematics.
pub ghost enum WorkerCommandView {
    Refresh,
    RefreshRange(RangeRequest),
    SetCalendarEnabled(Seq<char>, bool),
    CreateCalendar { source_id: Seq<char>, title: Seq<char>, color: Seq<char> },
    RenameCalendar { calendar_id: Seq<char>, title: Seq<char> },
    SetCalendarColor { calendar_id: Seq<char>, color: Seq<char> },
    DeleteCalendar { calendar_id: Seq<char> },
    Create(EventDraftView),
    CreateWithSession { session: u64, event: EventDraftView },
    Update(
        EventDraftView,
        EventSpan,
        Option<RecurrenceMutationScope>,
        Option<Seq<Alarm>>,
        EventTimeMutation,
    ),
    UpdateWithSession {
        session: u64,
        event: EventDraftView,
        span: EventSpan,
        recurrence_scope: Option<RecurrenceMutationScope>,
        alarms: Option<Seq<Alarm>>,
        time_mutation: EventTimeMutation,
    },
    Delete(Seq<char>, EventSpan, Option<RecurrenceMutationScope>),
    DeleteWithSession {
        session: u64,
        event_id: Seq<char>,
        span: EventSpan,
        recurrence_scope: Option<RecurrenceMutationScope>,
    },
    OpenUrl(Seq<char>),
    EnsureRange(RangeRequest),
}

impl vstd::view::View for WorkerCommand {
    type V = WorkerCommandView;

    open spec fn view(&self) -> WorkerCommandView {
        match self {
            WorkerCommand::Refresh => WorkerCommandView::Refresh,
            WorkerCommand::RefreshRange(range) => WorkerCommandView::RefreshRange(*range),
            WorkerCommand::SetCalendarEnabled(id, enabled) => WorkerCommandView::SetCalendarEnabled(
                id@,
                *enabled,
            ),
            WorkerCommand::CreateCalendar(request) => WorkerCommandView::CreateCalendar {
                source_id: request.source_id@,
                title: request.title@,
                color: request.color@,
            },
            WorkerCommand::RenameCalendar(request) => WorkerCommandView::RenameCalendar {
                calendar_id: request.calendar_id@,
                title: request.title@,
            },
            WorkerCommand::SetCalendarColor(request) => WorkerCommandView::SetCalendarColor {
                calendar_id: request.calendar_id@,
                color: request.color@,
            },
            WorkerCommand::DeleteCalendar(request) => WorkerCommandView::DeleteCalendar {
                calendar_id: request.calendar_id@,
            },
            WorkerCommand::Create(draft) => WorkerCommandView::Create(draft@),
            WorkerCommand::CreateWithSession { session, event } =>
                WorkerCommandView::CreateWithSession { session: *session, event: event@ },
            WorkerCommand::Update(draft, span, scope, alarms, time) => WorkerCommandView::Update(
                draft@,
                *span,
                *scope,
                alarms@,
                *time,
            ),
            WorkerCommand::UpdateWithSession {
                session,
                event,
                span,
                recurrence_scope,
                alarms,
                time_mutation,
            } => WorkerCommandView::UpdateWithSession {
                session: *session,
                event: event@,
                span: *span,
                recurrence_scope: *recurrence_scope,
                alarms: alarms@,
                time_mutation: *time_mutation,
            },
            WorkerCommand::Delete(id, span, scope) => WorkerCommandView::Delete(id@, *span, *scope),
            WorkerCommand::DeleteWithSession { session, event_id, span, recurrence_scope } =>
                WorkerCommandView::DeleteWithSession {
                session: *session,
                event_id: event_id@,
                span: *span,
                recurrence_scope: *recurrence_scope,
            },
            WorkerCommand::OpenUrl(url) => WorkerCommandView::OpenUrl(url@),
            WorkerCommand::EnsureRange(range) => WorkerCommandView::EnsureRange(*range),
        }
    }
}

/// A command that may be absent.
pub open spec fn command_view(r: Option<WorkerCommand>) -> Option<WorkerCommandView> {
    match r {
        Some(command) => Some(command@),
        None => None,
    }
}

/// What the worker reports.
#[derive(Debug)]
pub enum WorkerUpdate {
    Syncing(bool),
    BackendState(BackendState),
    Snapshot(Snapshot),
    CalendarCapabilities(CalendarCapabilities),
    CalendarSources(Vec<CalendarSource>),
    CalendarCreateSucceeded(CalendarInfo),
    CalendarCreateFailed(CalendarError),
    CalendarRenameSucceeded(CalendarInfo),
    CalendarRenameFailed(CalendarError),
    CalendarColorSucceeded(CalendarInfo),
    CalendarColorFailed(CalendarError),
    CalendarDeleteSucceeded(DeleteCalendarResponse),
    CalendarDeleteFailed(CalendarError),
    RangeStarted(u64),
    RangeLoaded(u64),
    RangeFailed(u64, String),
    MutationSaving,
    MutationSucceeded(MutationEffect),
    MutationFailed(String),
    MutationSavingFor(u64),
    MutationSucceededFor(u64, MutationEffect),
    MutationFailedFor(u64, String),
    Status(String),
    Error(String),
}

/// What a provider did to an event.
#[derive(Debug, PartialEq, Eq)]
pub enum MutationEffect {
    Created { event_id: String, interval: (Timestamp, Timestamp) },
    Updated {
        event_id: String,
        before_interval: (Timestamp, Timestamp),
        after_interval: (Timestamp, Timestamp),
        recurrence_scope: Option<RecurrenceMutationScope>,
    },
    Deleted {
        event_id: String,
        interval: (Timestamp, Timestamp),
        recurrence_scope: Option<RecurrenceMutationScope>,
    },
}

impl MutationEffect {
    /// The event that was changed.
    pub open spec fn event(self) -> String {
        match self {
            MutationEffect::Created { event_id, .. } => event_id,
            MutationEffect::Updated { event_id, .. } => event_id,
            MutationEffect::Deleted { event_id, .. } => event_id,
        }
    }

    /// The event that was changed.
    pub fn event_id(&self) -> (r: &str)
        ensures
            r@ == self.event()@,
    {
        match self {
            MutationEffect::Created { event_id, .. } => event_id.as_str(),
            MutationEffect::Updated { event_id, .. } => event_id.as_str(),
            MutationEffect::Deleted { event_id, .. } => event_id.as_str(),
        }
    }

    /// What is said of the change.
    pub open spec fn text(self) -> Seq<char> {
        match self {
            MutationEffect::Created { .. } => "Event created"@,
            MutationEffect::Updated { .. } => "Event updated"@,
            MutationEffect::Deleted { .. } => "Event deleted"@,
        }
    }

    /// What is said of the change.
    pub fn label(&self) -> (r: &'static str)
        ensures
            r@ == self.text(),
    {
        match self {
            MutationEffect::Created { .. } => "Event created",
            MutationEffect::Updated { .. } => "Event updated",
            MutationEffect::Deleted { .. } => "Event deleted",
        }
    }
}

/// A change of an event that a provider has confirmed and that can be taken back. Changes of a
/// recurring series are not: a provider may split it.
#[derive(Debug, PartialEq, Eq)]
pub enum UndoRecord {
    Created { draft: EventDraft, created_event_id: String },
    Updated {
        event_id: String,
        before: Box<ReversibleEventDraft>,
        after: Box<ReversibleEventDraft>,
    },
    Deleted { deleted: ReversibleEventDraft, restored_event_id: Option<String> },
}

/// What is needed to make an event what it was.
#[derive(Debug, PartialEq, Eq)]
pub struct ReversibleEventDraft {
    pub draft: EventDraft,
    pub alarm_mutation: AlarmMutation,
    pub time_mutation: EventTimeMutation,
}

#[derive(Debug, PartialEq, Eq)]
pub enum PendingHistory {
    Initial(UndoRecord),
    Undo(UndoRecord),
    Redo(UndoRecord),
}

/// The changes that can be taken back and made again, the last at the end, and the one that waits
/// for the provider.
#[derive(Debug, PartialEq, Eq)]
pub struct History {
    pub undo_stack: Vec<UndoRecord>,
    pub redo_stack: Vec<UndoRecord>,
    pub pending: Option<PendingHistory>,
}

#[derive(Clone, Copy, Debug, PartialEq, Eq, Structural)]
pub enum MutationState {
    Idle,
    Saving,
    Deleting,
    Failed,
}

/// How far the range that is shown has been loaded. Cached events stay usable meanwhile.
#[derive(Debug, PartialEq, Eq)]
pub enum VisibleRangeState {
    Ready,
    Loading,
    Failed(VisibleRangeError),
}

#[derive(Debug, PartialEq, Eq)]
pub struct VisibleRangeError {
    pub request_id: u64,
    pub range: RangeRequest,
    pub error: String,
    pub timestamp: Timestamp,
}

/// The application's state.
pub struct App {
    pub config: Config,
    pub snapshot: Snapshot,
    pub active_date: Date,
    pub view: View,
    pub mode: Mode,
    pub modal_stack: Vec<ModalFrame>,
    pub selected_event: usize,
    pub selected_calendar: usize,
    pub calendar_capabilities: CalendarCapabilities,
    pub calendar_sources: Vec<CalendarSource>,
    pub sidebar_visible: bool,
    pub timeline_start_minute: u16,
    pub timeline_viewport_owner: TimelineViewportOwner,
    pub drag_session: DragSession,
    pub search_query: String,
    pub search_selected: usize,
    pub form: Option<EventForm>,
    pub calendar_form: Option<CalendarForm>,
    pub calendar_rename_form: Option<CalendarRenameForm>,
    pub calendar_color_form: Option<CalendarColorForm>,
    pub calendar_delete_confirmation: Option<CalendarDeleteConfirmation>,
    pub quick_add_input: String,
    pub form_dirty: bool,
    pub mutation_state: MutationState,
    pub delete_span: EventSpan,
    pub delete_recurrence_scope: Option<RecurrenceMutationScope>,
    pub pending_recurring_mutation: Option<(String, RecurrenceMutationAction)>,
    /// The event whose deletion is to be confirmed, by identity: the selection may move meanwhile.
    pub pending_delete_event_id: Option<String>,
    pub palette_query: String,
    pub palette_selected: usize,
    pub detail_scroll: u16,
    pub help_scroll: u16,
    pub syncing: bool,
    pub backend_state: BackendState,
    pub should_quit: bool,
    pub status: Status,
    pub visible_range_request_id: u64,
    pub visible_range: Option<RangeRequest>,
    pub visible_range_state: VisibleRangeState,
    pub pending_selection: Option<String>,
    pub interaction_context: Option<InteractionContext>,
    pub next_mutation_session: u64,
    pub active_mutation_session: Option<u64>,
    pub pending_calendar_selection: Option<String>,
    pub pending_g: bool,
    pub history: History,
}

} // verus!
