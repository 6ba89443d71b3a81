//! Taking changes back and making them again.
//!
//! A change can be taken back once the provider has confirmed it, and the provider confirms the
//! taking back as well: until then the record of the change is pending.

use super::{
    command_view, message, says, App, History, Mode, MutationEffect, MutationState, PendingHistory,
    ReversibleEventDraft, UndoRecord, WorkerCommand, WorkerCommandView,
};
use crate::alarm::{AlarmEditorState, AlarmEditorView};
use crate::backend::mock::{drafted, updated};
use crate::model::{
    clone_alarms, clone_rules, event_at, find_event, rule_views, Alarm, AlarmMutation, Event,
    EventDraft, EventDraftView, EventSpan, EventTimeInput, EventTimeMutation, EventView,
    RecurrenceMutationScope,
};
use crate::text::opt_view;
use vstd::prelude::*;

verus! {

/// How many changes can be taken back.
pub const UNDO_HISTORY_LIMIT: usize = 20;

/// What is needed to make an event what it was, as values of mathematics.
#[verifier::ext_equal]
pub ghost struct ReversibleView {
    pub draft: EventDraftView,
    pub alarm_mutation: Option<Seq<Alarm>>,
    pub time_mutation: EventTimeMutation,
}

impl vstd::view::View for ReversibleEventDraft {
    type V = ReversibleView;

    open spec fn view(&self) -> ReversibleView {
        ReversibleView {
            draft: self.draft@,
            alarm_mutation: self.alarm_mutation@,
            time_mutation: self.time_mutation,
        }
    }
}

/// A change that can be taken back, as values of mathematics.
pub ghost enum UndoRecordView {
    Created { draft: EventDraftView, created_event_id: Seq<char> },
    Updated { event_id: Seq<char>, before: ReversibleView, after: ReversibleView },
    Deleted { deleted: ReversibleView, restored_event_id: Option<Seq<char>> },
}

impl vstd::view::View for UndoRecord {
    type V = UndoRecordView;

    open spec fn view(&self) -> UndoRecordView {
        match self {
            UndoRecord::Created { draft, created_event_id } => UndoRecordView::Created {
                draft: draft@,
                created_event_id: created_event_id@,
            },
            UndoRecord::Updated { event_id, before, after } => UndoRecordView::Updated {
                event_id: event_id@,
                before: (**before)@,
                after: (**after)@,
            },
            UndoRecord::Deleted { deleted, restored_event_id } => UndoRecordView::Deleted {
                deleted: deleted@,
                restored_event_id: opt_view(*restored_event_id),
            },
        }
    }
}

/// A record that waits for the provider, and which way it goes.
pub ghost enum PendingView {
    Initial(UndoRecordView),
    Undo(UndoRecordView),
    Redo(UndoRecordView),
}

pub open spec fn pending_view(pending: Option<PendingHistory>) -> Option<PendingView> {
    match pending {
        None => None,
        Some(PendingHistory::Initial(record)) => Some(PendingView::Initial(record@)),
        Some(PendingHistory::Undo(record)) => Some(PendingView::Undo(record@)),
        Some(PendingHistory::Redo(record)) => Some(PendingView::Redo(record@)),
    }
}

pub open spec fn record_views(stack: Seq<UndoRecord>) -> Seq<UndoRecordView> {
    stack.map_values(|record: UndoRecord| record@)
}

/// A stack with one more record; a full one loses its oldest.
pub open spec fn remembered<T>(stack: Seq<T>, record: T) -> Seq<T> {
    if stack.len() == UNDO_HISTORY_LIMIT {
        stack.drop_first().push(record)
    } else {
        stack.push(record)
    }
}

/// What is needed to make an event what it is: for an update, or to create it again. There is none
/// for an all-day event without known dates, nor for an event that does not end after it starts.
pub open spec fn reversible(event: Event, id: Option<Seq<char>>, for_create: bool) -> Option<
    ReversibleView,
> {
    let timed = event.start.nanos < event.end.nanos;
    let time = if event.all_day {
        match event.date_range() {
            Some(dates) => if for_create {
                Some(EventTimeInput::AllDay { start_date: dates.0, end_date_exclusive: dates.1 })
            } else if timed {
                Some(EventTimeInput::LegacyAllDayUnknown { start: event.start, end: event.end })
            } else {
                None
            },
            None => None,
        }
    } else if timed {
        Some(EventTimeInput::Timed { start: event.start, end: event.end })
    } else {
        None
    };
    match time {
        None => None,
        Some(time) => Some(
            ReversibleView {
                draft: EventDraftView {
                    id,
                    occurrence_id: Some(event.id@),
                    occurrence_start: Some(event.start),
                    occurrence_calendar_id: Some(event.calendar_id@),
                    calendar_id: event.calendar_id@,
                    title: event.title@,
                    time,
                    location: event.location@,
                    notes: event.notes@,
                    url: event.url@,
                    time_zone: event.time_zone@,
                    availability: event.availability,
                    attendees: Seq::empty(),
                    alarms: event.alarms@,
                    recurrence: rule_views(event.recurrence@),
                },
                alarm_mutation: if AlarmEditorView::of_existing(event.alarms@)
                    is ProtectedExisting {
                    None
                } else {
                    Some(event.alarms@)
                },
                time_mutation: match event.date_range() {
                    Some(dates) => EventTimeMutation::ReplaceAllDay {
                        start_date: dates.0,
                        end_date_exclusive: dates.1,
                    },
                    None => EventTimeMutation::ReplaceLegacy,
                },
            },
        ),
    }
}

/// A record once the provider has confirmed it: with the identity that the event has now.
#[verifier::opaque]
pub open spec fn confirmed(record: UndoRecordView, effect: MutationEffect) -> UndoRecordView {
    match (record, effect) {
        (
            UndoRecordView::Created { draft, .. },
            MutationEffect::Created { event_id, .. },
        ) => UndoRecordView::Created { draft, created_event_id: event_id@ },
        (
            UndoRecordView::Updated { before, after, .. },
            MutationEffect::Updated { event_id, .. },
        ) => UndoRecordView::Updated {
            event_id: event_id@,
            before: ReversibleView {
                draft: EventDraftView { occurrence_id: Some(event_id@), ..before.draft },
                ..before
            },
            after: ReversibleView {
                draft: EventDraftView { occurrence_id: Some(event_id@), ..after.draft },
                ..after
            },
        },
        (
            UndoRecordView::Deleted { deleted, .. },
            MutationEffect::Created { event_id, .. },
        ) => UndoRecordView::Deleted { deleted, restored_event_id: Some(event_id@) },
        _ => record,
    }
}

/// A command without the session that it was tagged with.
pub open spec fn without_session(command: WorkerCommandView) -> WorkerCommandView {
    match command {
        WorkerCommandView::CreateWithSession { event, .. } => WorkerCommandView::Create(event),
        WorkerCommandView::UpdateWithSession {
            event,
            span,
            recurrence_scope,
            alarms,
            time_mutation,
            ..
        } => WorkerCommandView::Update(event, span, recurrence_scope, alarms, time_mutation),
        WorkerCommandView::DeleteWithSession { event_id, span, recurrence_scope, .. } =>
            WorkerCommandView::Delete(event_id, span, recurrence_scope),
        other => other,
    }
}

/// A command tagged with a session, where it changes an event.
pub open spec fn with_session(command: WorkerCommandView, session: u64) -> WorkerCommandView {
    match command {
        WorkerCommandView::Create(event) => WorkerCommandView::CreateWithSession { session, event },
        WorkerCommandView::Update(event, span, recurrence_scope, alarms, time_mutation) =>
            WorkerCommandView::UpdateWithSession {
            session,
            event,
            span,
            recurrence_scope,
            alarms,
            time_mutation,
        },
        WorkerCommandView::Delete(event_id, span, recurrence_scope) =>
            WorkerCommandView::DeleteWithSession { session, event_id, span, recurrence_scope },
        other => other,
    }
}

/// Whether a command changes an event and carries no session.
pub open spec fn is_mutation(command: WorkerCommandView) -> bool {
    command is Create || command is Update || command is Delete
}

impl History {
    /// Neither stack holds more records than the limit.
    pub open spec fn wf(self) -> bool {
        self.undo_stack@.len() <= UNDO_HISTORY_LIMIT && self.redo_stack@.len() <= UNDO_HISTORY_LIMIT
    }

    /// The stack that taking back, or making again, takes from.
    pub open spec fn stack(self, undo: bool) -> Seq<UndoRecord> {
        if undo {
            self.undo_stack@
        } else {
            self.redo_stack@
        }
    }

    fn push_history(stack: &mut Vec<UndoRecord>, record: UndoRecord)
        ensures
            final(stack)@ == remembered(old(stack)@, record),
            old(stack)@.len() <= UNDO_HISTORY_LIMIT ==> final(stack)@.len() <= UNDO_HISTORY_LIMIT,
    {
        if stack.len() == UNDO_HISTORY_LIMIT {
            let _ = stack.remove(0);
            proof {
                assert(stack@ =~= old(stack)@.drop_first());
            }
        }
        stack.push(record);
    }

    fn confirm_record(record: UndoRecord, effect: &MutationEffect) -> (r: UndoRecord)
        ensures
            r@ == confirmed(record@, *effect),
    {
        proof {
            reveal(confirmed);
        }
        match (record, effect) {
            (
                UndoRecord::Created { draft, .. },
                MutationEffect::Created { event_id, .. },
            ) => UndoRecord::Created { draft, created_event_id: event_id.clone() },
            (
                UndoRecord::Updated { before, after, .. },
                MutationEffect::Updated { event_id, .. },
            ) => {
                let mut before = *before;
                let mut after = *after;
                before.draft.occurrence_id = Some(event_id.clone());
                after.draft.occurrence_id = Some(event_id.clone());
                UndoRecord::Updated {
                    event_id: event_id.clone(),
                    before: Box::new(before),
                    after: Box::new(after),
                }
            },
            (
                UndoRecord::Deleted { deleted, .. },
                MutationEffect::Created { event_id, .. },
            ) => UndoRecord::Deleted { deleted, restored_event_id: Some(event_id.clone()) },
            (record, _) => record,
        }
    }

    /// The stacks after the provider has confirmed what was pending: a new change and one made
    /// again can be taken back, one taken back can be made again, and a new change leaves nothing to
    /// make again.
    pub open spec fn confirmed(self, effect: MutationEffect, post: History) -> bool {
        let undo = record_views(self.undo_stack@);
        let redo = record_views(self.redo_stack@);
        &&& post.pending is None
        &&& match pending_view(self.pending) {
            None => post.undo_stack == self.undo_stack && post.redo_stack == self.redo_stack,
            Some(PendingView::Initial(record)) => {
                &&& record_views(post.undo_stack@) == remembered(undo, confirmed(record, effect))
                &&& post.redo_stack@.len() == 0
            },
            Some(PendingView::Undo(record)) => {
                &&& post.undo_stack == self.undo_stack
                &&& record_views(post.redo_stack@) == remembered(redo, confirmed(record, effect))
            },
            Some(PendingView::Redo(record)) => {
                &&& record_views(post.undo_stack@) == remembered(undo, confirmed(record, effect))
                &&& post.redo_stack == self.redo_stack
            },
        }
    }

    fn remember_undo(&mut self, record: UndoRecord)
        ensures
            *final(self) == (History { undo_stack: final(self).undo_stack, ..*old(self) }),
            record_views(final(self).undo_stack@) == remembered(
                record_views(old(self).undo_stack@),
                record@,
            ),
            final(self).undo_stack@ == remembered(old(self).undo_stack@, record),
            old(self).wf() ==> final(self).wf(),
    {
        let ghost before = self.undo_stack@;
        Self::push_history(&mut self.undo_stack, record);
        proof {
            assert(record_views(self.undo_stack@) =~= remembered(record_views(before), record@));
        }
    }

    fn remember_redo(&mut self, record: UndoRecord)
        ensures
            *final(self) == (History { redo_stack: final(self).redo_stack, ..*old(self) }),
            record_views(final(self).redo_stack@) == remembered(
                record_views(old(self).redo_stack@),
                record@,
            ),
            final(self).redo_stack@ == remembered(old(self).redo_stack@, record),
            old(self).wf() ==> final(self).wf(),
    {
        let ghost before = self.redo_stack@;
        Self::push_history(&mut self.redo_stack, record);
        proof {
            assert(record_views(self.redo_stack@) =~= remembered(record_views(before), record@));
        }
    }

    /// Files the pending record once the provider has confirmed it.
    pub fn complete(&mut self, effect: &MutationEffect)
        ensures
            old(self).confirmed(*effect, *final(self)),
            old(self).wf() ==> final(self).wf(),
    {
        match self.pending.take() {
            None => {},
            Some(PendingHistory::Initial(record)) => {
                let record = Self::confirm_record(record, effect);
                self.redo_stack.clear();
                self.remember_undo(record);
            },
            Some(PendingHistory::Undo(record)) => {
                let record = Self::confirm_record(record, effect);
                self.remember_redo(record);
            },
            Some(PendingHistory::Redo(record)) => {
                let record = Self::confirm_record(record, effect);
                self.remember_undo(record);
            },
        }
    }

    /// The stacks after the provider has refused what was pending: a record taken from a stack goes
    /// back to it, and a new change leaves none.
    pub open spec fn refused(self, post: History) -> bool {
        &&& post.pending is None
        &&& match self.pending {
            Some(PendingHistory::Undo(record)) => {
                &&& post.undo_stack@ == remembered(self.undo_stack@, record)
                &&& post.redo_stack == self.redo_stack
            },
            Some(PendingHistory::Redo(record)) => {
                &&& post.undo_stack == self.undo_stack
                &&& post.redo_stack@ == remembered(self.redo_stack@, record)
            },
            _ => post.undo_stack == self.undo_stack && post.redo_stack == self.redo_stack,
        }
    }

    /// Puts the pending record back once the provider has refused it.
    pub fn fail(&mut self)
        ensures
            old(self).refused(*final(self)),
            old(self).wf() ==> final(self).wf(),
    {
        match self.pending.take() {
            Some(PendingHistory::Undo(record)) => self.remember_undo(record),
            Some(PendingHistory::Redo(record)) => self.remember_redo(record),
            Some(PendingHistory::Initial(_)) => {},
            None => {},
        }
    }

    /// Takes the last record of a stack, to wait for the provider.
    pub fn take(&mut self, undo: bool)
        requires
            old(self).stack(undo).len() > 0,
        ensures
            old(self).taken(undo, *final(self)),
            old(self).wf() ==> final(self).wf(),
    {
        if undo {
            match self.undo_stack.pop() {
                Some(record) => self.pending = Some(PendingHistory::Undo(record)),
                None => {},
            }
        } else {
            match self.redo_stack.pop() {
                Some(record) => self.pending = Some(PendingHistory::Redo(record)),
                None => {},
            }
        }
    }

    /// The history with the last record of a stack waiting for the provider.
    pub open spec fn taken(self, undo: bool, post: History) -> bool {
        &&& post.undo_stack@ == (if undo {
            self.undo_stack@.drop_last()
        } else {
            self.undo_stack@
        })
        &&& post.redo_stack@ == (if undo {
            self.redo_stack@
        } else {
            self.redo_stack@.drop_last()
        })
        &&& post.pending == (if undo {
            Some(PendingHistory::Undo(self.stack(undo).last()))
        } else {
            Some(PendingHistory::Redo(self.stack(undo).last()))
        })
    }
}

impl App {
    /// The event with an identity.
    pub open spec fn event_index(self, id: Seq<char>) -> Option<int> {
        event_at(self.snapshot.events@, id)
    }

    /// The record of a command, by which it could be taken back. Only single events have one, and
    /// only those whose alarms can be made again where they are deleted.
    pub open spec fn record_of(self, command: WorkerCommandView) -> Option<UndoRecordView> {
        match without_session(command) {
            WorkerCommandView::Create(draft) => if draft.recurrence.len() == 0 {
                Some(UndoRecordView::Created { draft, created_event_id: Seq::empty() })
            } else {
                None
            },
            WorkerCommandView::Update(draft, EventSpan::ThisEvent, None, alarms, time) => {
                let index = match draft.id {
                    Some(id) => self.event_index(id),
                    None => None,
                };
                match index {
                    None => None,
                    Some(i) => {
                        let event = self.snapshot.events@[i];
                        match reversible(event, Some(event.id@), false) {
                            Some(before) => if event.has_recurrence {
                                None
                            } else {
                                Some(
                                    UndoRecordView::Updated {
                                        event_id: event.id@,
                                        before,
                                        after: ReversibleView {
                                            draft,
                                            alarm_mutation: alarms,
                                            time_mutation: time,
                                        },
                                    },
                                )
                            },
                            None => None,
                        }
                    },
                }
            },
            WorkerCommandView::Delete(id, EventSpan::ThisEvent, None) => match self.event_index(
                id,
            ) {
                None => None,
                Some(i) => {
                    let event = self.snapshot.events@[i];
                    if event.has_recurrence || AlarmEditorView::of_existing(event.alarms@)
                        is ProtectedExisting {
                        None
                    } else {
                        match reversible(event, None, true) {
                            Some(deleted) => Some(
                                UndoRecordView::Deleted { deleted, restored_event_id: None },
                            ),
                            None => None,
                        }
                    }
                },
            },
            _ => None,
        }
    }

    /// The draft that brings an event back as it is, under an identity, where nothing would be lost.
    pub fn reversible_event_draft(event: &Event, id: Option<String>, for_create: bool) -> (r: Option<
        ReversibleEventDraft,
    >)
        ensures
            match r {
                Some(made) => reversible(*event, opt_view(id), for_create) == Some(made@),
                None => reversible(*event, opt_view(id), for_create) is None,
            },
    {
        let (time, time_mutation) = if event.all_day {
            let (start_date, end_date_exclusive) = match event.all_day_date_range() {
                Some(dates) => dates,
                None => return None,
            };
            let time = if for_create {
                EventTimeInput::all_day(start_date, end_date_exclusive)
            } else {
                EventTimeInput::legacy_all_day_unknown(event.start, event.end)
            };
            match time {
                Ok(time) => (
                    time,
                    EventTimeMutation::ReplaceAllDay { start_date, end_date_exclusive },
                ),
                Err(_) => return None,
            }
        } else {
            match EventTimeInput::timed(event.start, event.end) {
                Ok(time) => (time, EventTimeMutation::ReplaceLegacy),
                Err(_) => return None,
            }
        };
        let alarm_mutation = if AlarmEditorState::from_existing(&event.alarms).is_protected() {
            AlarmMutation::Preserve
        } else {
            AlarmMutation::Replace(clone_alarms(&event.alarms))
        };
        let draft = EventDraft {
            id,
            occurrence_id: Some(event.id.clone()),
            occurrence_start: Some(event.start),
            occurrence_calendar_id: Some(event.calendar_id.clone()),
            calendar_id: event.calendar_id.clone(),
            title: event.title.clone(),
            time,
            location: event.location.clone(),
            notes: event.notes.clone(),
            url: event.url.clone(),
            time_zone: event.time_zone.clone(),
            availability: event.availability,
            attendees: Vec::new(),
            alarms: clone_alarms(&event.alarms),
            recurrence: clone_rules(&event.recurrence),
        };
        proof {
            assert(draft@.attendees =~= Seq::<Seq<char>>::empty());
        }
        Some(ReversibleEventDraft { draft, alarm_mutation, time_mutation })
    }

    fn record_for_create(draft: &EventDraft) -> (r: Option<UndoRecord>)
        ensures
            match r {
                Some(record) => draft@.recurrence.len() == 0 && record@ == (
                UndoRecordView::Created { draft: draft@, created_event_id: Seq::empty() }),
                None => draft@.recurrence.len() != 0,
            },
    {
        if draft.recurrence.len() == 0 {
            Some(UndoRecord::Created { draft: draft.clone(), created_event_id: String::new() })
        } else {
            None
        }
    }

    fn record_for_update(
        &self,
        draft: &EventDraft,
        span: EventSpan,
        scope_chosen: bool,
        alarms: &AlarmMutation,
        time: EventTimeMutation,
    ) -> (r: Option<UndoRecord>)
        ensures
            ({
                let scope = if scope_chosen {
                    Some(RecurrenceMutationScope::ThisEvent)
                } else {
                    None
                };
                match r {
                    Some(record) => self.record_of(
                        WorkerCommandView::Update(draft@, span, scope, alarms@, time),
                    ) == Some(record@),
                    None => self.record_of(
                        WorkerCommandView::Update(draft@, span, scope, alarms@, time),
                    ) is None,
                }
            }),
    {
        if span != EventSpan::ThisEvent || scope_chosen {
            return None;
        }
        let index = match &draft.id {
            Some(id) => find_event(&self.snapshot.events, id.as_str()),
            None => None,
        };
        match index {
            None => None,
            Some(i) => {
                let event = &self.snapshot.events[i];
                if event.has_recurrence {
                    return None;
                }
                match Self::reversible_event_draft(event, Some(event.id.clone()), false) {
                    Some(before) => Some(
                        UndoRecord::Updated {
                            event_id: event.id.clone(),
                            before: Box::new(before),
                            after: Box::new(
                                ReversibleEventDraft {
                                    draft: draft.clone(),
                                    alarm_mutation: alarms.clone(),
                                    time_mutation: time,
                                },
                            ),
                        },
                    ),
                    None => None,
                }
            },
        }
    }

    fn record_for_delete(&self, id: &str, span: EventSpan, scope_chosen: bool) -> (r: Option<
        UndoRecord,
    >)
        ensures
            ({
                let scope = if scope_chosen {
                    Some(RecurrenceMutationScope::ThisEvent)
                } else {
                    None
                };
                match r {
                    Some(record) => self.record_of(WorkerCommandView::Delete(id@, span, scope))
                        == Some(record@),
                    None => self.record_of(WorkerCommandView::Delete(id@, span, scope)) is None,
                }
            }),
    {
        if span != EventSpan::ThisEvent || scope_chosen {
            return None;
        }
        match find_event(&self.snapshot.events, id) {
            None => None,
            Some(i) => {
                let event = &self.snapshot.events[i];
                if event.has_recurrence || AlarmEditorState::from_existing(
                    &event.alarms,
                ).is_protected() {
                    return None;
                }
                match Self::reversible_event_draft(event, None, true) {
                    Some(deleted) => Some(UndoRecord::Deleted { deleted, restored_event_id: None }),
                    None => None,
                }
            },
        }
    }

    /// The record of a command, by which it could be taken back.
    pub fn undo_record_for_command(&self, command: &WorkerCommand) -> (r: Option<UndoRecord>)
        ensures
            match r {
                Some(record) => self.record_of(command@) == Some(record@),
                None => self.record_of(command@) is None,
            },
    {
        match command {
            WorkerCommand::Create(draft) => Self::record_for_create(draft),
            WorkerCommand::CreateWithSession { event, .. } => Self::record_for_create(event),
            WorkerCommand::Update(draft, span, scope, alarms, time) => self.record_for_update(
                draft,
                *span,
                scope.is_some(),
                alarms,
                *time,
            ),
            WorkerCommand::UpdateWithSession {
                event,
                span,
                recurrence_scope,
                alarms,
                time_mutation,
                ..
            } => self.record_for_update(
                event,
                *span,
                recurrence_scope.is_some(),
                alarms,
                *time_mutation,
            ),
            WorkerCommand::Delete(id, span, scope) => self.record_for_delete(
                id.as_str(),
                *span,
                scope.is_some(),
            ),
            WorkerCommand::DeleteWithSession { event_id, span, recurrence_scope, .. } =>
                self.record_for_delete(event_id.as_str(), *span, recurrence_scope.is_some()),
            _ => None,
        }
    }

    /// Keeps the record of a command that goes to the worker, until the provider confirms it. While
    /// another record waits, none is kept.
    pub fn note_dispatched_mutation(&mut self, command: &WorkerCommand)
        ensures
            *final(self) == (App {
                history: History { pending: final(self).history.pending, ..old(self).history },
                ..*old(self)
            }),
            match old(self).history.pending {
                Some(pending) => final(self).history.pending == Some(pending),
                None => pending_view(final(self).history.pending) == (match old(self).record_of(
                    command@,
                ) {
                    Some(record) => Some(PendingView::Initial(record)),
                    None => None,
                }),
            },
    {
        if self.history.pending.is_some() {
            return;
        }
        self.history.pending = match self.undo_record_for_command(command) {
            Some(record) => Some(PendingHistory::Initial(record)),
            None => None,
        };
    }

    /// The calendar that taking a record back, or making it again, would change; there is none
    /// where the event is gone.
    pub open spec fn history_calendar(self, record: UndoRecordView, undo: bool) -> Option<
        Seq<char>,
    > {
        match (record, undo) {
            (UndoRecordView::Created { created_event_id, .. }, true) => self.calendar_of_event(
                created_event_id,
            ),
            (UndoRecordView::Created { draft, .. }, false) => Some(draft.calendar_id),
            (UndoRecordView::Updated { event_id, .. }, _) => self.calendar_of_event(event_id),
            (UndoRecordView::Deleted { deleted, .. }, true) => Some(deleted.draft.calendar_id),
            (UndoRecordView::Deleted { restored_event_id, .. }, false) => match restored_event_id {
                Some(id) => self.calendar_of_event(id),
                None => None,
            },
        }
    }

    /// The calendar of the event with an identity.
    pub open spec fn calendar_of_event(self, id: Seq<char>) -> Option<Seq<char>> {
        match self.event_index(id) {
            Some(i) => Some(self.snapshot.events@[i].calendar_id@),
            None => None,
        }
    }

    fn find_calendar_of_event(&self, id: &str) -> (r: Option<&str>)
        ensures
            match r {
                Some(calendar) => self.calendar_of_event(id@) == Some(calendar@),
                None => self.calendar_of_event(id@) is None,
            },
    {
        match find_event(&self.snapshot.events, id) {
            Some(i) => Some(self.snapshot.events[i].calendar_id.as_str()),
            None => None,
        }
    }

    /// Why the last record cannot be used.
    pub open spec fn record_fault(self, undo: bool) -> Option<Seq<char>> {
        if self.history.stack(undo).len() == 0 {
            None
        } else {
            match self.history_calendar(self.history.stack(undo).last()@, undo) {
                None => Some("Provider state changed; event no longer exists"@),
                Some(calendar) => if self.writable(calendar) {
                    None
                } else {
                    Some("This calendar is read-only"@)
                },
            }
        }
    }

    /// Why nothing can be taken back, or made again.
    pub open spec fn history_fault(self, undo: bool) -> Option<Seq<char>> {
        if self.history.pending is Some {
            Some("A calendar change is still in progress"@)
        } else if self.history.stack(undo).len() == 0 {
            if undo {
                Some("Nothing to undo"@)
            } else {
                Some("Nothing to redo"@)
            }
        } else {
            self.record_fault(undo)
        }
    }

    fn record_calendar(&self, record: &UndoRecord, undo: bool) -> (r: Option<String>)
        ensures
            opt_view(r) == self.history_calendar(record@, undo),
    {
        let calendar = match (record, undo) {
            (UndoRecord::Created { created_event_id, .. }, true) => self.find_calendar_of_event(
                created_event_id.as_str(),
            ),
            (UndoRecord::Created { draft, .. }, false) => Some(draft.calendar_id.as_str()),
            (UndoRecord::Updated { event_id, .. }, _) => self.find_calendar_of_event(
                event_id.as_str(),
            ),
            (UndoRecord::Deleted { deleted, .. }, true) => Some(
                deleted.draft.calendar_id.as_str(),
            ),
            (UndoRecord::Deleted { restored_event_id, .. }, false) => match restored_event_id {
                Some(id) => self.find_calendar_of_event(id.as_str()),
                None => None,
            },
        };
        match calendar {
            Some(calendar) => Some(calendar.to_owned()),
            None => None,
        }
    }

    /// Why the last record cannot be used.
    pub fn history_unavailable_reason(&self, undo: bool) -> (r: Option<&'static str>)
        ensures
            match r {
                Some(reason) => self.record_fault(undo) == Some(reason@),
                None => self.record_fault(undo) is None,
            },
    {
        let stack = if undo {
            &self.history.undo_stack
        } else {
            &self.history.redo_stack
        };
        if stack.len() == 0 {
            return None;
        }
        match self.record_calendar(&stack[stack.len() - 1], undo) {
            None => Some("Provider state changed; event no longer exists"),
            Some(calendar) => if self.calendar_is_writable(calendar.as_str()) {
                None
            } else {
                Some("This calendar is read-only")
            },
        }
    }

    /// Why nothing can be taken back, or made again.
    pub fn history_available_reason(&self, undo: bool) -> (r: Option<&'static str>)
        ensures
            match r {
                Some(reason) => self.history_fault(undo) == Some(reason@),
                None => self.history_fault(undo) is None,
            },
    {
        if self.history.pending.is_some() {
            return Some("A calendar change is still in progress");
        }
        let empty = if undo {
            self.history.undo_stack.len() == 0
        } else {
            self.history.redo_stack.len() == 0
        };
        if empty {
            return Some(
                if undo {
                    "Nothing to undo"
                } else {
                    "Nothing to redo"
                },
            );
        }
        self.history_unavailable_reason(undo)
    }

    /// The update that makes an event what a record holds, on the event as it is now. It takes the
    /// provider's identity of the event.
    pub open spec fn history_update(self, event_id: Seq<char>, made: ReversibleView) -> Option<
        WorkerCommandView,
    > {
        match self.event_index(event_id) {
            None => None,
            Some(i) => {
                let event = self.snapshot.events@[i];
                match event.provider_id {
                    None => None,
                    Some(provider_id) => Some(
                        WorkerCommandView::Update(
                            EventDraftView {
                                id: Some(provider_id@),
                                occurrence_id: Some(event.id@),
                                occurrence_start: Some(event.start),
                                occurrence_calendar_id: Some(event.calendar_id@),
                                ..made.draft
                            },
                            EventSpan::ThisEvent,
                            None,
                            made.alarm_mutation,
                            made.time_mutation,
                        ),
                    ),
                }
            },
        }
    }

    /// The command that takes a record back, or makes it again.
    pub open spec fn history_command(self, record: UndoRecordView, undo: bool) -> Option<
        WorkerCommandView,
    > {
        match (record, undo) {
            (UndoRecordView::Created { created_event_id, .. }, true) => Some(
                WorkerCommandView::Delete(created_event_id, EventSpan::ThisEvent, None),
            ),
            (UndoRecordView::Created { draft, .. }, false) => Some(
                WorkerCommandView::Create(draft),
            ),
            (UndoRecordView::Updated { event_id, before, .. }, true) => self.history_update(
                event_id,
                before,
            ),
            (UndoRecordView::Updated { event_id, after, .. }, false) => self.history_update(
                event_id,
                after,
            ),
            (UndoRecordView::Deleted { deleted, .. }, true) => Some(
                WorkerCommandView::Create(EventDraftView { id: None, ..deleted.draft }),
            ),
            (UndoRecordView::Deleted { restored_event_id, .. }, false) => match restored_event_id {
                Some(id) => Some(WorkerCommandView::Delete(id, EventSpan::ThisEvent, None)),
                None => None,
            },
        }
    }

    fn update_from_history(&self, event_id: &str, made: &ReversibleEventDraft) -> (r: Option<
        WorkerCommand,
    >)
        ensures
            command_view(r) == self.history_update(event_id@, made@),
    {
        match find_event(&self.snapshot.events, event_id) {
            None => None,
            Some(i) => {
                let event = &self.snapshot.events[i];
                match &event.provider_id {
                    None => None,
                    Some(provider_id) => {
                        let mut draft = made.draft.clone();
                        draft.id = Some(provider_id.clone());
                        draft.occurrence_id = Some(event.id.clone());
                        draft.occurrence_start = Some(event.start);
                        draft.occurrence_calendar_id = Some(event.calendar_id.clone());
                        Some(
                            WorkerCommand::Update(
                                draft,
                                EventSpan::ThisEvent,
                                None,
                                made.alarm_mutation.clone(),
                                made.time_mutation,
                            ),
                        )
                    },
                }
            },
        }
    }

    fn command_from_history(&self, record: &UndoRecord, undo: bool) -> (r: Option<WorkerCommand>)
        ensures
            command_view(r) == self.history_command(record@, undo),
    {
        match (record, undo) {
            (UndoRecord::Created { created_event_id, .. }, true) => Some(
                WorkerCommand::Delete(created_event_id.clone(), EventSpan::ThisEvent, None),
            ),
            (UndoRecord::Created { draft, .. }, false) => Some(
                WorkerCommand::Create(draft.clone()),
            ),
            (UndoRecord::Updated { event_id, before, .. }, true) => self.update_from_history(
                event_id.as_str(),
                before,
            ),
            (UndoRecord::Updated { event_id, after, .. }, false) => self.update_from_history(
                event_id.as_str(),
                after,
            ),
            (UndoRecord::Deleted { deleted, .. }, true) => {
                let mut draft = deleted.draft.clone();
                draft.id = None;
                Some(WorkerCommand::Create(draft))
            },
            (UndoRecord::Deleted { restored_event_id, .. }, false) => match restored_event_id {
                Some(id) => Some(WorkerCommand::Delete(id.clone(), EventSpan::ThisEvent, None)),
                None => None,
            },
        }
    }

    /// The state after taking the last change back, or making it again: the record waits for the
    /// provider. Where that cannot be done the user is told why; where the event has no provider's
    /// identity nothing happens.
    pub open spec fn after_history(self, undo: bool, post: App, r: Option<WorkerCommand>) -> bool {
        match self.history_fault(undo) {
            Some(reason) => {
                &&& r is None
                &&& post == (App { status: post.status, ..self })
                &&& says(post.status, reason, true)
            },
            None => {
                let record = self.history.stack(undo).last();
                &&& command_view(r) == self.history_command(record@, undo)
                &&& r is None ==> post == self
                &&& r is Some ==> post == (App { history: post.history, ..self })
                    && self.history.taken(undo, post.history)
            },
        }
    }

    /// Takes the last change back, or makes it again.
    pub fn execute_history(&mut self, undo: bool) -> (r: Option<WorkerCommand>)
        ensures
            old(self).after_history(undo, *final(self), r),
            old(self).wf() ==> final(self).wf(),
    {
        match self.history_available_reason(undo) {
            Some(reason) => {
                self.status = message(reason.to_owned(), true);
                return None;
            },
            None => {},
        }
        let command = if undo {
            self.command_from_history(&self.history.undo_stack[self.history.undo_stack.len() - 1], undo)
        } else {
            self.command_from_history(&self.history.redo_stack[self.history.redo_stack.len() - 1], undo)
        };
        if command.is_none() {
            return None;
        }
        self.history.take(undo);
        command
    }

    /// The number of the next session.
    pub open spec fn next_session(self) -> u64 {
        if self.next_mutation_session == u64::MAX {
            1
        } else {
            (self.next_mutation_session + 1) as u64
        }
    }

    /// Tags a change of an event with a new session, which becomes the current one. Only reports
    /// with that session may touch the editor.
    pub fn begin_mutation_session(&mut self, command: WorkerCommand) -> (r: WorkerCommand)
        ensures
            !is_mutation(command@) ==> r == command && *final(self) == *old(self),
            is_mutation(command@) ==> {
                &&& r@ == with_session(command@, old(self).next_session())
                &&& *final(self) == (App {
                    next_mutation_session: old(self).next_session(),
                    active_mutation_session: Some(old(self).next_session()),
                    ..*old(self)
                })
            },
    {
        match command {
            WorkerCommand::Create(_) => {},
            WorkerCommand::Update(_, _, _, _, _) => {},
            WorkerCommand::Delete(_, _, _) => {},
            other => return other,
        }
        let session: u64 = if self.next_mutation_session == u64::MAX {
            1
        } else {
            self.next_mutation_session + 1
        };
        self.next_mutation_session = session;
        self.active_mutation_session = Some(session);
        match command {
            WorkerCommand::Create(event) => WorkerCommand::CreateWithSession { session, event },
            WorkerCommand::Update(event, span, recurrence_scope, alarms, time_mutation) =>
                WorkerCommand::UpdateWithSession {
                session,
                event,
                span,
                recurrence_scope,
                alarms,
                time_mutation,
            },
            WorkerCommand::Delete(event_id, span, recurrence_scope) =>
                WorkerCommand::DeleteWithSession { session, event_id, span, recurrence_scope },
            other => other,
        }
    }

    /// The state after the provider has confirmed a change of an event.
    pub open spec fn after_success(self, effect: MutationEffect, post: App) -> bool {
        let closes = self.mode == Mode::Form || self.mode == Mode::QuickAdd;
        &&& post == (App {
            history: post.history,
            mutation_state: MutationState::Idle,
            active_mutation_session: None,
            form: None,
            form_dirty: false,
            pending_recurring_mutation: None,
            pending_delete_event_id: None,
            pending_selection: if effect is Deleted {
                self.pending_selection
            } else {
                post.pending_selection
            },
            interaction_context: if closes || effect is Deleted {
                None
            } else {
                self.interaction_context
            },
            mode: if closes {
                Mode::Normal
            } else {
                self.mode
            },
            modal_stack: if closes {
                post.modal_stack
            } else {
                self.modal_stack
            },
            status: post.status,
            ..self
        })
        &&& self.history.confirmed(effect, post.history)
        &&& !(effect is Deleted) ==> opt_view(post.pending_selection) == Some(effect.event()@)
        &&& closes ==> post.modal_stack@.len() == 0
        &&& says(post.status, effect.text(), false)
    }

    /// Takes in that the provider has confirmed a change of an event. The event that it reports is
    /// selected once it is loaded.
    pub fn apply_mutation_success(&mut self, effect: MutationEffect)
        ensures
            old(self).after_success(effect, *final(self)),
            old(self).wf() ==> final(self).wf(),
    {
        self.history.complete(&effect);
        self.mutation_state = MutationState::Idle;
        self.active_mutation_session = None;
        self.form = None;
        self.form_dirty = false;
        self.pending_recurring_mutation = None;
        self.pending_delete_event_id = None;
        match &effect {
            MutationEffect::Deleted { .. } => {
                self.interaction_context = None;
            },
            _ => {
                self.pending_selection = Some(effect.event_id().to_owned());
            },
        }
        if self.mode == Mode::Form || self.mode == Mode::QuickAdd {
            self.modal_stack.clear();
            self.mode = Mode::Normal;
            self.interaction_context = None;
        }
        self.status = message(effect.label().to_owned(), false);
    }

    /// The state after the provider has refused a change of an event.
    pub open spec fn after_failure(self, text: Seq<char>, post: App) -> bool {
        &&& post == (App {
            history: post.history,
            mutation_state: MutationState::Failed,
            active_mutation_session: None,
            status: post.status,
            ..self
        })
        &&& self.history.refused(post.history)
        &&& says(post.status, text, true)
    }

    /// Takes in that the provider has refused a change of an event. What was typed stays.
    pub fn apply_mutation_failure(&mut self, text: String)
        ensures
            old(self).after_failure(text@, *final(self)),
            old(self).wf() ==> final(self).wf(),
    {
        self.history.fail();
        self.mutation_state = MutationState::Failed;
        self.active_mutation_session = None;
        self.status = message(text, true);
    }
}

/// A change that the provider refuses to take back, or to make again, stays where it was: both
/// stacks are as before.
pub proof fn law_refused_history_is_retained(
    app: App,
    undo: bool,
    asked: App,
    command: WorkerCommand,
    post: History,
)
    requires
        app.history.wf(),
        app.after_history(undo, asked, Some(command)),
        asked.history.refused(post),
    ensures
        post.undo_stack@ == app.history.undo_stack@,
        post.redo_stack@ == app.history.redo_stack@,
        post.pending is None,
{
    let stack = app.history.stack(undo);
    assert(stack.drop_last().push(stack.last()) =~= stack);
}

/// A change that is taken back and confirmed leaves the stack of changes to take back and can be
/// made again, and the other way round.
pub proof fn law_confirmed_history_changes_sides(
    app: App,
    undo: bool,
    asked: App,
    command: WorkerCommand,
    effect: MutationEffect,
    post: History,
)
    requires
        app.history.wf(),
        app.after_history(undo, asked, Some(command)),
        asked.history.confirmed(effect, post),
    ensures
        record_views(post.stack(undo)) == record_views(app.history.stack(undo)).drop_last(),
        record_views(post.stack(!undo)) == remembered(
            record_views(app.history.stack(!undo)),
            confirmed(app.history.stack(undo).last()@, effect),
        ),
        record_views(post.stack(!undo)).last() == confirmed(
            app.history.stack(undo).last()@,
            effect,
        ),
{
    assert(record_views(app.history.stack(undo).drop_last()) =~= record_views(
        app.history.stack(undo),
    ).drop_last());
}

/// A new change that is confirmed leaves nothing to make again, and is the first to be taken back.
pub proof fn law_new_change_clears_redo(
    app: App,
    record: UndoRecord,
    effect: MutationEffect,
    post: History,
)
    requires
        app.history.pending == Some(PendingHistory::Initial(record)),
        app.history.confirmed(effect, post),
    ensures
        post.redo_stack@.len() == 0,
        post.undo_stack@.len() > 0,
        post.undo_stack@.last()@ == confirmed(record@, effect),
{
    assert(record_views(post.undo_stack@).last() == confirmed(record@, effect));
    assert(record_views(post.undo_stack@).len() == post.undo_stack@.len());
}

/// While a change waits for the provider, nothing is taken back or made again.
pub proof fn law_one_change_at_a_time(app: App, undo: bool, post: App, r: Option<WorkerCommand>)
    requires
        app.history.pending is Some,
        app.after_history(undo, post, r),
    ensures
        r is None,
        post.history == app.history,
{
}

/// Changes of a recurring series have no record.
pub proof fn law_series_changes_have_no_record(
    app: App,
    draft: EventDraftView,
    span: EventSpan,
    scope: Option<RecurrenceMutationScope>,
    alarms: Option<Seq<Alarm>>,
    time: EventTimeMutation,
    id: Seq<char>,
)
    requires
        span == EventSpan::FutureEvents || scope is Some,
    ensures
        app.record_of(WorkerCommandView::Update(draft, span, scope, alarms, time)) is None,
        app.record_of(WorkerCommandView::Delete(id, span, scope)) is None,
{
}

/// Whether an event says what another says: all that the user can write but for the guests and the
/// alarms.
pub open spec fn says_the_same(a: EventView, b: EventView) -> bool {
    &&& a.calendar_id == b.calendar_id
    &&& a.title == b.title
    &&& a.location == b.location
    &&& a.notes == b.notes
    &&& a.url == b.url
    &&& a.time_zone == b.time_zone
    &&& a.availability == b.availability
    &&& a.recurrence == b.recurrence
    &&& a.all_day == b.all_day
    &&& if a.all_day {
        a.all_day_start_date == b.all_day_start_date && a.all_day_end_date_exclusive
            == b.all_day_end_date_exclusive
    } else {
        a.start == b.start && a.end == b.end
    }
}

/// A change that is taken back makes the event what it was: what it says, when it takes place, and
/// its alarms. Alarms that cannot be written again were not changed, and stay.
pub proof fn law_undo_restores_the_event(event: Event, id: Seq<char>, changed: EventView)
    requires
        reversible(event, Some(event.id@), false) is Some,
    ensures
        ({
            let made = reversible(event, Some(event.id@), false)->0;
            let restored = updated(made.draft, id, changed, made.alarm_mutation, made.time_mutation);
            &&& says_the_same(restored, event@)
            &&& restored.start == event.start
            &&& restored.end == event.end
            &&& restored.alarms == (if made.alarm_mutation is Some {
                event.alarms@
            } else {
                changed.alarms
            })
        }),
{
}

/// An event that was deleted and is created again says and does what it did, under a new identity.
pub proof fn law_recreated_event_is_the_same(event: Event, id: Seq<char>)
    requires
        reversible(event, None, true) is Some,
    ensures
        ({
            let made = reversible(event, None, true)->0;
            let restored = drafted(EventDraftView { id: None, ..made.draft }, id);
            &&& says_the_same(restored, event@)
            &&& restored.alarms == event.alarms@
            &&& restored.id == id
        }),
{
}

} // verus!
