//! What taking changes back and making them again does.

use crate::app::history::{remembered, with_session, without_session, UndoRecordView};
use crate::app::{
    App, Mode, MutationEffect, MutationState, PendingHistory, WorkerCommand, WorkerCommandView,
};
use crate::model::{
    rule_views, Alarm, Event, EventDraftView, EventSpan, EventTimeInput, EventTimeMutation,
};
use crate::text::opt_view;
use vstd::prelude::*;

verus! {

/// Taking a change back undoes it: what was created is deleted, what was deleted is created again,
/// and what was changed is given back what it said before. The change leaves the stack and waits.
pub proof fn law_undo_does_the_opposite(app: App, post: App, command: WorkerCommand)
    requires
        app.after_history(true, post, Some(command)),
    ensures
        app.history.undo_stack@.len() > 0,
        match app.history.undo_stack@.last()@ {
            UndoRecordView::Created { created_event_id, .. } => command@
                == WorkerCommandView::Delete(created_event_id, EventSpan::ThisEvent, None),
            UndoRecordView::Deleted { deleted, .. } => command@ matches WorkerCommandView::Create(
                draft,
            ) && draft.id is None && same_draft(draft, deleted.draft),
            UndoRecordView::Updated { before, .. } => command@ matches WorkerCommandView::Update(
                draft,
                span,
                scope,
                alarms,
                time,
            ) && same_draft(draft, before.draft) && span == EventSpan::ThisEvent && scope is None
                && alarms == before.alarm_mutation && time == before.time_mutation,
        },
        post.history.undo_stack@ == app.history.undo_stack@.drop_last(),
        post.history.redo_stack@ == app.history.redo_stack@,
        post.history.pending == Some(PendingHistory::Undo(app.history.undo_stack@.last())),
        post.snapshot == app.snapshot && post.mode == app.mode,
{
}

/// Making a change again does what it did.
pub proof fn law_redo_does_it_again(app: App, post: App, command: WorkerCommand)
    requires
        app.after_history(false, post, Some(command)),
    ensures
        app.history.redo_stack@.len() > 0,
        match app.history.redo_stack@.last()@ {
            UndoRecordView::Created { draft, .. } => command@ == WorkerCommandView::Create(draft),
            UndoRecordView::Deleted { restored_event_id, .. } => restored_event_id matches Some(id)
                && command@ == WorkerCommandView::Delete(id, EventSpan::ThisEvent, None),
            UndoRecordView::Updated { after, .. } => command@ matches WorkerCommandView::Update(
                draft,
                span,
                scope,
                alarms,
                time,
            ) && same_draft(draft, after.draft) && span == EventSpan::ThisEvent && scope is None
                && alarms == after.alarm_mutation && time == after.time_mutation,
        },
        post.history.redo_stack@ == app.history.redo_stack@.drop_last(),
        post.history.undo_stack@ == app.history.undo_stack@,
        post.history.pending == Some(PendingHistory::Redo(app.history.redo_stack@.last())),
{
}

/// Whether two drafts say the same of an event, whichever it is.
pub open spec fn same_draft(a: EventDraftView, b: EventDraftView) -> bool {
    &&& a.calendar_id == b.calendar_id && a.title == b.title && a.time == b.time
    &&& a.location == b.location && a.notes == b.notes && a.url == b.url
    &&& a.time_zone == b.time_zone && a.availability == b.availability
    &&& a.attendees == b.attendees && a.alarms == b.alarms && a.recurrence == b.recurrence
}

/// An update that takes a change back, or makes it again, is of the event as it is known now.
pub proof fn law_history_updates_the_event(
    app: App,
    undo: bool,
    post: App,
    command: WorkerCommand,
    id: Seq<char>,
    i: int,
)
    requires
        app.after_history(undo, post, Some(command)),
        app.history.stack(undo).last()@ matches UndoRecordView::Updated { event_id, .. } && event_id
            == id,
        app.event_index(id) == Some(i),
    ensures
        command@ matches WorkerCommandView::Update(draft, _, _, _, _) && draft.id == opt_view(
            app.snapshot.events@[i].provider_id,
        ) && draft.id is Some && draft.occurrence_id == Some(app.snapshot.events@[i].id@)
            && draft.occurrence_start == Some(app.snapshot.events@[i].start),
{
}

/// When nothing is taken back or made again: while a change is under way, where there is none,
/// where its event is gone, and where its calendar cannot be written to.
pub proof fn law_history_is_refused(app: App, undo: bool, post: App, r: Option<WorkerCommand>)
    requires
        app.after_history(undo, post, r),
    ensures
        app.history.pending is Some || app.history.stack(undo).len() == 0 ==> r is None && post == (
        App { status: post.status, ..app }),
        app.history.pending is None && app.history.stack(undo).len() > 0 ==> match (
            app.history.stack(undo).last()@,
            undo,
        ) {
            (UndoRecordView::Deleted { deleted, .. }, true) => r is Some <==> app.writable(
                deleted.draft.calendar_id,
            ),
            (UndoRecordView::Created { draft, .. }, false) => r is Some <==> app.writable(
                draft.calendar_id,
            ),
            (UndoRecordView::Created { created_event_id, .. }, true) => r is Some <==> (
            app.event_index(created_event_id) matches Some(i) && app.writable(
                app.snapshot.events@[i].calendar_id@,
            )),
            _ => true,
        },
        app.history.stack(undo) == (if undo {
            app.history.undo_stack@
        } else {
            app.history.redo_stack@
        }),
{
}

/// At most twenty changes are remembered: the newest, in order.
pub proof fn law_twenty_changes_are_remembered<T>(stack: Seq<T>, record: T)
    requires
        stack.len() <= 20,
    ensures
        remembered(stack, record).len() <= 20,
        remembered(stack, record).last() == record,
        stack.len() < 20 ==> remembered(stack, record) == stack.push(record),
        stack.len() == 20 ==> remembered(stack, record) == stack.subrange(1, 20).push(record),
{
    if stack.len() == 20 {
        assert(stack.drop_first() =~= stack.subrange(1, 20));
    }
}

/// Whether a draft says what an event says.
pub open spec fn tells(draft: EventDraftView, event: Event) -> bool {
    &&& draft.calendar_id == event.calendar_id@ && draft.title == event.title@
    &&& draft.location == event.location@ && draft.notes == event.notes@
    &&& draft.url == event.url@ && draft.time_zone == event.time_zone@
    &&& draft.availability == event.availability && draft.alarms == event.alarms@
    &&& draft.recurrence == rule_views(event.recurrence@)
}

/// What is remembered of a deletion is the event: all that it says, and its time.
pub proof fn law_deletions_remember_the_event(app: App, id: Seq<char>, i: int)
    requires
        app.event_index(id) == Some(i),
        app.record_of(WorkerCommandView::Delete(id, EventSpan::ThisEvent, None)) is Some,
    ensures
        app.record_of(
            WorkerCommandView::Delete(id, EventSpan::ThisEvent, None),
        ) matches Some(UndoRecordView::Deleted { deleted, restored_event_id }) && restored_event_id
            is None && tells(deleted.draft, app.snapshot.events@[i]) && (
        !app.snapshot.events@[i].all_day ==> deleted.draft.time == (EventTimeInput::Timed {
            start: app.snapshot.events@[i].start,
            end: app.snapshot.events@[i].end,
        })) && (app.snapshot.events@[i].date_range() matches Some(dates) ==> deleted.draft.time == (
        EventTimeInput::AllDay { start_date: dates.0, end_date_exclusive: dates.1 })),
{
}

/// What is remembered of an update is the event before it, and what was asked for.
pub proof fn law_updates_remember_both_sides(
    app: App,
    draft: EventDraftView,
    alarms: Option<Seq<Alarm>>,
    time: EventTimeMutation,
    id: Seq<char>,
    i: int,
)
    requires
        draft.id == Some(id),
        app.event_index(id) == Some(i),
        app.record_of(
            WorkerCommandView::Update(draft, EventSpan::ThisEvent, None, alarms, time),
        ) is Some,
    ensures
        app.record_of(
            WorkerCommandView::Update(draft, EventSpan::ThisEvent, None, alarms, time),
        ) matches Some(UndoRecordView::Updated { event_id, before, after }) && event_id
            == app.snapshot.events@[i].id@ && tells(before.draft, app.snapshot.events@[i])
            && after.draft == draft && after.alarm_mutation == alarms && after.time_mutation == time
            && (!app.snapshot.events@[i].all_day ==> before.draft.time == (EventTimeInput::Timed {
            start: app.snapshot.events@[i].start,
            end: app.snapshot.events@[i].end,
        })),
{
}

/// Which single changes are remembered: each creation of an event that does not repeat, and each
/// deletion and update of a timed one that ends after it starts, whose alarms can be made again.
pub proof fn law_single_changes_are_remembered(
    app: App,
    draft: EventDraftView,
    alarms: Option<Seq<Alarm>>,
    time: EventTimeMutation,
    id: Seq<char>,
    i: int,
)
    requires
        app.event_index(id) == Some(i),
        !app.snapshot.events@[i].all_day,
        !app.snapshot.events@[i].has_recurrence,
        app.snapshot.events@[i].start.nanos < app.snapshot.events@[i].end.nanos,
        app.snapshot.events@[i].alarms@.len() == 0,
    ensures
        draft.recurrence.len() == 0 ==> app.record_of(WorkerCommandView::Create(draft)) is Some,
        app.record_of(WorkerCommandView::Delete(id, EventSpan::ThisEvent, None)) is Some,
        draft.id == Some(id) ==> app.record_of(
            WorkerCommandView::Update(draft, EventSpan::ThisEvent, None, alarms, time),
        ) is Some,
{
}

/// A session tags a change and is all that it adds; sessions are numbered one after another.
pub proof fn law_sessions_tag_changes(app: App, command: WorkerCommandView, session: u64)
    requires
        command is Create || command is Update || command is Delete,
    ensures
        without_session(with_session(command, session)) == command,
        match with_session(command, session) {
            WorkerCommandView::CreateWithSession { session: s, event } => s == session && command
                == WorkerCommandView::Create(event),
            WorkerCommandView::UpdateWithSession {
                session: s,
                event,
                span,
                recurrence_scope,
                alarms,
                time_mutation,
            } => s == session && command == WorkerCommandView::Update(
                event,
                span,
                recurrence_scope,
                alarms,
                time_mutation,
            ),
            WorkerCommandView::DeleteWithSession { session: s, event_id, span, recurrence_scope } =>
                s == session && command == WorkerCommandView::Delete(
                event_id,
                span,
                recurrence_scope,
            ),
            _ => false,
        },
        app.next_mutation_session < u64::MAX ==> app.next_session() == app.next_mutation_session
            + 1,
{
}

/// A change that the provider confirms closes the form and leaves nothing under way; one that it
/// refuses leaves the form, and what was typed, as it was.
pub proof fn law_confirmation_and_refusal(
    app: App,
    effect: MutationEffect,
    done: App,
    text: Seq<char>,
    refused: App,
)
    requires
        app.after_success(effect, done),
        app.after_failure(text, refused),
    ensures
        done.form is None && done.mutation_state == MutationState::Idle,
        done.active_mutation_session is None && refused.active_mutation_session is None,
        app.mode == Mode::Form ==> done.mode == Mode::Normal && done.modal_stack@.len() == 0,
        done.history.pending is None && refused.history.pending is None,
        refused.form == app.form && refused.mode == app.mode && refused.snapshot == app.snapshot,
        refused.mutation_state == MutationState::Failed,
        done.snapshot == app.snapshot,
        crate::app::says(refused.status, text, true),
{
}

} // verus!
