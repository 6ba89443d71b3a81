//! What holds of the work beside the screen and of what is reported of it.

use crate::app::worker::{
    after_access, after_authorization, after_authorization_saved, after_calendar_created,
    after_calendar_deleted, after_calendar_enabled, after_calendars, after_capabilities,
    after_coverage, after_created, after_delete_lookup, after_deleted, after_notice, after_open,
    after_range, after_refreshed, after_sources, after_update_lookup, after_updated, after_window,
    begin, refresh_period, report, reports, window_request, DeleteJob, Notice, OpenOutcome, Step,
    UpdateJob, Work,
};
use crate::app::{MutationEffect, WorkerCommand, WorkerUpdate};
use crate::backend::BackendError;
use crate::coverage::DateRange;
use crate::model::{
    lemma_event_at, AuthorizationStatus, CalendarCapabilities, CalendarInfo, CalendarSource,
    DeleteCalendarResponse, Event, RangeRequest, RecurrenceMutationScope, Snapshot,
};
use crate::text::opt_view;
use crate::time::Timestamp;
use vstd::prelude::*;

verus! {

/// The nanoseconds of a day.
pub open spec fn day_nanos() -> int {
    86_400_000_000_000
}

/// Whether an instant, and a day on each side of it, can be written down.
pub open spec fn has_days_around(at: Timestamp) -> bool {
    i128::MIN + day_nanos() <= at.nanos <= i128::MAX - day_nanos()
}

proof fn lemma_said(step: Step)
    ensures
        reports(step.updates@).len() == step.updates@.len(),
        forall|i: int|
            0 <= i < step.updates@.len() ==> report(#[trigger] step.updates@[i]) == reports(
                step.updates@,
            )[i],
{
}

/// Each command leads to its own work, on just what it names, and says at once that it has begun.
pub proof fn law_commands_become_work(command: WorkerCommand, r: Step)
    requires
        call_ensures(begin, (command,), r),
    ensures
        command is Refresh ==> r.work is CheckAuthorization && r.updates@.len() == 1
            && r.updates@[0] == WorkerUpdate::Syncing(true),
        command matches WorkerCommand::EnsureRange(request) ==> r.work == (Work::LoadRange {
            request,
            force: false,
        }) && r.updates@.len() == 1 && r.updates@[0] == WorkerUpdate::RangeStarted(request.id),
        command matches WorkerCommand::RefreshRange(request) ==> r.work == (Work::LoadRange {
            request,
            force: true,
        }) && r.updates@.len() == 1 && r.updates@[0] == WorkerUpdate::RangeStarted(request.id),
        command matches WorkerCommand::SetCalendarEnabled(id, on) ==> r.work
            == Work::SetCalendarEnabled(id, on),
        command matches WorkerCommand::CreateCalendar(request) ==> r.work == Work::CreateCalendar(
            request,
        ),
        command matches WorkerCommand::RenameCalendar(request) ==> r.work == Work::RenameCalendar(
            request,
        ),
        command matches WorkerCommand::SetCalendarColor(request) ==> r.work
            == Work::SetCalendarColor(request),
        command matches WorkerCommand::DeleteCalendar(request) ==> r.work == Work::DeleteCalendar(
            request,
        ),
        command matches WorkerCommand::OpenUrl(url) ==> r.work == Work::OpenUrl(url),
{
    lemma_said(r);
}

/// A change of an event is carried out on just the event, the occurrences and the session that it
/// names, and says at once that it is being saved.
pub proof fn law_changes_become_work(command: WorkerCommand, r: Step)
    requires
        call_ensures(begin, (command,), r),
    ensures
        command matches WorkerCommand::Create(event) ==> r.work == (Work::CreateEvent {
            session: None,
            event,
        }) && r.updates@.len() == 1 && r.updates@[0] is MutationSaving,
        command matches WorkerCommand::CreateWithSession { session, event } ==> r.work == (
        Work::CreateEvent { session: Some(session), event }) && r.updates@.len() == 1
            && r.updates@[0] == WorkerUpdate::MutationSavingFor(session),
        command matches WorkerCommand::Update(event, span, scope, alarms, time) ==> (
        r.work matches Work::FindUpdated(job) && job.session is None && job.event == event
            && job.span == span && job.recurrence_scope == scope && job.alarms == alarms
            && job.time_mutation == time) && r.updates@.len() == 1 && r.updates@[0]
            is MutationSaving,
        command matches WorkerCommand::UpdateWithSession {
            session,
            event,
            span,
            recurrence_scope,
            alarms,
            time_mutation,
        } ==> (r.work matches Work::FindUpdated(job) && job.session == Some(session) && job.event
            == event && job.span == span && job.recurrence_scope == recurrence_scope && job.alarms
            == alarms && job.time_mutation == time_mutation) && r.updates@.len() == 1
            && r.updates@[0] == WorkerUpdate::MutationSavingFor(session),
        command matches WorkerCommand::Delete(id, span, scope) ==> (
        r.work matches Work::FindDeleted(job) && job.session is None && job.event_id == id
            && job.span == span && job.recurrence_scope == scope) && r.updates@.len() == 1
            && r.updates@[0] is MutationSaving,
        command matches WorkerCommand::DeleteWithSession {
            session,
            event_id,
            span,
            recurrence_scope,
        } ==> (r.work matches Work::FindDeleted(job) && job.session == Some(session) && job.event_id
            == event_id && job.span == span && job.recurrence_scope == recurrence_scope)
            && r.updates@.len() == 1 && r.updates@[0] == WorkerUpdate::MutationSavingFor(session),
{
    lemma_said(r);
}

/// A reading goes from the authorization to the capabilities, the sources and the window; without
/// full access it stops, and where it stops it says that it has.
pub proof fn law_readings_go_on(
    status: AuthorizationStatus,
    capabilities: Result<CalendarCapabilities, BackendError>,
    sources: Result<Vec<CalendarSource>, BackendError>,
    a: Step,
    b: Step,
    c: Step,
    d: Step,
    e: Step,
)
    requires
        call_ensures(after_authorization, (Ok(status),), a),
        call_ensures(after_access, (Ok(status),), b),
        call_ensures(after_authorization_saved, (status, Ok(())), c),
        call_ensures(after_capabilities, (capabilities,), d),
        call_ensures(after_sources, (sources,), e),
    ensures
        status == AuthorizationStatus::NotDetermined ==> a.work is RequestAccess,
        status != AuthorizationStatus::NotDetermined ==> a.work == Work::SaveAuthorization(status)
            && a.updates@.len() == 0,
        b.work == Work::SaveAuthorization(status),
        status == AuthorizationStatus::FullAccess <==> c.work is ReadCapabilities,
        status != AuthorizationStatus::FullAccess ==> c.work is Wait && c.updates@.len() == 2
            && c.updates@[0] is Error && c.updates@[1] == WorkerUpdate::Syncing(false),
        d.work is ReadSources,
        capabilities matches Ok(all) ==> d.updates@.len() == 1 && d.updates@[0]
            == WorkerUpdate::CalendarCapabilities(all),
        e.work is RefreshWindow,
        sources matches Ok(all) ==> e.updates@.len() == 1 && (
        e.updates@[0] matches WorkerUpdate::CalendarSources(said) && said == all),
{
    lemma_said(a);
    lemma_said(b);
    lemma_said(c);
    lemma_said(d);
    lemma_said(e);
}

/// A reading that comes to its end shows what was read; one that fails says why. Either way it is
/// over, and nothing follows.
pub proof fn law_readings_end(result: Result<Snapshot, String>, r: Step)
    requires
        call_ensures(after_window, (result,), r),
    ensures
        r.work is Wait,
        r.updates@.len() == 2,
        r.updates@[1] == WorkerUpdate::Syncing(false),
        result matches Ok(snapshot) ==> r.updates@[0] == WorkerUpdate::Snapshot(snapshot),
        result matches Err(error) ==> (r.updates@[0] matches WorkerUpdate::Error(text) && text@
            == error@),
{
    lemma_said(r);
}

/// The window that is kept up to date reaches just as many days of twenty-four hours back and
/// forward as it is asked for.
pub proof fn law_window(now: Timestamp, past_days: u32, future_days: u32, r: RangeRequest)
    requires
        call_ensures(window_request, (now, past_days, future_days), r),
        i128::MIN + past_days * day_nanos() <= now.nanos <= i128::MAX - future_days * day_nanos(),
    ensures
        now.nanos - r.start.nanos == past_days * day_nanos(),
        r.end.nanos - now.nanos == future_days * day_nanos(),
        r.all_day_range is None,
{
    assert(-(past_days as int * 86_400) * 1_000_000_000 == -(past_days as int
        * 86_400_000_000_000)) by (nonlinear_arith);
    assert((future_days as int * 86_400) * 1_000_000_000 == future_days as int
        * 86_400_000_000_000) by (nonlinear_arith);
}

/// A reading that nobody asked for comes no sooner than every five seconds, and else as often as it
/// is set to.
pub proof fn law_refresh_period(seconds: u64, r: u64)
    requires
        call_ensures(refresh_period, (seconds,), r),
    ensures
        r >= 5,
        r >= seconds,
        r == 5 || r == seconds,
{
}

/// A range that was loaded is shown, and is reported as loaded under its own number; one that could
/// not be is reported as failed under it, with the reason.
pub proof fn law_ranges_are_answered(id: u64, result: Result<Snapshot, String>, r: Step)
    requires
        call_ensures(after_range, (id, result), r),
    ensures
        r.work is Wait,
        result matches Ok(snapshot) ==> r.updates@.len() == 2 && r.updates@[0]
            == WorkerUpdate::Snapshot(snapshot) && r.updates@[1] == WorkerUpdate::RangeLoaded(id),
        result matches Err(error) ==> r.updates@.len() == 1 && (
        r.updates@[0] matches WorkerUpdate::RangeFailed(of, text) && of == id && text@
            == "Could not load requested range: "@ + error@),
{
    lemma_said(r);
}

/// Whether a work reads a range again, from a day before a time to a day after it.
pub open spec fn reads_around(
    request: RangeRequest,
    interval: (Timestamp, Timestamp),
) -> bool {
    has_days_around(interval.0) && has_days_around(interval.1) ==> {
        &&& request.start.nanos == interval.0.nanos - day_nanos()
        &&& request.end.nanos == interval.1.nanos + day_nanos()
    }
}

/// Whether a step says, to who asked for it, that a change was made.
pub open spec fn says_saved(r: Step, session: Option<u64>, effect: MutationEffect) -> bool {
    r.updates@.len() == 1 && match session {
        Some(session) => r.updates@[0] == WorkerUpdate::MutationSucceededFor(session, effect),
        None => r.updates@[0] == WorkerUpdate::MutationSucceeded(effect),
    }
}

/// Whether a step says, to who asked for it, why a change was not made, and ends there.
pub open spec fn says_not_saved(r: Step, session: Option<u64>, text: Seq<char>) -> bool {
    r.work is Wait && r.updates@.len() == 1 && match session {
        Some(session) => r.updates@[0] matches WorkerUpdate::MutationFailedFor(of, said) && of
            == session && said@ == text,
        None => r.updates@[0] matches WorkerUpdate::MutationFailed(said) && said@ == text,
    }
}

/// An event that was created is reported under its name and its times, and its surroundings are
/// read again; a failure is reported with its reason.
pub proof fn law_created_events_are_read(
    session: Option<u64>,
    result: Result<Event, BackendError>,
    r: Step,
)
    requires
        call_ensures(after_created, (session, result), r),
    ensures
        result matches Ok(event) ==> {
            &&& says_saved(
                r,
                session,
                MutationEffect::Created { event_id: event.id, interval: (event.start, event.end) },
            )
            &&& r.work matches Work::RefreshRanges(list) && list@.len() == 1 && reads_around(
                list@[0],
                (event.start, event.end),
            )
        },
        result matches Err(error) ==> says_not_saved(
            r,
            session,
            "Unable to save event: "@ + error.text(),
        ),
{
    lemma_said(r);
}

/// An event that was changed is reported with the times before and after, and both are read again;
/// where all that follow it were changed, what is loaded from its time before on is read again.
pub proof fn law_changed_events_are_read(
    session: Option<u64>,
    before: Option<(Timestamp, Timestamp)>,
    scope: Option<RecurrenceMutationScope>,
    result: Result<Event, BackendError>,
    r: Step,
)
    requires
        call_ensures(after_updated, (session, before, scope, result), r),
    ensures
        result matches Ok(event) ==> {
            let after = (event.start, event.end);
            let first = match before {
                Some(interval) => interval,
                None => after,
            };
            &&& says_saved(
                r,
                session,
                MutationEffect::Updated {
                    event_id: event.id,
                    before_interval: first,
                    after_interval: after,
                    recurrence_scope: scope,
                },
            )
            &&& scope == Some(RecurrenceMutationScope::FutureEvents) ==> (
            r.work matches Work::ReadCoverage { from, intervals } && from == first.0
                && intervals@.len() == 2 && intervals@[0] == first && intervals@[1] == after)
            &&& scope != Some(RecurrenceMutationScope::FutureEvents) ==> (
            r.work matches Work::RefreshRanges(list) && list@.len() == 2 && reads_around(
                list@[0],
                first,
            ) && reads_around(list@[1], after))
        },
        result matches Err(error) ==> says_not_saved(
            r,
            session,
            "Unable to save event: "@ + error.text(),
        ),
{
    lemma_said(r);
}

/// An event that was deleted is reported under its name, and its time is read again; where all that
/// follow it were deleted, what is loaded from its time on is read again.
pub proof fn law_deleted_events_are_read(
    job: DeleteJob,
    interval: (Timestamp, Timestamp),
    result: Result<(), BackendError>,
    r: Step,
)
    requires
        call_ensures(after_deleted, (job, interval, result), r),
    ensures
        result is Ok ==> {
            &&& says_saved(
                r,
                job.session,
                MutationEffect::Deleted {
                    event_id: job.event_id,
                    interval,
                    recurrence_scope: job.recurrence_scope,
                },
            )
            &&& job.recurrence_scope == Some(RecurrenceMutationScope::FutureEvents) ==> (
            r.work matches Work::ReadCoverage { from, intervals } && from == interval.0
                && intervals@.len() == 1 && intervals@[0] == interval)
            &&& job.recurrence_scope != Some(RecurrenceMutationScope::FutureEvents) ==> (
            r.work matches Work::RefreshRanges(list) && list@.len() == 1 && reads_around(
                list@[0],
                interval,
            ))
        },
        result matches Err(error) ==> says_not_saved(
            r,
            job.session,
            "Unable to delete event: "@ + error.text(),
        ),
{
    lemma_said(r);
}

/// What is loaded from the time of a change on is read again just as it is loaded; where nothing
/// is, the change's own times are.
pub proof fn law_loaded_ranges_are_read(
    intervals: Vec<(Timestamp, Timestamp)>,
    covered: Vec<DateRange>,
    r: Step,
)
    requires
        call_ensures(after_coverage, (intervals, Ok(covered)), r),
    ensures
        r.updates@.len() == 0,
        r.work matches Work::RefreshRanges(list) && {
            &&& covered@.len() > 0 ==> list@.len() == covered@.len() && forall|i: int|
                0 <= i < covered@.len() ==> (#[trigger] list@[i]).start == covered@[i].start
                    && list@[i].end == covered@[i].end
            &&& covered@.len() == 0 ==> list@.len() == intervals@.len() && forall|i: int|
                0 <= i < intervals@.len() ==> reads_around(#[trigger] list@[i], intervals@[i])
        },
{
    lemma_said(r);
}

/// The ranges that are to be read again are read one after the other, each shown as it is read, and
/// one that cannot be read does not keep the others back.
pub proof fn law_ranges_follow_each_other(
    left: Vec<RangeRequest>,
    result: Result<Snapshot, String>,
    r: Step,
)
    requires
        call_ensures(after_refreshed, (left, result), r),
        left@.len() > 0,
    ensures
        left@.len() == 1 <==> r.work is Wait,
        left@.len() > 1 ==> (r.work matches Work::RefreshRanges(rest) && rest@.len() == left@.len()
            - 1 && forall|i: int| 0 <= i < rest@.len() ==> #[trigger] rest@[i] == left@[i + 1]),
        r.updates@.len() == 1,
        result matches Ok(snapshot) ==> r.updates@[0] == WorkerUpdate::Snapshot(snapshot),
        result is Err ==> r.updates@[0] is Error,
{
    lemma_said(r);
}

/// Before an event is changed, when it took place is looked up by its name.
pub proof fn law_changed_event_is_looked_up(job: UpdateJob, snapshot: Option<Snapshot>, r: Step)
    requires
        call_ensures(after_update_lookup, (job, snapshot), r),
    ensures
        r.updates@.len() == 0,
        r.work matches Work::UpdateEvent { job: kept, before } && kept == job && match before {
            Some(interval) => snapshot matches Some(known) && exists|i: int|
                0 <= i < known.events@.len() && opt_view(job.event.occurrence_id) == Some(
                    (#[trigger] known.events@[i]).id@,
                ) && interval == (known.events@[i].start, known.events@[i].end),
            None => snapshot matches Some(known) ==> forall|i: int|
                0 <= i < known.events@.len() ==> opt_view(job.event.occurrence_id) != Some(
                    (#[trigger] known.events@[i]).id@,
                ),
        },
{
    lemma_said(r);
    if let (Some(known), Some(id)) = (snapshot, opt_view(job.event.occurrence_id)) {
        lemma_event_at(known.events@, id);
    }
}

/// The event that is deleted is the one with the name that was given, by the provider's own name
/// for it and when it takes place; one that the provider has no name for is not deleted.
pub proof fn law_deleted_event_is_looked_up(job: DeleteJob, snapshot: Snapshot, r: Step)
    requires
        call_ensures(after_delete_lookup, (job, Some(snapshot)), r),
    ensures
        r.work is Wait || r.work is DeleteEvent,
        r.work matches Work::DeleteEvent { deletion, target, interval } ==> deletion == job
            && r.updates@.len() == 0 && exists|i: int|
            0 <= i < snapshot.events@.len() && (#[trigger] snapshot.events@[i]).id@
                == job.event_id@ && snapshot.events@[i].provider_id == Some(target.provider_id)
                && target.calendar_id == snapshot.events@[i].calendar_id
                && target.occurrence_start == snapshot.events@[i].start && interval == (
            snapshot.events@[i].start, snapshot.events@[i].end),
        r.work is Wait ==> r.updates@.len() == 1 && (r.updates@[0] is MutationFailed
            || r.updates@[0] is MutationFailedFor) && (exists|i: int|
            0 <= i < snapshot.events@.len() && (#[trigger] snapshot.events@[i]).id@
                == job.event_id@ && snapshot.events@[i].provider_id is None || forall|i: int|
            0 <= i < snapshot.events@.len() ==> (#[trigger] snapshot.events@[i]).id@
                != job.event_id@),
{
    lemma_said(r);
    lemma_event_at(snapshot.events@, job.event_id@);
}

/// After a calendar was created or deleted all calendars are read again and kept; a failure is
/// said.
pub proof fn law_calendars_are_read_again(
    created: CalendarInfo,
    deleted: DeleteCalendarResponse,
    calendars: Vec<CalendarInfo>,
    snapshot: Snapshot,
    a: Step,
    b: Step,
    c: Step,
    d: Step,
)
    requires
        call_ensures(after_calendar_created, (Ok(created),), a),
        call_ensures(after_calendar_deleted, (Ok(deleted),), b),
        call_ensures(after_calendars, (Ok(calendars),), c),
        call_ensures(after_calendar_enabled, (Ok(snapshot),), d),
    ensures
        a.work is ReadCalendars,
        a.updates@.len() == 1 && a.updates@[0] == WorkerUpdate::CalendarCreateSucceeded(created),
        b.work is ReadCalendars,
        b.updates@.len() == 1 && b.updates@[0] == WorkerUpdate::CalendarDeleteSucceeded(deleted),
        c.work == Work::SaveCalendars(calendars),
        d.work is Wait && d.updates@.len() == 1 && d.updates@[0] == WorkerUpdate::Snapshot(
            snapshot,
        ),
{
    lemma_said(a);
    lemma_said(b);
    lemma_said(d);
}

/// A link that was opened is said to be; where it was not, why.
pub proof fn law_opened_links_are_said(outcome: OpenOutcome, r: Step)
    requires
        call_ensures(after_open, (outcome,), r),
    ensures
        r.work is Wait,
        r.updates@.len() == 1,
        outcome is Opened <==> r.updates@[0] is Status,
        !(outcome is Opened) <==> r.updates@[0] is Error,
        outcome matches OpenOutcome::NotRun(error) ==> (r.updates@[0] matches WorkerUpdate::Error(
            text,
        ) && text@ == "Could not open link: "@ + error@),
{
    lemma_said(r);
}

/// Changes that are noticed lead to one reading, once no more come: a change makes it due and
/// starts nothing, the end of the delay starts it, and then none is due.
pub proof fn law_changes_are_gathered(notice: Notice, due: bool, r: (Step, bool))
    requires
        call_ensures(after_notice, (notice, due), r),
    ensures
        notice is Changed ==> r.1 && r.0.work is Wait,
        notice is DelayOver ==> !r.1 && r.0.work is CheckAuthorization,
        notice is Tick ==> r.1 == due && r.0.work is CheckAuthorization,
        notice matches Notice::State(state) ==> r.1 == due && r.0.work is Wait
            && r.0.updates@.len() == 1 && r.0.updates@[0] == WorkerUpdate::BackendState(state),
{
    lemma_said(r.0);
}

} // verus!
