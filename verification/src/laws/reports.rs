//! What the screen makes of the reports that come in.

use crate::app::overlays::place_or_none;
use crate::app::shown::{names, place_of};
use crate::app::{
    App, Mode, MutationEffect, MutationState, VisibleRangeState, WorkerUpdate,
};
use crate::model::{lemma_calendar_at, Event, Snapshot};
use crate::seqs::lemma_first_from;
use crate::text::opt_view;
use vstd::prelude::*;

verus! {

/// A report is shown as it is said, and changes nothing that it does not speak of.
pub proof fn law_reports_are_shown(app: App, update: WorkerUpdate, post: App)
    requires
        app.after_update(update, post),
    ensures
        update matches WorkerUpdate::Syncing(on) ==> post == (App { syncing: on, ..app }),
        update matches WorkerUpdate::BackendState(state) ==> post == (App {
            backend_state: state,
            ..app
        }),
        update matches WorkerUpdate::CalendarSources(sources) ==> post == (App {
            calendar_sources: sources,
            ..app
        }),
        update matches WorkerUpdate::CalendarCapabilities(all) ==> post == (App {
            calendar_capabilities: all,
            ..app
        }),
        update matches WorkerUpdate::Status(text) ==> post == (App { status: post.status, ..app })
            && (post.status matches Some(shown) && shown.0@ == text@ && !shown.1),
        update matches WorkerUpdate::Error(text) ==> post == (App { status: post.status, ..app })
            && (post.status matches Some(shown) && shown.0@ == text@ && shown.1),
        update is MutationSaving ==> post == (App {
            mutation_state: MutationState::Saving,
            ..app
        }),
        update matches WorkerUpdate::MutationSavingFor(session) ==> (app.active_mutation_session
            == Some(session) ==> post.mutation_state == MutationState::Saving),
{
}

/// The range that is shown is loading once its loading is reported, ready once it is loaded, and
/// failed, with the reason, once it could not be loaded.
pub proof fn law_range_reports(app: App, update: WorkerUpdate, id: u64, post: App)
    requires
        app.after_update(update, post),
        id == app.visible_range_request_id,
    ensures
        update == WorkerUpdate::RangeStarted(id) ==> post == (App {
            visible_range_state: VisibleRangeState::Loading,
            ..app
        }),
        update == WorkerUpdate::RangeLoaded(id) ==> post == (App {
            visible_range_state: VisibleRangeState::Ready,
            ..app
        }),
        update matches WorkerUpdate::RangeFailed(of, text) ==> (of == id ==> (
        post.visible_range_state matches VisibleRangeState::Failed(failure) && failure.error@
            == text@ && failure.request_id == id && (app.visible_range matches Some(range)
            ==> failure.range == range)) && (post.status matches Some(shown) && shown.0@ == text@
            && shown.1) && post.snapshot == app.snapshot),
{
}

/// A change that was made closes the form that it was asked for in, and what was created or changed
/// is selected once it is shown; a change that failed keeps the form, and says why.
pub proof fn law_change_reports(app: App, effect: MutationEffect, text: Seq<char>, made: App, not: App)
    requires
        app.after_success(effect, made),
        app.after_failure(text, not),
    ensures
        made.mutation_state == MutationState::Idle,
        made.active_mutation_session is None,
        made.form is None,
        !made.form_dirty,
        made.pending_delete_event_id is None,
        app.mode == Mode::Form || app.mode == Mode::QuickAdd ==> made.mode == Mode::Normal
            && made.modal_stack@.len() == 0,
        app.mode != Mode::Form && app.mode != Mode::QuickAdd ==> made.mode == app.mode,
        match effect {
            MutationEffect::Created { event_id, .. } => opt_view(made.pending_selection) == Some(
                event_id@,
            ),
            MutationEffect::Updated { event_id, .. } => opt_view(made.pending_selection) == Some(
                event_id@,
            ),
            MutationEffect::Deleted { .. } => made.pending_selection == app.pending_selection
                && made.interaction_context is None,
        },
        made.snapshot == app.snapshot,
        made.status matches Some(shown) && !shown.1,
        not.mutation_state == MutationState::Failed,
        not.form == app.form,
        not.form_dirty == app.form_dirty,
        not.mode == app.mode,
        not.snapshot == app.snapshot,
        not.active_mutation_session is None,
        not.status matches Some(shown) && shown.0@ == text && shown.1,
{
}

/// A calendar that was created, renamed or colored closes its own form, is selected, and the
/// manager is shown; one that could not be keeps the form, with the reason.
pub proof fn law_calendar_reports(app: App, update: WorkerUpdate, post: App)
    requires
        app.after_calendar_update(update, post),
    ensures
        update matches WorkerUpdate::CalendarCreateSucceeded(calendar) ==> post.calendar_form
            is None && post.pending_calendar_selection == Some(calendar.id) && post.mode
            == Mode::CalendarManager && post.mutation_state == MutationState::Idle,
        update matches WorkerUpdate::CalendarRenameSucceeded(calendar)
            ==> post.calendar_rename_form is None && post.pending_calendar_selection == Some(
            calendar.id,
        ) && post.mode == Mode::CalendarManager && post.mutation_state == MutationState::Idle,
        update matches WorkerUpdate::CalendarColorSucceeded(calendar) ==> post.calendar_color_form
            is None && post.pending_calendar_selection == Some(calendar.id) && post.mode
            == Mode::CalendarManager && post.mutation_state == MutationState::Idle,
        update is CalendarCreateFailed ==> post.calendar_form == app.calendar_form && post.mode
            == app.mode && post.mutation_state == MutationState::Failed,
        update is CalendarRenameFailed ==> post.calendar_rename_form == app.calendar_rename_form
            && post.mode == app.mode && post.mutation_state == MutationState::Failed,
        update is CalendarColorFailed ==> post.calendar_color_form == app.calendar_color_form
            && post.mode == app.mode && post.mutation_state == MutationState::Failed,
        update is CalendarDeleteSucceeded || update is CalendarDeleteFailed
            ==> post.calendar_delete_confirmation is None && post.mode == Mode::CalendarManager,
        update is CalendarCreateFailed || update is CalendarRenameFailed || update
            is CalendarColorFailed || update is CalendarDeleteFailed ==> (
        post.status matches Some(shown) && shown.1),
        update is CalendarCreateSucceeded || update is CalendarRenameSucceeded || update
            is CalendarColorSucceeded || update is CalendarDeleteSucceeded ==> (
        post.status matches Some(shown) && !shown.1),
        post.snapshot == app.snapshot,
{
}

/// When a new picture of the calendars comes in, the calendar that was selected stays selected,
/// wherever it stands now, and a form keeps its calendar and everything written in it.
pub proof fn law_snapshots_keep_the_calendar(app: App, snapshot: Snapshot, id: Seq<char>, post: App)
    requires
        app.installed(snapshot, post),
    ensures
        post.snapshot == snapshot,
        app.pending_calendar_selection is None && 0 <= app.selected_calendar
            < app.snapshot.calendars@.len() && id
            == app.snapshot.calendars@[app.selected_calendar as int].id@ && (exists|i: int|
            0 <= i < snapshot.calendars@.len() && (#[trigger] snapshot.calendars@[i]).id@ == id)
            ==> post.selected_calendar < snapshot.calendars@.len()
            && snapshot.calendars@[post.selected_calendar as int].id@ == id,
        opt_view(app.pending_calendar_selection) == Some(id) && (exists|i: int|
            0 <= i < snapshot.calendars@.len() && (#[trigger] snapshot.calendars@[i]).id@ == id)
            ==> post.selected_calendar < snapshot.calendars@.len()
            && snapshot.calendars@[post.selected_calendar as int].id@ == id,
        app.form matches Some(form) ==> {
            &&& post.form matches Some(new) && new == (crate::event_form::EventForm {
                calendar_index: new.calendar_index,
                ..form
            }) && (form.calendar_index < app.snapshot.calendars@.len() && id
                == app.snapshot.calendars@[form.calendar_index as int].id@ && (exists|i: int|
                0 <= i < snapshot.calendars@.len() && (#[trigger] snapshot.calendars@[i]).id@
                    == id) ==> new.calendar_index < snapshot.calendars@.len()
                && snapshot.calendars@[new.calendar_index as int].id@ == id)
        },
        post.active_date == app.active_date,
        post.view == app.view,
        post.mode == app.mode,
{
    assert(snapshot.calendars.len() == snapshot.calendars@.len());
    lemma_calendar_at(snapshot.calendars@, id);
}

/// When a new picture of the events comes in, the event that is wanted is selected, wherever it
/// stands now among those shown; one that is no longer among them is not, and that is said. The
/// details of an event that is gone close.
pub proof fn law_snapshots_keep_the_event(
    app: App,
    wanted: Seq<char>,
    target: Option<Seq<char>>,
    list: Seq<int>,
    post: App,
)
    requires
        app.settled(Some(wanted), target, list, post),
        list.len() < usize::MAX,
    ensures
        (exists|k: int|
            0 <= k < list.len() && app.snapshot.events@[#[trigger] list[k]].id@ == wanted)
            ==> post.selected_event < list.len()
            && app.snapshot.events@[list[post.selected_event as int]].id@ == wanted && post.status
            == app.status,
        (forall|k: int|
            0 <= k < list.len() ==> app.snapshot.events@[#[trigger] list[k]].id@ != wanted)
            ==> post.selected_event == usize::MAX && (post.status matches Some(shown) && shown.0@
            == "Selected event was removed"@),
        target matches Some(id) ==> ((forall|k: int|
            0 <= k < list.len() ==> app.snapshot.events@[#[trigger] list[k]].id@ != id)
            ==> post.mode == Mode::Normal && post.modal_stack@.len() == 0
            && post.interaction_context is None),
        target matches Some(id) ==> ((exists|k: int|
            0 <= k < list.len() && app.snapshot.events@[#[trigger] list[k]].id@ == id)
            ==> post.mode == app.mode && post.interaction_context == app.interaction_context
            && post.detail_scroll == app.detail_scroll),
        target is None ==> post.mode == app.mode,
        post.snapshot == app.snapshot,
{
    lemma_place_of(app.snapshot.events@, list, wanted);
    if let Some(id) = target {
        lemma_place_of(app.snapshot.events@, list, id);
    }
}

proof fn lemma_place_of(events: Seq<Event>, list: Seq<int>, id: Seq<char>)
    ensures
        match place_of(events, list, id) {
            Some(k) => 0 <= k < list.len() && events[list[k]].id@ == id,
            None => forall|k: int| 0 <= k < list.len() ==> events[#[trigger] list[k]].id@ != id,
        },
{
    let p = names(events, id);
    lemma_first_from(list, p, 0);
    match place_of(events, list, id) {
        Some(k) => {
            assert(p(list[k]));
        },
        None => {
            assert forall|k: int| 0 <= k < list.len() implies events[#[trigger] list[k]].id@
                != id by {
                assert(!p(list[k]));
            }
        },
    }
}

/// The event that is selected by its name is one of those shown that has it; where none has, none
/// is selected.
pub proof fn law_selected_by_name(app: App, id: Seq<char>)
    requires
        app.has_selected(id),
    ensures
        exists|list: Seq<int>| #[trigger]
            app.may_show(list) && ((exists|k: int|
                0 <= k < list.len() && app.snapshot.events@[#[trigger] list[k]].id@ == id
                    && app.selected_event == k as usize) || ((forall|k: int|
                0 <= k < list.len() ==> app.snapshot.events@[#[trigger] list[k]].id@ != id)
                && app.selected_event == usize::MAX)),
{
    let place = choose|place: Option<int>| #[trigger]
        app.may_locate(id, place) && app.selected_event == place_or_none(place);
    let list = choose|list: Seq<int>| #[trigger]
        app.may_show(list) && place == place_of(app.snapshot.events@, list, id);
    lemma_place_of(app.snapshot.events@, list, id);
    assert(app.may_show(list));
    if let Some(k) = place {
        assert(app.snapshot.events@[list[k]].id@ == id);
    }
}

/// What is done with an event by its name is done with one of those shown that has it; where none
/// has, there is none to do it with.
pub proof fn law_found_by_name(app: App, id: Seq<char>, index: Option<int>)
    requires
        app.may_act_on(id, index),
    ensures
        exists|list: Seq<int>| #[trigger]
            app.may_show(list) && match index {
                Some(i) => list.contains(i) && app.snapshot.events@[i].id@ == id,
                None => forall|k: int|
                    0 <= k < list.len() ==> app.snapshot.events@[#[trigger] list[k]].id@ != id,
            },
{
    let list = choose|list: Seq<int>| #[trigger]
        app.may_show(list) && index == (match place_of(app.snapshot.events@, list, id) {
            Some(k) => Some(list[k]),
            None => None,
        });
    lemma_place_of(app.snapshot.events@, list, id);
    assert(app.may_show(list));
}

} // verus!
