//! What is asked before an event is changed or deleted, and what the calendars' own dialogs do.

use crate::app::{
    command_view, App, Mode, MutationState, RecurrenceMutationAction, WorkerCommand,
    WorkerCommandView,
};
use crate::calendar_form::{is_color, CalendarColorForm, CalendarForm, CalendarRenameForm};
use crate::input::{KeyCode, KeyEvent};
use crate::model::{
    Event, EventSpan, RecurrenceMutationScope, RenameCalendarRequest, SetCalendarColorRequest,
};
use crate::text::{ascii_upper, opt_view, trimmed};
use vstd::prelude::*;

verus! {

/// An event's deletion is asked for before it is carried out: where it does not repeat, whether to
/// delete it; where it does, first which of its occurrences. An event in a calendar that cannot be
/// written to is not asked about.
pub proof fn law_deletion_is_asked_for(app: App, event: Event, post: App)
    requires
        app.after_delete(event, post),
    ensures
        !app.writable(event.calendar_id@) ==> post == (App { status: post.status, ..app }),
        app.writable(event.calendar_id@) && !event.has_recurrence ==> post.mode == Mode::Delete
            && opt_view(post.pending_delete_event_id) == Some(event.id@) && post.delete_span
            == EventSpan::ThisEvent && post.delete_recurrence_scope is None,
        app.writable(event.calendar_id@) && event.has_recurrence ==> post.mode
            == Mode::RecurringDeleteScope && (post.pending_recurring_mutation matches Some(pending)
            && pending.0@ == event.id@ && pending.1 is Delete),
        post.snapshot == app.snapshot,
{
}

/// An edit of an event opens its form; of an event that repeats, after asking which of its
/// occurrences.
pub proof fn law_edit_is_scoped(app: App, event: Event, post: App)
    requires
        app.after_edit(event, post),
    ensures
        !app.writable(event.calendar_id@) ==> post == (App { status: post.status, ..app }),
        app.writable(event.calendar_id@) && !event.has_recurrence ==> post.mode == Mode::Form && (
        post.form matches Some(form) && form.edits(event, app.snapshot.calendars@)),
        app.writable(event.calendar_id@) && event.has_recurrence ==> post.mode
            == Mode::RecurringEditScope && post.form == app.form && (
        post.pending_recurring_mutation matches Some(pending) && pending.0@ == event.id@
            && pending.1 is Edit),
        post.snapshot == app.snapshot,
{
}

/// Where a deletion is to be confirmed, `y` and Enter delete the event that was chosen, over the
/// occurrences that were chosen; `n`, `q` and Escape do not, nor does any other key.
pub proof fn law_deletion_keys(
    app: App,
    key: KeyEvent,
    id: String,
    post: App,
    r: Option<WorkerCommand>,
)
    requires
        app.after_delete_key(key, post, r),
        app.pending_delete_event_id == Some(id),
        app.mutation_state == MutationState::Idle,
    ensures
        r is Some ==> (key.code == KeyCode::Char('y') || key.code == KeyCode::Enter) && command_view(
            r,
        ) == Some(
            WorkerCommandView::Delete(id@, app.delete_span, app.delete_recurrence_scope),
        ),
        key.code == KeyCode::Esc || key.code == KeyCode::Char('n') || key.code == KeyCode::Char('q')
            ==> r is None && post.pending_delete_event_id is None,
        post.snapshot == app.snapshot,
{
}

/// Where occurrences are to be chosen, `1` stands for this one and `2` for this and those that
/// follow; Escape and `q` give the change up.
pub proof fn law_scope_keys(app: App, key: KeyEvent, post: App, r: Option<WorkerCommand>)
    requires
        app.after_scope_key(key, post, r),
    ensures
        key.code == KeyCode::Char('1') ==> app.scope_chosen(EventSpan::ThisEvent, post, r),
        key.code == KeyCode::Char('2') ==> app.scope_chosen(EventSpan::FutureEvents, post, r),
        key.code == KeyCode::Esc || key.code == KeyCode::Char('q') ==> r is None
            && post.pending_recurring_mutation is None,
        !(key.code == KeyCode::Char('1')) && !(key.code == KeyCode::Char('2')) && !(key.code
            == KeyCode::Esc) && !(key.code == KeyCode::Char('q')) ==> r is None && post == app,
{
}

/// What is chosen holds for the change that waits for it: the form, the deletion and the move are
/// for just those occurrences.
pub proof fn law_scopes_are_kept(
    app: App,
    index: int,
    action: RecurrenceMutationAction,
    span: EventSpan,
    post: App,
    r: Option<WorkerCommand>,
)
    requires
        app.scope_taken(index, action, span, post, r),
        0 <= index < app.snapshot.events@.len(),
    ensures
        ({
            let event = app.snapshot.events@[index];
            let scope = if span == EventSpan::FutureEvents {
                RecurrenceMutationScope::FutureEvents
            } else {
                RecurrenceMutationScope::ThisEvent
            };
            &&& action is Edit ==> post.mode == Mode::Form && (post.form matches Some(form)
                && form@.span == span && form@.recurrence_scope == Some(scope) && form@.title
                == event.title@ && form@.occurrence_id == Some(event.id@))
            &&& action is Delete ==> post.mode == Mode::Delete && post.delete_span == span
                && post.delete_recurrence_scope == Some(scope) && opt_view(
                post.pending_delete_event_id,
            ) == Some(event.id@)
            &&& action is Move ==> (command_view(r) matches Some(
                WorkerCommandView::Update(_, chosen, kept, _, _),
            ) ==> chosen == span && kept == Some(scope))
        }),
{
    let event = app.snapshot.events@[index];
    if action is Edit {
        let form = post.form->0;
        let scope = crate::app::editing::scope_of(span);
        let (start, end) = choose|start: crate::time::WallTime, end: crate::time::WallTime|
            crate::time::shows_near(event.start, start) && crate::time::shows_near(event.end, end)
                && form@ == (crate::event_form::EventFormView {
                span,
                recurrence_scope: Some(scope),
                ..#[trigger] crate::event_form::edit_form(
                    event@,
                    event.date_range(),
                    app.snapshot.calendars@,
                    start,
                    end,
                )
            });
        assert(form@.title == event.title@);
    }
}

/// In a changed form Escape asks whether to drop what was typed; in one that was not changed it
/// closes it. Asked, `n` drops it, `y` saves it, and Escape goes back to it.
pub proof fn law_discarding(
    app: App,
    key: KeyEvent,
    post: App,
    r: Option<WorkerCommand>,
    asked: App,
    s: Option<WorkerCommand>,
)
    requires
        app.after_form_key(key, post, r),
        app.form matches Some(form) && !form@.lacks_reminders() && form@.after_alarm_key(key).1
            is None,
        key.code == KeyCode::Esc,
        app.after_discard_key(key, asked, s),
    ensures
        r is None && s is None,
        app.form_dirty ==> post.mode == Mode::DiscardConfirm && post.form == app.form,
        !app.form_dirty ==> post.form is None,
        asked.form == app.form,
{
}

/// In the list of calendars Space and Enter show a calendar that was hidden and hide one that was
/// shown, and tell the worker; no other calendar changes.
pub proof fn law_calendars_are_shown_and_hidden(
    app: App,
    key: KeyEvent,
    post: App,
    r: Option<WorkerCommand>,
)
    requires
        app.after_calendars_key(key, post, r),
        app.selected_calendar < app.snapshot.calendars@.len(),
    ensures
        key.code == KeyCode::Char(' ') || key.code == KeyCode::Enter ==> {
            let i = app.selected_calendar as int;
            &&& post.snapshot.calendars@.len() == app.snapshot.calendars@.len()
            &&& post.snapshot.calendars@[i].enabled == !app.snapshot.calendars@[i].enabled
            &&& post.snapshot.calendars@[i].id == app.snapshot.calendars@[i].id
            &&& post.snapshot.calendars@[i].title == app.snapshot.calendars@[i].title
            &&& forall|j: int|
                0 <= j < app.snapshot.calendars@.len() && j != i
                    ==> #[trigger] post.snapshot.calendars@[j] == app.snapshot.calendars@[j]
            &&& post.snapshot.events == app.snapshot.events
            &&& command_view(r) == Some(
                WorkerCommandView::SetCalendarEnabled(
                    app.snapshot.calendars@[i].id@,
                    post.snapshot.calendars@[i].enabled,
                ),
            )
        },
        !(key.code == KeyCode::Char(' ')) && !(key.code == KeyCode::Enter) ==> post.snapshot
            == app.snapshot && r is None,
        (key.code == KeyCode::Char('j') || key.code == KeyCode::Down) && app.selected_calendar + 1
            < app.snapshot.calendars@.len() ==> post.selected_calendar == app.selected_calendar + 1,
        (key.code == KeyCode::Char('k') || key.code == KeyCode::Up) && app.selected_calendar > 0
            ==> post.selected_calendar == app.selected_calendar - 1,
{
    assert(app.snapshot.calendars.len() == app.snapshot.calendars@.len());
}

/// A color is a hash sign and six hexadecimal digits.
pub proof fn law_colors(text: Seq<char>)
    ensures
        is_color(text) ==> text.len() == 7 && text[0] == '#',
        text.len() == 7 && text[0] == '#' && (forall|i: int|
            1 <= i < 7 ==> ('0' <= #[trigger] text[i] <= '9' || 'a' <= text[i] <= 'f' || 'A'
                <= text[i] <= 'F')) ==> is_color(text),
        forall|i: int|
            is_color(text) && 2 <= i < 7 ==> ('0' <= #[trigger] text[i] <= '9' || 'a' <= text[i]
                <= 'f' || 'A' <= text[i] <= 'F'),
{
}

/// A calendar is created with the title, the color and the source of the form, where all are there;
/// while that is under way the form is not saved again.
pub proof fn law_calendar_creation(
    app: App,
    form: CalendarForm,
    key: KeyEvent,
    post: App,
    r: Option<WorkerCommand>,
)
    requires
        app.after_create_key(key, post, r),
        app.calendar_form == Some(form),
        key.modifiers.control && key.code == KeyCode::Char('s'),
    ensures
        r is Some <==> app.mutation_state != MutationState::Saving && trimmed(form.title@).len() > 0
            && is_color(form.color@) && (form.source_index matches Some(i) && i
            < app.calendar_sources@.len()),
        r is Some ==> post.mutation_state == MutationState::Saving && (command_view(r) matches Some(
            WorkerCommandView::CreateCalendar { source_id, title, color },
        ) && title == trimmed(form.title@) && color == form.color@ && source_id
            == app.calendar_sources@[form.source_index->0 as int].id@),
        post.calendar_form == app.calendar_form,
{
}

/// A calendar is renamed to the title of the form, and recolored to its color in capitals.
pub proof fn law_calendar_changes(
    app: App,
    key: KeyEvent,
    renamed: App,
    r: Option<WorkerCommand>,
    recolored: App,
    s: Option<WorkerCommand>,
)
    requires
        app.after_rename_key(key, renamed, r),
        app.after_color_key(key, recolored, s),
        key.modifiers.control && key.code == KeyCode::Char('s'),
        app.mutation_state == MutationState::Idle,
    ensures
        app.calendar_rename_form matches Some(form) ==> (r is Some <==> trimmed(form.title@).len()
            > 0) && (r is Some ==> command_view(r) == Some(
            WorkerCommandView::RenameCalendar {
                calendar_id: form.calendar_id@,
                title: trimmed(form.title@),
            },
        )),
        app.calendar_color_form matches Some(form) ==> (s is Some <==> is_color(form.color@)) && (s
            is Some ==> command_view(s) == Some(
            WorkerCommandView::SetCalendarColor {
                calendar_id: form.calendar_id@,
                color: ascii_upper(form.color@),
            },
        )),
{
}

/// A calendar is deleted where that is confirmed with `y`, and only the one that was asked about.
pub proof fn law_calendar_deletion(app: App, key: KeyEvent, post: App, r: Option<WorkerCommand>)
    requires
        app.after_confirm_key(key, post, r),
    ensures
        r is Some ==> key.code == KeyCode::Char('y') && app.mutation_state
            != MutationState::Deleting && (app.calendar_delete_confirmation matches Some(asked)
            && command_view(r) == Some(
            WorkerCommandView::DeleteCalendar { calendar_id: asked.calendar_id@ },
        )),
        app.mutation_state != MutationState::Deleting && key.code == KeyCode::Char('y')
            && app.calendar_delete_confirmation is Some ==> r is Some,
        app.mutation_state != MutationState::Deleting && (key.code == KeyCode::Char('n') || key.code
            == KeyCode::Esc) ==> r is None && post.calendar_delete_confirmation is None && post.mode
            == Mode::CalendarManager,
{
}

/// What the manager of calendars opens for the selected calendar: `e` its title, `C` its color, `d`
/// its deletion, each where the provider and the calendar allow it; `c` a new calendar.
pub proof fn law_manager_keys(app: App, key: KeyEvent, post: App)
    requires
        app.after_manager_key(key, post),
        app.selected_calendar < app.snapshot.calendars@.len(),
    ensures
        ({
            let calendar = app.snapshot.calendars@[app.selected_calendar as int];
            &&& key.code == KeyCode::Char('e') ==> (post.mode == Mode::CalendarRename <==> (
            app.mode == Mode::CalendarRename || (app.calendar_capabilities.can_update
                && calendar.permissions.can_modify_metadata)))
            &&& key.code == KeyCode::Char('e') && app.calendar_capabilities.can_update
                && calendar.permissions.can_modify_metadata ==> (post.calendar_rename_form
                matches Some(form) && form.calendar_id@ == calendar.id@ && form.title@
                == calendar.title@)
            &&& key.code == KeyCode::Char('C') && app.calendar_capabilities.can_change_color
                && calendar.permissions.can_modify_metadata ==> (post.calendar_color_form
                matches Some(form) && form.calendar_id@ == calendar.id@ && form.color@
                == calendar.color@) && post.mode == Mode::CalendarColor
            &&& key.code == KeyCode::Char('d') && app.calendar_capabilities.can_delete
                && calendar.permissions.can_delete ==> (post.calendar_delete_confirmation
                matches Some(asked) && asked.calendar_id@ == calendar.id@) && post.mode
                == Mode::CalendarDeleteConfirm
            &&& key.code == KeyCode::Char('d') && !(app.calendar_capabilities.can_delete
                && calendar.permissions.can_delete) ==> post == (App { status: post.status, ..app })
            &&& post.snapshot == app.snapshot
        }),
{
}

/// In the form of a calendar a character is added to the line under the cursor, and Tab goes from
/// the title to the color, to the source, and back.
pub proof fn law_calendar_typing(
    form: CalendarForm,
    key: KeyEvent,
    count: int,
    post: CalendarForm,
    c: char,
)
    requires
        form.is_after_key(key, count, post),
        form.selected < 3,
        0 <= count <= usize::MAX,
    ensures
        key.code == KeyCode::Char(c) && !key.modifiers.control ==> {
            &&& form.selected == 0 ==> post.title@ == form.title@.push(c) && post.color@
                == form.color@
            &&& form.selected == 1 ==> post.color@ == form.color@.push(c) && post.title@
                == form.title@
            &&& form.selected == 2 ==> post.color@ == form.color@ && post.title@ == form.title@
        },
        key.code == KeyCode::Tab || key.code == KeyCode::Down ==> post.selected == (if form.selected
            == 2 {
            0
        } else {
            form.selected + 1
        }) && post.title@ == form.title@ && post.color@ == form.color@,
        key.code == KeyCode::BackTab || key.code == KeyCode::Up ==> post.selected == (
        if form.selected == 0 {
            2
        } else {
            form.selected - 1
        }),
        form.selected == 2 && count > 0 && (form.source_index matches Some(i) && i < count)
            ==> (key.code == KeyCode::Right ==> post.source_index == Some(
            (if form.source_index->0 + 1 == count {
                0
            } else {
                form.source_index->0 + 1
            }) as usize,
        )),
{
    if form.source_index is Some && 0 < count {
        let i = form.source_index->0 as int;
        if i + 1 < count {
            assert((i + 1) % count == i + 1) by (nonlinear_arith)
                requires
                    0 <= i,
                    i + 1 < count,
            ;
        } else if i + 1 == count {
            assert((i + 1) % count == 0) by (nonlinear_arith)
                requires
                    i + 1 == count,
                    count > 0,
            ;
        }
    }
}

/// A calendar is renamed to what is written, without the spaces around it, and colored with what is
/// written, in upper case; a blank name and what is no color are refused.
pub proof fn law_calendar_requests(
    renaming: CalendarRenameForm,
    coloring: CalendarColorForm,
    a: Result<RenameCalendarRequest, String>,
    b: Result<SetCalendarColorRequest, String>,
)
    requires
        call_ensures(CalendarRenameForm::to_request, (&renaming,), a),
        call_ensures(CalendarColorForm::to_request, (&coloring,), b),
    ensures
        a is Ok <==> trimmed(renaming.title@).len() > 0,
        a matches Ok(request) ==> request.title@ == trimmed(renaming.title@)
            && request.calendar_id@ == renaming.calendar_id@,
        b is Ok <==> is_color(coloring.color@),
        b matches Ok(request) ==> request.color@ == ascii_upper(coloring.color@)
            && request.calendar_id@ == coloring.calendar_id@,
{
}

} // verus!
