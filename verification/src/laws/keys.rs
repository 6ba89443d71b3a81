//! Which keys do what, and in which dialog.

use crate::app::actions::EventAction;
use crate::app::{App, Mode, WorkerCommand};
use crate::input::{KeyCode, KeyEvent};
use crate::laws::calendar::in_calendar;
use crate::model::Event;
use crate::quick_add::QuickAddParseResult;
use vstd::prelude::*;

verus! {

/// In the calendar `e`, `D` and `d` change, copy and delete the selected event, `u` takes the last
/// change back, Enter shows the details, and the brackets step through the calendars.
pub proof fn law_event_keys(
    app: App,
    key: KeyEvent,
    parsed: QuickAddParseResult,
    post: App,
    r: Option<WorkerCommand>,
)
    requires
        in_calendar(app, key),
        app.after_key(key, parsed, post, r),
    ensures
        key.code == KeyCode::Char('e') ==> r is None && app.after_selected_action(
            EventAction::Edit,
            post,
        ),
        key.code == KeyCode::Char('D') ==> r is None && app.after_selected_action(
            EventAction::Duplicate,
            post,
        ),
        key.code == KeyCode::Char('d') ==> r is None && app.after_selected_action(
            EventAction::Delete,
            post,
        ),
        key.code == KeyCode::Char('u') ==> app.after_history(true, post, r),
        key.code == KeyCode::Enter ==> r is None && app.after_open_details(post),
{
}

/// Control and `r` make the last change that was taken back again, Control and `c` end the
/// application from anywhere, and a key that is let go does nothing.
pub proof fn law_control_keys(
    app: App,
    key: KeyEvent,
    parsed: QuickAddParseResult,
    post: App,
    r: Option<WorkerCommand>,
)
    requires
        app.after_key(key, parsed, post, r),
    ensures
        key.released ==> post == app && r is None,
        !key.released && key.modifiers.control && key.code == KeyCode::Char('c') ==> post == (App {
            should_quit: true,
            ..app
        }) && r is None,
        !key.released && key.modifiers.control && key.code == KeyCode::Char('r') && app.mode
            == Mode::Normal && !app.pending_g ==> app.after_history(false, post, r),
        !key.released && key.code == KeyCode::Esc && app.drag_session.event_id is Some
            ==> post.drag_session.event_id is None && post.mode == app.mode && r is None
            && post.snapshot == app.snapshot,
{
}

/// The brackets step to the calendar before and the one after, stop at both ends, and show the
/// sidebar.
pub proof fn law_bracket_keys(app: App)
    requires
        app.snapshot.calendars@.len() > 0,
        app.selected_calendar < app.snapshot.calendars@.len() <= usize::MAX,
    ensures
        app.calendar_stepped(true).selected_calendar == (if app.selected_calendar > 0 {
            app.selected_calendar - 1
        } else {
            0
        }),
        app.calendar_stepped(false).selected_calendar == (if app.selected_calendar + 1
            < app.snapshot.calendars@.len() {
            app.selected_calendar + 1
        } else {
            app.selected_calendar as int
        }),
        app.calendar_stepped(true).sidebar_visible && app.calendar_stepped(false).sidebar_visible,
        app.calendar_stepped(true).mode == Mode::Calendars,
        app.calendar_stepped(false).mode == Mode::Calendars,
{
}

/// In the sidebar the arrows, `j` and `k` step through the calendars, the space bar and Enter show
/// or hide the chosen one, Escape and `q` leave it open, and `c` closes it.
pub proof fn law_sidebar_keys(app: App, key: KeyEvent, post: App, r: Option<WorkerCommand>)
    requires
        app.after_calendars_key(key, post, r),
        app.selected_calendar < app.snapshot.calendars@.len() <= usize::MAX,
    ensures
        key.code == KeyCode::Down || key.code == KeyCode::Char('j') ==> post.selected_calendar == (
        if app.selected_calendar + 1 < app.snapshot.calendars@.len() {
            app.selected_calendar + 1
        } else {
            app.selected_calendar as int
        }),
        key.code == KeyCode::Up || key.code == KeyCode::Char('k') ==> post.selected_calendar == (
        if app.selected_calendar > 0 {
            app.selected_calendar - 1
        } else {
            0
        }),
        key.code == KeyCode::Char(' ') || key.code == KeyCode::Enter ==> {
            let calendar = app.snapshot.calendars@[app.selected_calendar as int];
            &&& r == Some(WorkerCommand::SetCalendarEnabled(calendar.id, !calendar.enabled))
            &&& post.snapshot.calendars@[app.selected_calendar as int].enabled == !calendar.enabled
            &&& post.snapshot.events == app.snapshot.events
        },
        key.code == KeyCode::Esc || key.code == KeyCode::Char('q') ==> post.mode == Mode::Normal
            && post.sidebar_visible == app.sidebar_visible,
        key.code == KeyCode::Char('c') ==> post.mode == Mode::Normal && !post.sidebar_visible,
        key.code != KeyCode::Char(' ') && key.code != KeyCode::Enter ==> r is None && post.snapshot
            == app.snapshot,
{
}

/// The details that Enter opens are those of the selected event, and remember where they were
/// opened from.
pub proof fn law_details_open(app: App, post: App)
    requires
        app.after_open_details(post),
    ensures
        exists|selected: Option<int>| #[trigger]
            app.may_select(selected) && match selected {
                Some(i) => post.mode == Mode::Details && post.detail_scroll == 0 && (
                post.interaction_context matches Some(context) && context.occurrence_id
                    == app.snapshot.events@[i].id && context.source_view == app.view
                    && context.source_active_date == app.active_date),
                None => post == app,
            },
        post.snapshot == app.snapshot,
        post.active_date == app.active_date,
        post.view == app.view,
{
}

/// Each dialog answers to its own keys.
pub proof fn law_dialogs_have_their_keys(
    app: App,
    key: KeyEvent,
    parsed: QuickAddParseResult,
    post: App,
    r: Option<WorkerCommand>,
)
    requires
        !key.released,
        !key.modifiers.control,
        app.drag_session.event_id is None,
        app.after_key(key, parsed, post, r),
    ensures
        app.mode == Mode::Calendars ==> app.after_calendars_key(key, post, r),
        app.mode == Mode::CalendarManager ==> r is None && app.after_manager_key(key, post),
        app.mode == Mode::CalendarCreate ==> app.after_create_key(key, post, r),
        app.mode == Mode::CalendarRename ==> app.after_rename_key(key, post, r),
        app.mode == Mode::CalendarColor ==> app.after_color_key(key, post, r),
        app.mode == Mode::CalendarDeleteConfirm ==> app.after_confirm_key(key, post, r),
        app.mode == Mode::QuickAdd ==> app.after_quick_key(key, parsed, post, r),
        app.mode == Mode::Details ==> app.after_details_key(key, post, r),
        app.mode == Mode::Search ==> app.after_search_key(key, post, r),
        app.mode == Mode::Palette ==> app.after_palette_key(key, post, r),
        app.mode == Mode::DateJump ==> app.after_date_key(key, post, r),
        app.mode == Mode::Form ==> app.after_form_key(key, post, r),
        app.mode == Mode::DiscardConfirm ==> app.after_discard_key(key, post, r),
        app.mode == Mode::Delete ==> app.after_delete_key(key, post, r),
        app.mode == Mode::RecurringEditScope || app.mode == Mode::RecurringDeleteScope
            ==> app.after_scope_key(key, post, r),
        app.mode == Mode::Help ==> app.after_help_key(key, post),
{
}

/// What is done with the selected event is done with the event that is selected; without one the
/// user is told.
pub proof fn law_selected_event(app: App, action: EventAction, post: App)
    requires
        app.after_selected_action(action, post),
    ensures
        exists|selected: Option<int>| #[trigger]
            app.may_select(selected) && match selected {
                Some(i) => app.after_action_on(action, app.snapshot.events@[i].id@, post),
                None => post == (App { status: post.status, ..app }) && (
                post.status matches Some(shown) && shown.0@ == "Select an event first"@ && shown.1),
            },
{
}

/// What is done with an event is done with one that is shown and has its name; one that is no
/// longer shown is not touched, and the user is told.
pub proof fn law_named_event(app: App, action: EventAction, id: Seq<char>, post: App)
    requires
        app.after_action_on(action, id, post),
    ensures
        exists|index: Option<int>| #[trigger]
            app.may_act_on(id, index) && match index {
                Some(i) => match action {
                    EventAction::Edit => app.after_edit(app.snapshot.events@[i], post),
                    EventAction::Duplicate => app.after_duplicate(app.snapshot.events@[i], post),
                    EventAction::Delete => app.after_delete(app.snapshot.events@[i], post),
                },
                None => post == (App { status: post.status, ..app }) && (
                post.status matches Some(shown) && shown.0@ == "Event no longer exists"@
                    && shown.1),
            },
{
}

/// A copy of an event is written in a form of a new event with all that the event says; an event in
/// a calendar that cannot be written to, or with alarms that cannot be edited, is not copied.
pub proof fn law_copies(app: App, event: Event, post: App)
    requires
        app.after_duplicate(event, post),
    ensures
        !app.writable(event.calendar_id@) ==> post == (App { status: post.status, ..app }),
        post.mode == Mode::Form && app.mode != Mode::Form ==> (
        post.form matches Some(form) && form.duplicates(event, app.snapshot.calendars@)),
        post.snapshot == app.snapshot,
{
}

} // verus!
