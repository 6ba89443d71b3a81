//! What the calendar starts with, where the timeline stands and how the pointer moves it, and what
//! is suggested and shown.

use crate::app::editing::{first_writable, rounded_minute};
use crate::app::overlays::{is_place, moved_place, next_place};
use crate::app::timeline::{
    activity, apart, best_row, earliest, items_wf, nearby, timeline_start, window_score, DayItem,
};
use crate::app::{
    App, DragState, Mode, MutationEffect, TimelineViewportOwner, UserAction, View,
};
use crate::config::{Config, StoredConfig};
use crate::event_form::{EventFormView, FormField};
use crate::hit_test::{CalendarHitTarget, ScreenRect};
use crate::input::{PointerButton, PointerEvent};
use crate::model::{
    blank_draft, CalendarInfo, EventSpan, EventTimeInput, EventTimeMutation, RecurrenceFrequency,
    Snapshot,
};
use crate::paths::path_below;
use crate::recurrence::{description, RecurrenceEditorView, RecurrenceEndMode};
use crate::seqs::lemma_first_is;
use crate::text::{ascii_lower, decimal};
use crate::time::{clock_time, Date, Timestamp, WallTime};
use vstd::prelude::*;
use vstd::view::View as _;

verus! {

/// The calendar starts on the date that is given, in the view that the settings name, in any case,
/// or in the week view; the timeline begins at seven, and nothing is open, written or remembered.
pub proof fn law_the_calendar_starts(config: Config, snapshot: Snapshot, date: Date, r: App)
    requires
        call_ensures(App::starting_on, (config, snapshot, date), r),
    ensures
        r.active_date == date,
        r.snapshot == snapshot,
        r.config == config,
        ascii_lower(config.default_view@) == "day"@ ==> r.view == View::Day,
        ascii_lower(config.default_view@) == "month"@ ==> r.view == View::Month,
        ascii_lower(config.default_view@) == "agenda"@ ==> r.view == View::Agenda,
        ascii_lower(config.default_view@) == "week"@ ==> r.view == View::Week,
        r.mode == Mode::Normal,
        r.modal_stack@.len() == 0,
        r.timeline_start_minute == 7 * 60,
        r.timeline_viewport_owner == TimelineViewportOwner::Auto,
        r.form is None,
        r.status is None,
        !r.should_quit,
        r.history.undo_stack@.len() == 0,
        r.history.redo_stack@.len() == 0,
        r.drag_session.state == DragState::Idle,
{
    reveal_strlit("day");
    reveal_strlit("month");
    reveal_strlit("agenda");
    reveal_strlit("week");
    assert("day"@.len() == 3 && "month"@.len() == 5 && "agenda"@.len() == 6 && "week"@.len() == 4);
}

/// Whether a short item takes place in a half hour of the day.
pub open spec fn is_in_row(item: DayItem, row: int) -> bool {
    item.end_minute - item.start_minute < 6 * 60 && item.start_minute < row * 30 + 30
        && item.end_minute > row * 30
}

/// A half hour is as busy as there are items of less than six hours in it: an item more makes just
/// the half hours that it takes place in busier, by one.
pub proof fn law_busy_rows(items: Seq<DayItem>, item: DayItem, row: int)
    requires
        item.wf(),
        0 <= row < 48,
        activity(items, row) < u16::MAX,
    ensures
        activity(items.push(item), row) == activity(items, row) + (if is_in_row(item, row) {
            1int
        } else {
            0
        }),
        activity(Seq::<DayItem>::empty(), row) == 0,
{
    assert(items.push(item).drop_last() =~= items);
    assert(item.takes(row) <==> item.start_minute < row * 30 + 30 && item.end_minute > row * 30)
        by {
        assert(item.start_minute as int / 30 <= row <==> item.start_minute < row * 30 + 30);
        assert(row <= (item.end_minute - 1) / 30 <==> item.end_minute > row * 30);
    }
}

/// Where nothing is near, the timeline begins where most is to be seen, and of several such places
/// at the one nearest to an hour before the first event.
pub proof fn law_the_busiest_rows_are_shown(
    items: Seq<DayItem>,
    rows: int,
    preferred: int,
    n: int,
    row: int,
)
    requires
        0 <= row < n,
    ensures
        ({
            let best = best_row(items, rows, preferred, n);
            &&& 0 <= best < n
            &&& window_score(items, row, rows) <= window_score(items, best, rows)
            &&& window_score(items, row, rows) == window_score(items, best, rows) ==> apart(
                best * 30,
                preferred,
            ) <= apart(row * 30, preferred)
        }),
    decreases n,
{
    if n > 1 {
        if row < n - 1 {
            law_the_busiest_rows_are_shown(items, rows, preferred, n - 1, row);
        } else {
            law_the_busiest_rows_are_shown(items, rows, preferred, n - 1, 0);
        }
    }
}

proof fn lemma_first_item(items: Seq<DayItem>, minute: int)
    ensures
        earliest(items) matches Some(first) ==> (exists|i: int|
            0 <= i < items.len() && (#[trigger] items[i]).start_minute == first && items[i].end_minute
                - items[i].start_minute < 360) && forall|i: int|
            0 <= i < items.len() && (#[trigger] items[i]).end_minute - items[i].start_minute < 360
                ==> first <= items[i].start_minute,
        earliest(items) is None ==> forall|i: int|
            0 <= i < items.len() ==> (#[trigger] items[i]).end_minute - items[i].start_minute >= 360,
        nearby(items, minute) matches Some(near) ==> exists|i: int|
            0 <= i < items.len() && (#[trigger] items[i]).start_minute == near && items[i].today
                && items[i].end_minute - items[i].start_minute < 360 && items[i].start_minute
                <= minute + 120 && items[i].end_minute + 120 >= minute,
        nearby(items, minute) is None ==> forall|i: int|
            0 <= i < items.len() && (#[trigger] items[i]).today && items[i].end_minute
                - items[i].start_minute < 360 ==> items[i].start_minute > minute + 120
                || items[i].end_minute + 120 < minute,
    decreases items.len(),
{
    if items.len() > 0 {
        let less = items.drop_last();
        lemma_first_item(less, minute);
        assert(items[items.len() - 1] == items.last());
        assert forall|i: int| 0 <= i < less.len() implies less[i] == #[trigger] items[i] by {}
        if let Some(first) = earliest(less) {
            let i = choose|i: int|
                0 <= i < less.len() && (#[trigger] less[i]).start_minute == first
                    && less[i].end_minute - less[i].start_minute < 360;
            assert(items[i].start_minute == first);
        }
        if let Some(near) = nearby(less, minute) {
            let i = choose|i: int|
                0 <= i < less.len() && (#[trigger] less[i]).start_minute == near && less[i].today
                    && less[i].end_minute - less[i].start_minute < 360 && less[i].start_minute
                    <= minute + 120 && less[i].end_minute + 120 >= minute;
            assert(items[i].start_minute == near);
        }
    }
}

/// Where the timeline begins by itself. With an event of today within two hours of now, at a half
/// hour that leaves up to a third of the screen before it, or before now where it has begun;
/// without any event of the day, a third of the screen before now today, and at nine on another
/// day; never so late that rows stay empty.
pub proof fn law_the_timeline_begins(
    rows: int,
    items: Seq<DayItem>,
    minute: int,
    active_today: bool,
    i: int,
)
    requires
        0 < rows <= 48,
        items_wf(items),
        0 <= minute < 1_440,
    ensures
        ({
            let start = timeline_start(rows, items, minute, active_today);
            let last = 1_440 - rows * 30;
            &&& 0 <= i < items.len() && items[i].today && items[i].end_minute
                - items[i].start_minute < 360 && items[i].start_minute <= minute + 120
                && items[i].end_minute + 120 >= minute ==> start % 30 == 0 && start <= minute
                && start <= items[i].start_minute
            &&& items.len() == 0 && active_today ==> start == (if minute - rows * 10 < 0 {
                0
            } else if minute - rows * 10 > last {
                last
            } else {
                minute - rows * 10
            })
            &&& items.len() == 0 && !active_today ==> start == (if last < 9 * 60 {
                last
            } else {
                540
            })
        }),
{
    lemma_first_item(items, minute);
    if 0 <= i < items.len() && items[i].useful() && items[i].near(minute) {
        lemma_near(items, minute, i);
    }
    let window = rows * 30;
    assert(window / 3 == rows * 10) by (nonlinear_arith)
        requires
            window == rows * 30,
    ;
    assert((1_440 - window) % 30 == 0) by (nonlinear_arith)
        requires
            window == rows * 30,
    ;
}

proof fn lemma_near(items: Seq<DayItem>, minute: int, i: int)
    requires
        0 <= i < items.len() && items[i].useful() && items[i].near(minute),
    ensures
        nearby(items, minute) matches Some(near) && near <= items[i].start_minute,
    decreases items.len(),
{
    let less = items.drop_last();
    if i < less.len() {
        assert(less[i] == items[i]);
        lemma_near(less, minute, i);
    }
}

/// A time that is suggested is the nearest multiple of the step, not later than the last minute of
/// the day.
pub proof fn law_suggested_minutes(minute: int, step: int)
    requires
        0 <= minute < 1_440,
        1 <= step,
    ensures
        ({
            let r = rounded_minute(minute, step);
            &&& 0 <= r <= 1_439
            &&& r < 1_439 ==> r % step == 0 && -step <= 2 * (r - minute) <= step
            &&& minute % step == 0 ==> r == minute
        }),
{
    let sum = minute + step / 2;
    let q = sum / step;
    vstd::arithmetic::div_mod::lemma_fundamental_div_mod(sum, step);
    vstd::arithmetic::div_mod::lemma_fundamental_div_mod(minute, step);
    vstd::arithmetic::div_mod::lemma_mod_bound(sum, step);
    vstd::arithmetic::mul::lemma_mul_is_commutative(step, q);
    assert(q * step % step == 0) by {
        vstd::arithmetic::div_mod::lemma_mod_multiples_basic(q, step);
    }
    if minute % step == 0 {
        let k = minute / step;
        assert(q == k) by {
            vstd::arithmetic::mul::lemma_mul_is_commutative(step, k);
            assert(sum == k * step + step / 2);
            assert(0 <= step / 2 < step);
            vstd::arithmetic::div_mod::lemma_fundamental_div_mod_converse(sum, step, k, step / 2);
        }
    }
}

/// Where a new event is suggested to begin: with the selected event, where it is of the shown day;
/// else at the time that the settings name on a day that is not today, and at a round time near now
/// today.
pub proof fn law_suggested_start(app: App, selected: Option<WallTime>, clock: WallTime)
    ensures
        selected matches Some(at) ==> (at.date == app.active_date ==> app.start_suggested(
            selected,
            clock,
        ) == at.second as int / 60),
        (selected matches Some(at) ==> at.date != app.active_date) && app.active_date != clock.date
            ==> (clock_time(app.config.event.default_start_time@) matches Some(second)
            ==> app.start_suggested(selected, clock) == second as int / 60),
        (selected matches Some(at) ==> at.date != app.active_date) && app.active_date == clock.date
            ==> app.start_suggested(selected, clock) == rounded_minute(
            clock.second as int / 60,
            app.config.event.time_rounding_minutes as int,
        ),
{
}

/// The selection moves along the events that are shown and stops at both ends; with nothing
/// selected it starts at the end that it is moved from.
pub proof fn law_selection_moves(place: usize, delta: int, count: int)
    requires
        0 < count <= usize::MAX,
    ensures
        moved_place(place, delta, count) < count,
        place < count && 0 <= place + delta < count ==> moved_place(place, delta, count) == place
            + delta,
        place < count && place + delta < 0 ==> moved_place(place, delta, count) == 0,
        place < count && place + delta >= count ==> moved_place(place, delta, count) == count - 1,
        place >= count && delta > 0 ==> moved_place(place, delta, count) == 0,
        place >= count && delta < 0 ==> moved_place(place, delta, count) == count - 1,
{
}

/// In the month the selection goes round the events of the day: from each to the next, from the
/// last to the first, and back the same way.
pub proof fn law_selection_goes_round(places: Seq<int>, k: int)
    requires
        0 <= k < places.len(),
        forall|i: int, j: int| 0 <= i < j < places.len() ==> places[i] != places[j],
    ensures
        next_place(places, places[k], false) == Some(
            if k + 1 < places.len() {
                places[k + 1]
            } else {
                places[0]
            },
        ),
        next_place(places, places[k], true) == Some(
            if k > 0 {
                places[k - 1]
            } else {
                places.last()
            },
        ),
{
    lemma_first_is(places, is_place(places[k]), k);
    let n = places.len() as int;
    if k + 1 == n {
        vstd::arithmetic::div_mod::lemma_mod_self_0(n);
    } else {
        vstd::arithmetic::div_mod::lemma_small_mod((k + 1) as nat, n as nat);
    }
    if k == 0 {
        vstd::arithmetic::div_mod::lemma_small_mod((n - 1) as nat, n as nat);
    } else {
        vstd::arithmetic::div_mod::lemma_mod_add_multiples_vanish(k - 1, n);
        vstd::arithmetic::div_mod::lemma_small_mod((k - 1) as nat, n as nat);
    }
}

/// The wheel scrolls the timeline by an hour, down for later times, and from then on it stays where
/// it was put; elsewhere it moves the selection by one.
pub proof fn law_wheel(app: App, delta_y: i16, post: App)
    requires
        app.after_wheel(delta_y, post),
    ensures
        delta_y == 0 ==> post == app,
        (app.view == View::Day || app.view == View::Week) && delta_y > 0
            && app.timeline_start_minute <= 22 * 60 ==> post.timeline_start_minute
            == app.timeline_start_minute + 60 && post.timeline_viewport_owner
            == TimelineViewportOwner::Manual,
        (app.view == View::Day || app.view == View::Week) && delta_y < 0
            && 60 <= app.timeline_start_minute <= 24 * 60 ==> post.timeline_start_minute
            == app.timeline_start_minute - 60 && post.timeline_viewport_owner
            == TimelineViewportOwner::Manual,
        (app.view == View::Day || app.view == View::Week) ==> post.selected_event
            == app.selected_event,
        app.view != View::Day && app.view != View::Week ==> post.timeline_start_minute
            == app.timeline_start_minute,
        app.view != View::Day && app.view != View::Week && delta_y != 0 ==> exists|list: Seq<int>|
            #[trigger]
            app.may_show(list) && post.selected_event == moved_place(
                app.selected_event,
                if delta_y > 0 {
                    1
                } else {
                    -1
                },
                list.len() as int,
            ),
        post.snapshot == app.snapshot,
        post.active_date == app.active_date,
{
}

/// A press of the first button begins to drag the event under the pointer; another button, or
/// another place, begins nothing. A move or a release without such an event does nothing either,
/// and a cancel ends a drag without an effect.
pub proof fn law_pointer(
    app: App,
    pointer: PointerEvent,
    target: Option<CalendarHitTarget>,
    post: App,
    r: Option<UserAction>,
)
    requires
        app.after_pointer(pointer, target, post, r),
    ensures
        r is Some ==> pointer.action is Release && app.drag_session.event_id is Some,
        pointer.action is Press && pointer.button != Some(PointerButton::Primary) ==> post == app,
        pointer.action is Press && target is None ==> post == app,
        (pointer.action is Move || pointer.action is Release) && app.drag_session.event_id is None
            ==> post == app && r is None,
        pointer.action is Cancel ==> post.drag_session.state == DragState::Idle
            && post.drag_session.event_id is None && post.snapshot == app.snapshot && post.mode
            == app.mode,
        post.snapshot == app.snapshot,
{
}

/// A drag begins on an event that is shown, can be written to and whose dates are known; else the
/// user is told, and nothing is dragged.
pub proof fn law_drags_begin(
    app: App,
    event_id: String,
    origin: CalendarHitTarget,
    post: App,
    r: bool,
)
    requires
        app.after_drag_start(event_id, origin, post, r),
    ensures
        r ==> post.drag_session.event_id == Some(event_id) && post.drag_session.state
            == DragState::Pressed && post.drag_session.current_target is None
            && post.drag_session.origin == Some(origin),
        r ==> exists|index: Option<int>| #[trigger]
            app.may_act_on(event_id@, index) && (index matches Some(i) && app.writable(
                app.snapshot.events@[i].calendar_id@,
            )),
        r ==> (origin matches CalendarHitTarget::ExistingEvent { event_id: id } && id@ == event_id@),
        !r ==> post == (App { status: post.status, ..app }) && (post.status matches Some(shown)
            && shown.1),
        post.snapshot == app.snapshot,
{
}

/// What stands in a line of the form is what the form holds there.
pub proof fn law_shown_values(form: EventFormView, calendars: Seq<CalendarInfo>)
    ensures
        form.current() == FormField::Title ==> form.shown_value(calendars) == form.title,
        form.current() == FormField::Start ==> form.shown_value(calendars) == form.start,
        form.current() == FormField::End ==> form.shown_value(calendars) == form.end,
        form.current() == FormField::Location ==> form.shown_value(calendars) == form.location,
        form.current() == FormField::Notes ==> form.shown_value(calendars) == form.notes,
        form.current() == FormField::Url ==> form.shown_value(calendars) == form.url,
        form.current() == FormField::TimeZone ==> form.shown_value(calendars) == form.time_zone,
        form.current() == FormField::Calendar && form.calendar_index < calendars.len()
            ==> form.shown_value(calendars) == calendars[form.calendar_index].title@,
        form.current() == FormField::AllDay ==> form.shown_value(calendars) == (if form.all_day {
            "yes"@
        } else {
            "no"@
        }),
        form.current() == FormField::Scope ==> form.shown_value(calendars) == (if form.span
            == EventSpan::FutureEvents {
            "this and future events"@
        } else {
            "this event"@
        }),
        form.current() == FormField::RecurrenceInterval ==> (
        form.recurrence matches RecurrenceEditorView::Structured(data) ==> form.shown_value(
            calendars,
        ) == decimal(data.rule.interval as nat)),
{
}

/// What is shown of how an event repeats.
pub proof fn law_shown_repetition(state: RecurrenceEditorView)
    ensures
        state is Never ==> state.picker_text() == "Never"@ && state.summary_text()
            == "Does not repeat"@,
        state matches RecurrenceEditorView::Structured(data) ==> {
            &&& data.rule.frequency == RecurrenceFrequency::Daily ==> state.picker_text()
                == "Daily"@
            &&& data.rule.frequency == RecurrenceFrequency::Weekly ==> state.picker_text()
                == "Weekly"@
            &&& data.rule.frequency == RecurrenceFrequency::Monthly ==> state.picker_text()
                == "Monthly"@
            &&& data.rule.frequency == RecurrenceFrequency::Yearly ==> state.picker_text()
                == "Yearly"@
            &&& data.end_mode == RecurrenceEndMode::AfterOccurrences ==> (
            data.validated_occurrence_count matches Some(count) ==> state.summary_text()
                == description(seq![data.rule]) + " For "@ + decimal(count as nat)
                + " occurrences"@)
        },
{
}

/// What is said of an event's time when a form is saved: an all-day event whose dates stand as they
/// were keeps them, one with other dates gets these.
pub proof fn law_changed_times(form: EventFormView)
    ensures
        form.changed_time() matches Ok(EventTimeMutation::ReplaceAllDay {
            start_date,
            end_date_exclusive,
        }) ==> (form.all_day_editor matches Some(state) && !(start_date == state.original_start
            && end_date_exclusive == state.original_end_exclusive)),
        form.all_day_editor is None && form.id is None ==> form.changed_time() == Ok::<
            EventTimeMutation,
            Seq<char>,
        >(EventTimeMutation::ReplaceLegacy),
        form.all_day_editor is None && !form.all_day ==> form.changed_time() == Ok::<
            EventTimeMutation,
            Seq<char>,
        >(EventTimeMutation::ReplaceLegacy),
        form.all_day_editor is None && form.all_day && form.id is Some ==> form.changed_time() == Ok::<
            EventTimeMutation,
            Seq<char>,
        >(EventTimeMutation::Preserve),
{
}

/// A blank draft lasts an hour from its start and says nothing yet.
pub proof fn law_blank_drafts(calendar_id: Seq<char>, start: Timestamp, zone: Seq<char>)
    requires
        start.nanos <= i128::MAX - 3_600_000_000_000,
    ensures
        ({
            let draft = blank_draft(calendar_id, start, zone);
            &&& draft.calendar_id == calendar_id
            &&& draft.time_zone == zone
            &&& draft.title.len() == 0
            &&& draft.location.len() == 0
            &&& draft.notes.len() == 0
            &&& draft.id is None
            &&& draft.alarms.len() == 0
            &&& draft.recurrence.len() == 0
            &&& draft.time matches EventTimeInput::Timed { start: first, end } && first == start
                && end.nanos - start.nanos == 60 * 60 * 1_000_000_000
        }),
{
}

/// Settings are accepted where each has one of its values; without a file the settings are those
/// that are documented, and are accepted themselves.
pub proof fn law_settings(path: &str, config: Config, r: Result<Config, String>)
    requires
        call_ensures(Config::load_from, (path, StoredConfig::Read(config)), r),
    ensures
        r is Ok <==> {
            &&& ascii_lower(config.theme@) == "dark"@ || ascii_lower(config.theme@) == "light"@
            &&& ascii_lower(config.week_start@) == "monday"@ || ascii_lower(config.week_start@)
                == "sunday"@
            &&& ascii_lower(config.time_format@) == "12h"@ || ascii_lower(config.time_format@)
                == "24h"@
            &&& ascii_lower(config.default_view@) == "day"@ || ascii_lower(config.default_view@)
                == "week"@ || ascii_lower(config.default_view@) == "month"@ || ascii_lower(
                config.default_view@,
            ) == "agenda"@
            &&& ascii_lower(config.backend@) == "eventkit"@ || ascii_lower(config.backend@)
                == "mock"@
            &&& config.refresh_seconds > 0
            &&& config.event.default_duration_minutes > 0
            &&& config.event.time_rounding_minutes > 0
            &&& config.event.move_step_minutes > 0
            &&& clock_time(config.event.default_start_time@) is Some
            &&& config.cache.past_days <= 3_650
            &&& config.cache.future_days <= 3_650
        },
        r matches Ok(accepted) ==> accepted == config,
{
}

/// Without a file the settings are those that are documented.
pub proof fn law_default_settings(path: &str, r: Result<Config, String>)
    requires
        call_ensures(Config::load_from, (path, StoredConfig::Missing), r),
    ensures
        r matches Ok(config) && config.theme@ == "dark"@ && config.week_start@ == "monday"@
            && config.time_format@ == "24h"@ && config.default_view@ == "week"@
            && config.show_week_numbers && config.refresh_seconds == 60 && config.backend@
            == "eventkit"@ && config.event.default_duration_minutes == 60
            && config.event.default_start_time@ == "09:00"@ && config.event.time_rounding_minutes
            == 15 && config.event.move_step_minutes == 15 && config.cache.past_days == 365
            && config.cache.future_days == 730,
{
}

/// A file that cannot be read, or does not hold settings, is an error that names the file.
pub proof fn law_refused_settings(path: &str, text: String, a: Result<Config, String>, b: Result<
    Config,
    String,
>)
    requires
        call_ensures(Config::load_from, (path, StoredConfig::Unreadable(text)), a),
        call_ensures(Config::load_from, (path, StoredConfig::Unparsable(text)), b),
    ensures
        a matches Err(error) && error@ == "reading "@ + path@ + ": "@ + text@,
        b matches Err(error) && error@ == "parsing "@ + path@ + ": "@ + text@,
{
}

/// A name below a path is joined to it by just one slash; below nothing it stands alone.
pub proof fn law_paths_are_joined(path: Seq<char>, name: Seq<char>)
    ensures
        path.len() == 0 ==> path_below(path, name) == name,
        path.len() > 0 && path.last() == '/' ==> path_below(path, name) == path + name,
        path.len() > 0 && path.last() != '/' ==> path_below(path, name) == path.push('/') + name,
{
    reveal_strlit("/");
    assert("/"@ =~= seq!['/']);
    assert(path + "/"@ =~= path.push('/'));
    assert(Seq::<char>::empty() + name =~= name);
    if path.len() == 0 {
        assert(path + name =~= name);
    }
}

/// The file of the settings is the one that the environment names; else it lies in the program's
/// own directory below the user's.
pub proof fn law_settings_path(variable: Option<String>, base: Option<String>, r: String)
    requires
        call_ensures(Config::path, (variable, base), r),
    ensures
        variable matches Some(path) ==> r@ == path@,
        variable is None ==> (base matches Some(base) ==> r@ == path_below(
            path_below(base@, "tui-calendar"@),
            "config.toml"@,
        )),
{
}

/// A rectangle of the screen holds the positions from its first column and row on, as many as it is
/// wide and high.
pub proof fn law_rectangles(rect: ScreenRect, x: u16, y: u16, r: bool)
    requires
        call_ensures(ScreenRect::contains, (rect, x, y), r),
        rect.x + rect.width <= u16::MAX,
        rect.y + rect.height <= u16::MAX,
    ensures
        r <==> rect.x <= x && x - rect.x < rect.width && rect.y <= y && y - rect.y < rect.height,
{
}

/// The names of the views, and what is said of a change that was made.
pub proof fn law_labels(view: View, effect: MutationEffect)
    ensures
        view == View::Day ==> view.text() == "Day"@,
        view == View::Week ==> view.text() == "Week"@,
        view == View::Month ==> view.text() == "Month"@,
        view == View::Agenda ==> view.text() == "Agenda"@,
        effect is Created ==> effect.text() == "Event created"@,
        effect is Updated ==> effect.text() == "Event updated"@,
        effect is Deleted ==> effect.text() == "Event deleted"@,
{
}

/// A new event is written in a form for the first calendar that can be written to, on the date that
/// is shown, as long as the settings say; without such a calendar the user is told.
pub proof fn law_new_events(app: App, post: App)
    requires
        app.after_new(post),
    ensures
        first_writable(app.snapshot.calendars@) matches Some(i) ==> post.mode == Mode::Form
            && !post.form_dirty && (post.form matches Some(form) && exists|minute: int| #[trigger]
            app.may_suggest(minute) && form.creates(
                i,
                app.active_date,
                minute,
                app.config.event.default_duration_minutes as int,
            )),
        first_writable(app.snapshot.calendars@) is None ==> post == (App {
            status: post.status,
            ..app
        }) && (post.status matches Some(shown) && shown.0@ == "No writable calendars are available"@
            && shown.1),
        post.snapshot == app.snapshot,
{
}

} // verus!
