//! What the keys of the calendar do.

use crate::app::shown::{is_shown, near_midnight, view_window};
use crate::app::pointer::lemma_acted_on;
use crate::app::{command_view, App, Mode, View, WorkerCommand, WorkerCommandView};
use crate::input::{KeyCode, KeyEvent};
use crate::model::{CalendarInfo, Event, EventSpan, EventTimeInput, EventTimeMutation};
use crate::quick_add::QuickAddParseResult;
use crate::text::opt_view;
use crate::model::rule_views;
use crate::time::{may_be_today, Date, Timestamp, MAX_DAY, MIN_DAY};
use vstd::prelude::*;
use vstd::view::View as _;

verus! {

/// Whether a key was pressed in the calendar itself, alone or together with Alt, while nothing else
/// waits for it.
pub open spec fn in_calendar(app: App, key: KeyEvent) -> bool {
    &&& app.mode == Mode::Normal
    &&& !app.pending_g
    &&& !key.released
    &&& !key.modifiers.control
    &&& app.drag_session.event_id is None
}

/// Whether a key moves one date back, or one on, whatever the view.
pub open spec fn steps_a_day(key: KeyEvent, backwards: bool) -> bool {
    if backwards {
        key.code == KeyCode::Left || (key.code == KeyCode::Char('h') && !key.modifiers.alt)
    } else {
        key.code == KeyCode::Right || (key.code == KeyCode::Char('l') && !key.modifiers.alt)
    }
}

/// Left and `h` go a day back, Right and `l` a day on. The view, the events and the overlays stay,
/// and what is then shown is asked for.
pub proof fn law_day_keys(
    app: App,
    key: KeyEvent,
    parsed: QuickAddParseResult,
    post: App,
    r: Option<WorkerCommand>,
    backwards: bool,
)
    requires
        in_calendar(app, key),
        steps_a_day(key, backwards),
        app.after_key(key, parsed, post, r),
    ensures
        MIN_DAY < app.active_date.day < MAX_DAY ==> post.active_date.day == app.active_date.day + (
        if backwards {
            -1int
        } else {
            1
        }),
        post.view == app.view,
        post.snapshot == app.snapshot,
        post.mode == app.mode,
        r is Some && r->0 is EnsureRange,
{
}

/// In the month and week views `k` goes a week back and `j` a week on; in the month view so do Up
/// and Down.
pub proof fn law_week_keys(
    app: App,
    key: KeyEvent,
    parsed: QuickAddParseResult,
    post: App,
    r: Option<WorkerCommand>,
    backwards: bool,
)
    requires
        in_calendar(app, key),
        !key.modifiers.alt,
        if backwards {
            (key.code == KeyCode::Char('k') && (app.view == View::Month || app.view == View::Week))
                || (key.code == KeyCode::Up && app.view == View::Month)
        } else {
            (key.code == KeyCode::Char('j') && (app.view == View::Month || app.view == View::Week))
                || (key.code == KeyCode::Down && app.view == View::Month)
        },
        app.after_key(key, parsed, post, r),
    ensures
        MIN_DAY + 7 <= app.active_date.day <= MAX_DAY - 7 ==> post.active_date.day
            == app.active_date.day + (if backwards {
            -7int
        } else {
            7
        }),
        post.view == app.view,
        post.snapshot == app.snapshot,
{
}

/// `H` and `L` go to the previous and the next day, week or month, as the view is.
pub proof fn law_period_keys(
    app: App,
    key: KeyEvent,
    parsed: QuickAddParseResult,
    post: App,
    r: Option<WorkerCommand>,
    backwards: bool,
)
    requires
        in_calendar(app, key),
        key.code == KeyCode::Char(if backwards {
            'H'
        } else {
            'L'
        }),
        MIN_DAY + 7 <= app.active_date.day <= MAX_DAY - 7,
        app.after_key(key, parsed, post, r),
    ensures
        app.view == View::Week ==> post.active_date.day == app.active_date.day + (if backwards {
            -7int
        } else {
            7
        }),
        app.view == View::Day || app.view == View::Agenda ==> post.active_date.day
            == app.active_date.day + (if backwards {
            -1int
        } else {
            1
        }),
        app.view == View::Month ==> {
            let month = if backwards {
                crate::time::previous_month_day(app.active_date.day)
            } else {
                crate::time::next_month_day(app.active_date.day)
            };
            post.active_date.day == (match month {
                Some(day) => day,
                None => app.active_date.day,
            })
        },
        post.view == app.view,
        r is Some && r->0 is EnsureRange,
{
}

/// In the day and agenda views `j` and Down select the next event and `k` and Up the previous one,
/// as far as there is one, and a step on and a step back lead to where they began.
pub proof fn law_selection_keys(
    app: App,
    key: KeyEvent,
    parsed: QuickAddParseResult,
    post: App,
    r: Option<WorkerCommand>,
    backwards: bool,
)
    requires
        in_calendar(app, key),
        !key.modifiers.alt,
        app.view == View::Day || app.view == View::Agenda,
        key.code == (if backwards {
            KeyCode::Char('k')
        } else {
            KeyCode::Char('j')
        }) || key.code == (if backwards {
            KeyCode::Up
        } else {
            KeyCode::Down
        }),
        app.after_key(key, parsed, post, r),
    ensures
        r is None,
        post == (App { selected_event: post.selected_event, ..app }),
        exists|list: Seq<int>| #[trigger]
            app.may_show(list) && {
                let count = list.len() as int;
                let place = app.selected_event as int;
                let then = post.selected_event as int;
                &&& count > 0 ==> 0 <= then < count
                &&& count > 0 && place >= count ==> then == (if backwards {
                    count - 1
                } else {
                    0
                })
                &&& place < count && backwards ==> then == (if place > 0 {
                    place - 1
                } else {
                    0
                })
                &&& place < count && !backwards ==> then == (if place + 1 < count {
                    place + 1
                } else {
                    count - 1
                })
            },
{
    let delta: int = if backwards {
        -1
    } else {
        1
    };
    assert(app.after_select(delta, post));
    let list = choose|list: Seq<int>| #[trigger]
        app.may_show(list) && post == (App {
            selected_event: crate::app::overlays::moved_place(
                app.selected_event,
                delta,
                list.len() as int,
            ),
            ..app
        });
    assert(app.may_show(list));
    lemma_shown_count(app, list);
}

proof fn lemma_shown_count(app: App, list: Seq<int>)
    requires
        app.may_show(list),
    ensures
        list.len() <= app.snapshot.events@.len() <= usize::MAX,
{
    let (start, end) = choose|start: Timestamp, end: Timestamp|
        near_midnight(start, app.window().0) && near_midnight(end, app.window().1) && list
            == #[trigger] app.shown_between(start, end);
    crate::app::shown::law_shown_events_are_complete(app, start, end);
    let n = app.snapshot.events@.len() as int;
    assert(app.snapshot.events.len() == n);
    let all = Seq::new(n as nat, |i: int| i);
    assert(list.len() <= n) by {
        list.unique_seq_to_set();
        all.unique_seq_to_set();
        assert forall|i: int| list.to_set().contains(i) implies all.to_set().contains(i) by {
            assert(list.contains(i));
            assert(0 <= i < n);
            assert(all[i] == i);
        }
        vstd::set_lib::lemma_len_subset(list.to_set(), all.to_set());
    }
}

/// `g` and then `d`, `w`, `m` or `a` show a day, a week, a month or the agenda, with all overlays
/// closed; `g` and then `g`, or `t`, go to the current date.
pub proof fn law_view_keys(
    app: App,
    key: KeyEvent,
    parsed: QuickAddParseResult,
    post: App,
    r: Option<WorkerCommand>,
)
    requires
        app.mode == Mode::Normal,
        !key.released,
        !key.modifiers.control,
        app.drag_session.event_id is None,
        app.after_key(key, parsed, post, r),
    ensures
        app.pending_g && key.code == KeyCode::Char('d') ==> post.view == View::Day,
        app.pending_g && key.code == KeyCode::Char('w') ==> post.view == View::Week,
        app.pending_g && key.code == KeyCode::Char('m') ==> post.view == View::Month,
        app.pending_g && key.code == KeyCode::Char('a') ==> post.view == View::Agenda,
        app.pending_g && key.code == KeyCode::Char('c') ==> post.mode == Mode::CalendarManager,
        app.pending_g && (key.code == KeyCode::Char('d') || key.code == KeyCode::Char('w')
            || key.code == KeyCode::Char('m') || key.code == KeyCode::Char('a')) ==> post.mode
            == Mode::Normal && post.modal_stack@.len() == 0 && post.snapshot == app.snapshot && (r
            is Some && r->0 is EnsureRange),
        (app.pending_g && key.code == KeyCode::Char('g')) || (!app.pending_g && key.code
            == KeyCode::Char('t')) ==> may_be_today(post.active_date) && post.view == app.view
            && post.snapshot == app.snapshot,
        app.pending_g ==> !post.pending_g,
        !app.pending_g && key.code == KeyCode::Char('g') ==> post == (App {
            pending_g: true,
            ..app
        }),
{
}

/// A change of view keeps the active date, or goes to the first day of the selected event.
pub proof fn law_views_keep_the_date(app: App, view: View, post: App, r: Option<WorkerCommand>)
    requires
        app.after_change_view(view, post, r),
    ensures
        post.view == view,
        exists|index: Option<int>| #[trigger]
            app.may_select(index) && match index {
                Some(i) => app.snapshot.events@[i].may_begin_on(post.active_date),
                None => post.active_date == app.active_date && post.selected_event == usize::MAX,
            },
{
    let (context, mid) = choose|context: crate::app::SelectionContext, mid: App|
        app.is_selection_context(context) && #[trigger] (App {
            view,
            ..app
        }).selection_restored(context, mid) && (App {
            mode: Mode::Normal,
            modal_stack: post.modal_stack,
            ..mid
        }).range_asked(false, post, r) && post.modal_stack@.len() == 0;
    let index = choose|index: Option<int>| #[trigger]
        app.may_select(index) && match index {
            Some(i) => {
                let event = app.snapshot.events@[i];
                &&& opt_view(context.selected_event_id) == Some(event.id@)
                &&& context.selected_event_date matches Some(date) && event.may_begin_on(date)
            },
            None => context.selected_event_id is None && context.selected_event_date is None,
        };
    assert(app.may_select(index));
}

/// Each view shows its dates: the day view one from the active date on, the week view seven, the
/// agenda sixty; the month view forty-two, among which the active date is.
pub proof fn law_views_show_their_dates(view: View, active: Date, sunday_first: bool)
    requires
        MIN_DAY + 60 <= active.day <= MAX_DAY - 60,
        crate::time::month_first_day(active.day) <= active.day < crate::time::month_first_day(
            active.day,
        ) + 31,
    ensures
        ({
            let (first, end) = view_window(view, active, sunday_first);
            &&& first.day <= active.day < end.day
            &&& view == View::Day ==> first == active && end.day == active.day + 1
            &&& view == View::Week ==> first == active && end.day == active.day + 7
            &&& view == View::Agenda ==> first == active && end.day == active.day + 60
            &&& view == View::Month ==> end.day == first.day + 42 && first.day
                <= crate::time::month_first_day(active.day) <= first.day + 6 && first.weekday()
                == (if sunday_first {
                6int
            } else {
                0
            })
        }),
{
    if view == View::Month {
        let first = Date { day: crate::time::month_first_day(active.day) };
        assert(first.valid());
    }
}

/// An event is shown where its calendar is, and one of its instants or days is among those shown.
pub proof fn law_what_is_shown(
    event: Event,
    calendars: Seq<CalendarInfo>,
    dates: (Date, Date),
    start: Timestamp,
    end: Timestamp,
)
    requires
        start.nanos < end.nanos,
        dates.0.day < dates.1.day,
    ensures
        is_shown(event, calendars, dates, start, end) ==> exists|i: int|
            0 <= i < calendars.len() && (#[trigger] calendars[i]).enabled && calendars[i].id@
                == event.calendar_id@,
        (exists|i: int|
            0 <= i < calendars.len() && (#[trigger] calendars[i]).enabled && calendars[i].id@
                == event.calendar_id@) && event.date_range() is None && event.start.nanos
            < event.end.nanos ==> (is_shown(event, calendars, dates, start, end) <==> (exists|
            t: int,
        | #[trigger]
            instant_in(event.start, event.end, t) && instant_in(start, end, t))),
        (exists|i: int|
            0 <= i < calendars.len() && (#[trigger] calendars[i]).enabled && calendars[i].id@
                == event.calendar_id@) ==> (event.date_range() matches Some(own) ==> (is_shown(
            event,
            calendars,
            dates,
            start,
            end,
        ) <==> (exists|d: int| #[trigger]
            day_in(own.0, own.1, d) && day_in(dates.0, dates.1, d)))),
{
    if event.date_range() is None && event.start.nanos < event.end.nanos {
        let t = if event.start.nanos > start.nanos {
            event.start.nanos as int
        } else {
            start.nanos as int
        };
        if event.start.nanos < end.nanos && event.end.nanos > start.nanos {
            assert(instant_in(event.start, event.end, t) && instant_in(start, end, t));
        }
    }
    if event.date_range() is Some {
        let own = event.date_range()->0;
        let d = if own.0.day > dates.0.day {
            own.0.day as int
        } else {
            dates.0.day as int
        };
        if own.0.day < dates.1.day && own.1.day > dates.0.day {
            assert(day_in(own.0, own.1, d) && day_in(dates.0, dates.1, d));
        }
    }
}

/// Whether an instant is from one to before another.
pub open spec fn instant_in(start: Timestamp, end: Timestamp, t: int) -> bool {
    start.nanos <= t < end.nanos
}

/// Whether a day is from one to before another.
pub open spec fn day_in(start: Date, end: Date, d: int) -> bool {
    start.day <= d < end.day
}

/// Whether an update is of an event as it is, but for its time, for this occurrence alone, and
/// keeps its alarms.
pub open spec fn updates_time(
    r: Option<WorkerCommand>,
    event: Event,
    time: EventTimeInput,
    change: EventTimeMutation,
) -> bool {
    command_view(r) matches Some(WorkerCommandView::Update(draft, span, scope, alarms, changed))
        && {
        &&& draft.time == time && changed == change
        &&& span == EventSpan::ThisEvent && scope is None && alarms is None
        &&& draft.id == opt_view(event.provider_id) && draft.occurrence_id == Some(event.id@)
        &&& draft.occurrence_start == Some(event.start)
        &&& draft.occurrence_calendar_id == Some(event.calendar_id@)
        &&& draft.calendar_id == event.calendar_id@ && draft.title == event.title@
        &&& draft.location == event.location@ && draft.notes == event.notes@
        &&& draft.url == event.url@ && draft.time_zone == event.time_zone@
        &&& draft.availability == event.availability && draft.attendees.len() == 0
        &&& draft.alarms == event.alarms@ && draft.recurrence == rule_views(event.recurrence@)
    }
}

/// Whether a command makes a timed event that does not recur end later by minutes, or earlier.
pub open spec fn is_resized(event: Event, minutes: int, r: Option<WorkerCommand>) -> bool {
    let end = Timestamp { nanos: (event.end.nanos + minutes * 60_000_000_000) as i128 };
    &&& updates_time(
        r,
        event,
        EventTimeInput::Timed { start: event.start, end },
        EventTimeMutation::ReplaceLegacy,
    )
    &&& event.start.nanos < end.nanos && !event.has_recurrence && !event.all_day
}

/// Whether instants lie where arithmetic on them is exact.
pub open spec fn reachable(event: Event) -> bool {
    event.start.in_reach() && event.end.in_reach()
}

/// `J` makes the selected event end later by the configured step and `K` earlier; its start and all
/// else stay.
pub proof fn law_resize_keys(
    app: App,
    key: KeyEvent,
    parsed: QuickAddParseResult,
    post: App,
    r: Option<WorkerCommand>,
    shorter: bool,
)
    requires
        in_calendar(app, key),
        key.code == KeyCode::Char(if shorter {
            'K'
        } else {
            'J'
        }),
        app.after_key(key, parsed, post, r),
        forall|i: int| 0 <= i < app.snapshot.events@.len() ==> reachable(#[trigger] app.snapshot.events@[i]),
        distinct_ids(app),
    ensures
        r is Some ==> post == app && exists|i: int| #[trigger]
            app.may_select(Some(i)) && is_resized(
                app.snapshot.events@[i],
                if shorter {
                    -(app.config.event.move_step_minutes as int)
                } else {
                    app.config.event.move_step_minutes as int
                },
                r,
            ),
{
    let minutes = if shorter {
        -(app.config.event.move_step_minutes as int)
    } else {
        app.config.event.move_step_minutes as int
    };
    assert(app.after_resize(minutes, post, r)) by {
        lemma_calendar_key(app, key, parsed, post, r);
    }
    law_resizing_moves_the_end(app, minutes, post, r);
}

proof fn lemma_calendar_key(
    app: App,
    key: KeyEvent,
    parsed: QuickAddParseResult,
    post: App,
    r: Option<WorkerCommand>,
)
    requires
        in_calendar(app, key),
        app.after_key(key, parsed, post, r),
        key.code != KeyCode::Esc,
    ensures
        app.after_normal_command(crate::app::keys::bound(app.view, key), post, r),
{
}

/// Whether no two events have the same identity.
pub open spec fn distinct_ids(app: App) -> bool {
    forall|i: int, j: int|
        0 <= i < j < app.snapshot.events@.len() ==> (#[trigger] app.snapshot.events@[i]).id@ != (
        #[trigger] app.snapshot.events@[j]).id@
}

/// The event that is selected is one of the events.
pub proof fn lemma_selected(app: App, index: Option<int>)
    requires
        app.may_select(index),
        app.mode != Mode::Search,
    ensures
        index matches Some(i) ==> 0 <= i < app.snapshot.events@.len(),
{
    let (list, days) = choose|list: Seq<int>, days: Seq<crate::search::EventDays>|
        app.may_show(list) && crate::app::shown::days_fit(app.snapshot.events@, days) && index
            == #[trigger] app.selected_in(list, days);
    let (start, end) = choose|start: Timestamp, end: Timestamp|
        near_midnight(start, app.window().0) && near_midnight(end, app.window().1) && list
            == #[trigger] app.shown_between(start, end);
    crate::app::shown::law_shown_events_are_complete(app, start, end);
    if index is Some {
        crate::laws::calendar::lemma_in_list(app, list, days, index);
        assert(app.shown_between(start, end).contains(index->0));
    }
}

proof fn lemma_in_list(
    app: App,
    list: Seq<int>,
    days: Seq<crate::search::EventDays>,
    index: Option<int>,
)
    requires
        index == app.selected_in(list, days),
        index is Some,
    ensures
        list.contains(index->0),
{
}

/// The selected event that is made longer or shorter by minutes ends that much later or earlier.
pub proof fn law_resizing_moves_the_end(app: App, minutes: int, post: App, r: Option<WorkerCommand>)
    requires
        app.after_resize(minutes, post, r),
        app.mode != Mode::Search,
        -100_000 <= minutes <= 100_000,
        forall|i: int| 0 <= i < app.snapshot.events@.len() ==> reachable(#[trigger] app.snapshot.events@[i]),
        distinct_ids(app),
    ensures
        r is None ==> post == (App {
            status: post.status,
            interaction_context: post.interaction_context,
            pending_recurring_mutation: post.pending_recurring_mutation,
            mode: post.mode,
            modal_stack: post.modal_stack,
            ..app
        }),
        r is Some ==> post == app && exists|i: int| #[trigger]
            app.may_select(Some(i)) && is_resized(app.snapshot.events@[i], minutes, r),
{
    let selected = choose|selected: Option<int>| #[trigger]
        app.may_select(selected) && match selected {
            None => r is None && app.told("Select an event first"@, true, post),
            Some(i) => {
                let event = app.snapshot.events@[i];
                if event.has_recurrence || event.all_day {
                    r is None && app.told(
                        "Use the event editor for recurring or all-day events"@,
                        true,
                        post,
                    )
                } else {
                    exists|index: Option<int>| #[trigger]
                        app.may_act_on(event.id@, index) && match index {
                            None => r is None && app.told("Event no longer exists"@, true, post),
                            Some(k) => app.after_resize_of(
                                app.snapshot.events@[k],
                                event.start,
                                event.end,
                                minutes,
                                post,
                                r,
                            ),
                        }
                }
            },
        };
    lemma_selected(app, selected);
    if selected is Some {
        let event = app.snapshot.events@[selected->0];
        if !event.has_recurrence && !event.all_day {
            let index = choose|index: Option<int>| #[trigger]
                app.may_act_on(event.id@, index) && match index {
                    None => r is None && app.told("Event no longer exists"@, true, post),
                    Some(k) => app.after_resize_of(
                        app.snapshot.events@[k],
                        event.start,
                        event.end,
                        minutes,
                        post,
                        r,
                    ),
                };
            lemma_acted_on(app, event.id, index);
            if index is Some && r is Some {
                assert(index->0 == selected->0);
                assert(app.may_select(Some(selected->0)));
            }
        }
    }
}

/// An event in a calendar that can be written to, of which there is one, can be made longer: the
/// command is there. Made longer and then shorter by as much, it ends where it did.
pub proof fn law_resizing_back(
    app: App,
    event: Event,
    minutes: int,
    post: App,
    r: Option<WorkerCommand>,
    longer: Event,
    then: App,
    s: Option<WorkerCommand>,
)
    requires
        app.after_resize_of(event, event.start, event.end, minutes, post, r),
        app.writable(event.calendar_id@),
        !event.has_recurrence,
        !event.all_day,
        event.start.nanos < event.end.nanos,
        0 <= minutes <= 100_000,
        reachable(event),
        longer == (Event {
            end: Timestamp { nanos: (event.end.nanos + minutes * 60_000_000_000) as i128 },
            ..event
        }),
        app.after_resize_of(longer, longer.start, longer.end, -minutes, then, s),
    ensures
        updates_time(
            r,
            event,
            EventTimeInput::Timed { start: longer.start, end: longer.end },
            EventTimeMutation::ReplaceLegacy,
        ),
        updates_time(
            s,
            longer,
            EventTimeInput::Timed { start: event.start, end: event.end },
            EventTimeMutation::ReplaceLegacy,
        ),
{
}

/// Whether a key moves the selected event: by days with Alt and `h` or `l`, by the configured step
/// with Alt and `k` or `j`.
pub open spec fn moves_event(app: App, key: KeyEvent, days: int, minutes: int) -> bool {
    let step = app.config.event.move_step_minutes as int;
    key.modifiers.alt && ((key.code == KeyCode::Char('h') && days == -1 && minutes == 0) || (
    key.code == KeyCode::Char('l') && days == 1 && minutes == 0) || (key.code == KeyCode::Char('k')
        && days == 0 && minutes == -step) || (key.code == KeyCode::Char('j') && days == 0
        && minutes == step))
}

/// The keys that move the selected event move its start and its end by as much: a timed event by
/// days and minutes, an all-day event by days. All else stays.
pub proof fn law_move_keys(
    app: App,
    key: KeyEvent,
    parsed: QuickAddParseResult,
    post: App,
    r: Option<WorkerCommand>,
    days: int,
    minutes: int,
)
    requires
        in_calendar(app, key),
        moves_event(app, key, days, minutes),
        app.after_key(key, parsed, post, r),
        forall|i: int| 0 <= i < app.snapshot.events@.len() ==> reachable(#[trigger] app.snapshot.events@[i]),
        distinct_ids(app),
    ensures
        r is Some ==> post == app && exists|i: int| #[trigger]
            app.may_select(Some(i)) && is_moved(app.snapshot.events@[i], days, minutes, r),
{
    assert(app.after_move_selected(days, minutes, post, r));
    law_moving_shifts_both_ends(app, days, minutes, post, r);
}

/// Whether a command moves an event by days and minutes.
pub open spec fn is_moved(event: Event, days: int, minutes: int, r: Option<WorkerCommand>) -> bool {
    if event.all_day {
        event.date_range() matches Some(dates) && updates_time(
            r,
            event,
            EventTimeInput::LegacyAllDayUnknown { start: event.start, end: event.end },
            EventTimeMutation::ReplaceAllDay {
                start_date: Date { day: (dates.0.day + days) as i32 },
                end_date_exclusive: Date { day: (dates.1.day + days) as i32 },
            },
        )
    } else {
        let shift = days * 86_400_000_000_000 + minutes * 60_000_000_000;
        updates_time(
            r,
            event,
            EventTimeInput::Timed {
                start: Timestamp { nanos: (event.start.nanos + shift) as i128 },
                end: Timestamp { nanos: (event.end.nanos + shift) as i128 },
            },
            EventTimeMutation::ReplaceLegacy,
        )
    }
}

/// The selected event that is moved by days and minutes starts and ends that much later.
pub proof fn law_moving_shifts_both_ends(
    app: App,
    days: int,
    minutes: int,
    post: App,
    r: Option<WorkerCommand>,
)
    requires
        app.after_move_selected(days, minutes, post, r),
        app.mode != Mode::Search,
        -1_000_000 <= days <= 1_000_000,
        -100_000 <= minutes <= 100_000,
        forall|i: int| 0 <= i < app.snapshot.events@.len() ==> reachable(#[trigger] app.snapshot.events@[i]),
        distinct_ids(app),
    ensures
        r is Some ==> post == app && exists|i: int| #[trigger]
            app.may_select(Some(i)) && is_moved(app.snapshot.events@[i], days, minutes, r),
{
    if r is Some {
        let selected = choose|selected: Option<int>| #[trigger]
            app.may_select(selected) && match selected {
                None => r is None && app.told("Select an event first"@, true, post),
                Some(i) => {
                    let event = app.snapshot.events@[i];
                    match App::shifted_target(event, days, minutes) {
                        Err(text) => r is None && app.told(text, true, post),
                        Ok(target) => app.after_move_of(event.id@, target, post, r),
                    }
                },
            };
        lemma_selected(app, selected);
        let event = app.snapshot.events@[selected->0];
        let target = App::shifted_target(event, days, minutes)->Ok_0;
        let index = choose|index: Option<int>| #[trigger]
            app.may_act_on(event.id@, index) && match index {
                None => r is None && app.told("Event no longer exists"@, true, post),
                Some(i) => app.after_move(app.snapshot.events@[i], target, None, post, r),
            };
        lemma_acted_on(app, event.id, index);
        assert(index->0 == selected->0);
        assert(app.may_select(Some(selected->0)));
        assert(is_moved(event, days, minutes, r));
    }
}

/// What the other keys of the calendar open: the search, the palette, a new event, quick add, help.
/// `q` ends the application, the page keys scroll the timeline by two hours within the day, and `c`
/// shows or hides the sidebar.
pub proof fn law_opening_keys(
    app: App,
    key: KeyEvent,
    parsed: QuickAddParseResult,
    post: App,
    r: Option<WorkerCommand>,
)
    requires
        in_calendar(app, key),
        app.after_key(key, parsed, post, r),
    ensures
        key.code == KeyCode::Char('/') ==> post.mode == Mode::Search && post.search_query@.len()
            == 0,
        key.code == KeyCode::Char(':') ==> post.mode == Mode::Palette,
        key.code == KeyCode::Char('n') ==> post.mode == Mode::Form || post.mode == app.mode,
        key.code == KeyCode::Char('a') ==> post.mode == Mode::QuickAdd,
        key.code == KeyCode::Char('?') ==> post.mode == Mode::Help,
        key.code == KeyCode::Char('q') ==> post == (App { should_quit: true, ..app }),
        key.code == KeyCode::Char('r') ==> r == Some(WorkerCommand::Refresh),
        key.code == KeyCode::Char('R') ==> r is Some && r->0 is RefreshRange,
        key.code == KeyCode::Char('c') ==> post.sidebar_visible == !app.sidebar_visible,
        key.code == KeyCode::PageDown && app.timeline_start_minute <= 1_260
            ==> post.timeline_start_minute == app.timeline_start_minute + 120,
        key.code == KeyCode::PageUp && 120 <= app.timeline_start_minute <= 1_500
            ==> post.timeline_start_minute == app.timeline_start_minute - 120,
        post.snapshot == app.snapshot,
        !(key.code == KeyCode::Char('q')) ==> post.should_quit == app.should_quit,
{
}

} // verus!
