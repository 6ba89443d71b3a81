//! What is drawn of a day, what lies under the pointer, and where a move by the pointer leads.

use crate::app::pointer::{drag_target, may_begin_at, DragPreview};
use crate::app::{App, DragSession, DragState, EventMoveTarget, UserAction};
use crate::hit_test::{
    CalendarHitTarget, MonthHitGeometry, TimelineHitGeometry, CalendarDayColumn, CalendarMonthCell,
};
use crate::layout::{
    clock_item, may_be_item, may_show_part, may_start_at, TimelineItem, TimelineViewport,
};
use crate::model::Event;
use crate::seqs::lemma_first_from;
use crate::time::{
    answered, earliest, may_be_shown_at, showed, single, Date, Timestamp, WallTime, MAX_DAY,
    MIN_DAY,
};
use vstd::prelude::*;

verus! {

/// Whether an instant is the one at which the machine's clock shows a time of a date, or none where
/// its answer names not exactly one.
pub open spec fn is_the_instant(date: Date, second: int, r: Option<Timestamp>) -> bool {
    exists|seconds: Seq<i64>|
        #![trigger answered(WallTime { date, second: second as u32 }, seconds)]
        answered(WallTime { date, second: second as u32 }, seconds) && (r is Some <==> seconds.len()
            == 1) && (r matches Some(at) ==> at.nanos == seconds[0] * 1_000_000_000)
}

/// A slot of the timeline begins at the instant at which the machine's clock shows its date and its
/// minute.
pub proof fn law_slots_begin_on_their_minute(date: Date, minute: u16, start: Option<Timestamp>)
    requires
        may_begin_at(CalendarHitTarget::TimedSlot { date, minute }, start),
        date.valid(),
        minute < 1_440,
    ensures
        is_the_instant(date, minute * 60, start),
{
    let wall = WallTime { date, second: (minute * 60) as u32 };
    let seconds = choose|seconds: Seq<i64>| #[trigger]
        answered(wall, seconds) && may_be_shown_at(wall, seconds) && start == single(seconds);
    assert(answered(WallTime { date, second: (minute * 60) as u32 }, seconds));
}

/// A timed event that is tried over a slot is shown from where the slot begins on, for as long as
/// it lasts; one that is tried over anything else is not shown.
pub proof fn law_timed_previews(app: App, preview: DragPreview, date: Date, minute: u16)
    requires
        app.may_preview(Some(preview)),
        app.drag_session.current_target == Some(CalendarHitTarget::TimedSlot { date, minute }),
        date.valid(),
    ensures
        minute < 1_440,
        preview matches DragPreview::Timed {
            event_id,
            original_start,
            original_end,
            proposed_start,
            proposed_end,
            ..
        } && is_the_instant(date, minute * 60, Some(proposed_start)) && (original_start.in_reach()
            && original_end.in_reach() && proposed_start.in_reach() ==> proposed_end.nanos
            - proposed_start.nanos == original_end.nanos - original_start.nanos),
{
    let id = app.drag_session.event_id->0;
    let current = CalendarHitTarget::TimedSlot { date, minute };
    let (index, start) = choose|index: Option<int>, start: Option<Timestamp>|
        #![trigger app.may_act_on(id@, index), may_begin_at(current, start)]
        app.may_act_on(id@, index) && may_begin_at(current, start) && app.previews(
            current,
            index,
            start,
            Some(preview),
        );
    law_slots_begin_on_their_minute(date, minute, start);
}

/// A timed event that is let go over a slot goes to where the slot begins, and lasts as long as it
/// did. Where it goes nowhere, the user is told why, and nothing else changes.
pub proof fn law_timed_drops(
    app: App,
    id: String,
    date: Date,
    minute: u16,
    post: App,
    r: Option<UserAction>,
)
    requires
        app.after_drop(post, r),
        app.drag_session.event_id == Some(id),
        app.drag_session.current_target == Some(CalendarHitTarget::TimedSlot { date, minute }),
        date.valid(),
    ensures
        r matches Some(action) ==> minute < 1_440 && (action matches UserAction::MoveEvent {
            event_id,
            target: EventMoveTarget::Timed { start, end },
        } && event_id == id && is_the_instant(date, minute * 60, Some(start)) && exists|i: int|
            #![trigger app.snapshot.events@[i]]
            0 <= i < app.snapshot.events@.len() && app.snapshot.events@[i].id@ == id@ && (
            app.snapshot.events@[i].start.in_reach() && app.snapshot.events@[i].end.in_reach()
                && start.in_reach() ==> end.nanos - start.nanos == app.snapshot.events@[i].end.nanos
                - app.snapshot.events@[i].start.nanos)),
        r is None ==> post == (App { status: post.status, ..app }),
        r is Some ==> post == (App {
            drag_session: DragSession { state: DragState::Dropped, ..app.drag_session },
            ..app
        }),
{
    let current = CalendarHitTarget::TimedSlot { date, minute };
    let (index, start) = choose|index: Option<int>, start: Option<Timestamp>|
        #![trigger app.may_act_on(id@, index), may_begin_at(current, start)]
        app.may_act_on(id@, index) && may_begin_at(current, start) && app.drops(
            id,
            current,
            index,
            start,
            post,
            r,
        );
    crate::app::pointer::lemma_acted_on(app, id, index);
    if r is Some {
        law_slots_begin_on_their_minute(date, minute, start);
        assert(app.snapshot.events@[index->0].id@ == id@);
    }
}

/// An all-day event that is let go over a date goes there, with as many days as it had.
pub proof fn law_all_day_drops(
    event: Event,
    target: CalendarHitTarget,
    date: Date,
    start: Option<Timestamp>,
)
    requires
        event.all_day,
        target == (CalendarHitTarget::AllDayRow { date }) || target == (
        CalendarHitTarget::EmptyCalendarCell { date }),
    ensures
        drag_target(event, target, start) matches Ok(goal) ==> (goal matches EventMoveTarget::AllDay {
            start_date,
            end_date_exclusive,
        } && start_date == date && (event.date_range() matches Some(dates)
            && end_date_exclusive.day - date.day == dates.1.day - dates.0.day)),
        event.date_range() matches Some(dates) ==> (drag_target(event, target, start) is Ok <==> MIN_DAY
            <= date.day + dates.1.day - dates.0.day <= MAX_DAY),
{
}

/// An all-day event is not let go over a minute, nor a timed one over a day without minutes.
pub proof fn law_drops_keep_the_kind(
    event: Event,
    target: CalendarHitTarget,
    start: Option<Timestamp>,
)
    ensures
        drag_target(event, target, start) matches Ok(goal) ==> (goal is AllDay <==> event.all_day),
        event.all_day && target is TimedSlot ==> drag_target(event, target, start) is Err,
        !event.all_day && !(target is TimedSlot) ==> drag_target(event, target, start) is Err,
        target is ExistingEvent || target is OutsideCalendar ==> drag_target(event, target, start)
            is Err,
{
}

/// What a timed event has on a day of the machine's calendar. By its answers for the two midnights
/// and for what it shows at the event's bounds: the event has a part on the day where it meets it
/// for at least a shown minute, from the minute at which it starts, or the first, to that at which
/// it ends, or the end of the day.
pub proof fn law_events_are_drawn_where_they_are(
    event_index: usize,
    start: Timestamp,
    end: Timestamp,
    day: Date,
    r: Option<TimelineItem>,
)
    requires
        may_be_item(event_index, start, end, false, day, r),
        MIN_DAY <= day.day < MAX_DAY,
    ensures
        exists|a: Seq<i64>, b: Seq<i64>, first: WallTime, last: WallTime|
            #![trigger answered(WallTime { date: day, second: 0 }, a), answered(
                WallTime { date: Date { day: (day.day + 1) as i32 }, second: 0 },
                b,
            ), first.minute_of_day(), last.minute_of_day()]
            is_drawn(event_index, start, end, day, a, b, first, last, r),
{
    let (day_start, day_end, shown_first, shown_last) = choose|
        day_start: Option<Timestamp>,
        day_end: Option<Timestamp>,
        shown_first: WallTime,
        shown_last: WallTime,
    |
        may_start_at(day.clamped(), day_start) && may_start_at(day.clamped_shift(1), day_end)
            && may_show_part(start, end, day_start, day_end, shown_first, shown_last) && r
            == #[trigger] clock_item(
            event_index,
            start,
            end,
            false,
            day_start,
            day_end,
            shown_first,
            shown_last,
        );
    let today = WallTime { date: day, second: 0 };
    let tomorrow = WallTime { date: Date { day: (day.day + 1) as i32 }, second: 0 };
    let a = choose|seconds: Seq<i64>| #[trigger]
        answered(today, seconds) && may_be_shown_at(today, seconds) && day_start == earliest(
            seconds,
        );
    let b = choose|seconds: Seq<i64>| #[trigger]
        answered(tomorrow, seconds) && may_be_shown_at(tomorrow, seconds) && day_end == earliest(
            seconds,
        );
    assert(answered(WallTime { date: day, second: 0 }, a));
    assert(answered(WallTime { date: Date { day: (day.day + 1) as i32 }, second: 0 }, b));
    let x = shown_first.minute_of_day();
    let y = shown_last.minute_of_day();
    assert(is_drawn(event_index, start, end, day, a, b, shown_first, shown_last, r));
}

/// Whether what an event has on a day is what the clock's answers say: that the day begins at the
/// first of `a` and the next at the first of `b`, and that at the bounds of the event's part the
/// clock shows `first` and `last`.
pub open spec fn is_drawn(
    event_index: usize,
    start: Timestamp,
    end: Timestamp,
    day: Date,
    a: Seq<i64>,
    b: Seq<i64>,
    first: WallTime,
    last: WallTime,
    r: Option<TimelineItem>,
) -> bool {
    &&& answered(WallTime { date: day, second: 0 }, a)
    &&& answered(WallTime { date: Date { day: (day.day + 1) as i32 }, second: 0 }, b)
    &&& a.len() == 0 || b.len() == 0 ==> r is None
    &&& a.len() > 0 && b.len() > 0 ==> {
        let dawn = a[0] * 1_000_000_000;
        let dusk = b[0] * 1_000_000_000;
        let from = if start.nanos <= dawn {
            0
        } else {
            first.second as int / 60
        };
        let to = if end.nanos >= dusk {
            1_440
        } else {
            last.second as int / 60
        };
        &&& showed(
            if start.nanos < dawn {
                Timestamp { nanos: dawn as i128 }
            } else {
                start
            },
            first,
        )
        &&& showed(
            if end.nanos > dusk {
                Timestamp { nanos: dusk as i128 }
            } else {
                end
            },
            last,
        )
        &&& r is Some <==> start.nanos < end.nanos && end.nanos > dawn && start.nanos < dusk && from
            < to
        &&& r matches Some(item) ==> item == (TimelineItem {
            event_index,
            start_minute: from as u16,
            end_minute: to as u16,
        })
    }
}

/// An all-day event has no part on the timeline.
pub proof fn law_all_day_events_are_not_timed(
    event_index: usize,
    start: Timestamp,
    end: Timestamp,
    day: Date,
    r: Option<TimelineItem>,
)
    requires
        may_be_item(event_index, start, end, true, day, r),
    ensures
        r is None,
{
}

/// The shown part of the day ends after its rows, or with the day.
pub proof fn law_viewports_end_after_their_rows(viewport: TimelineViewport)
    ensures
        viewport.start_minute + viewport.minutes_per_row * viewport.rows <= 1_440 ==> viewport.end()
            == viewport.start_minute + viewport.minutes_per_row * viewport.rows,
        viewport.start_minute + viewport.minutes_per_row * viewport.rows > 1_440 ==> viewport.end()
            == 1_440,
{
    assert(viewport.minutes_per_row * viewport.rows >= 0) by (nonlinear_arith)
        requires
            viewport.minutes_per_row >= 0,
            viewport.rows >= 0,
    ;
}

/// The slot under the pointer is of the date whose column is there, and of the minute of its row:
/// each row down is a row's minutes later.
pub proof fn law_slots_are_of_their_row(
    geometry: TimelineHitGeometry,
    x: u16,
    y: u16,
    r: CalendarHitTarget,
)
    requires
        geometry.target(x, y, r),
        r is TimedSlot,
    ensures
        geometry.timed_area.y <= y,
        r->TimedSlot_minute == geometry.viewport.start_minute + (y - geometry.timed_area.y)
            * geometry.viewport.minutes_per_row,
        y - geometry.timed_area.y < geometry.viewport.rows,
        exists|i: int|
            0 <= i < geometry.day_columns@.len() && (#[trigger] geometry.day_columns@[i]).date
                == r->TimedSlot_date && in_rect(
                geometry.day_columns@[i].rect.x,
                geometry.day_columns@[i].rect.width,
                x,
            ),
{
    let hit = |column: CalendarDayColumn| column.rect.holds(x, y);
    lemma_first_from(geometry.day_columns@, hit, 0);
    let i = geometry.column_under(x, y)->0;
    assert(geometry.day_columns@[i].rect.holds(x, y));
    let row = y - geometry.timed_area.y;
    assert(row * geometry.viewport.minutes_per_row >= 0) by (nonlinear_arith)
        requires
            row >= 0,
            geometry.viewport.minutes_per_row >= 0,
    ;
}

/// Whether a position is among the `size` from `from` on.
pub open spec fn in_rect(from: u16, size: u16, at: u16) -> bool {
    from <= at < from + size
}

/// In the lane of all-day events the pointer is on the date of the column.
pub proof fn law_lanes_are_of_their_date(
    geometry: TimelineHitGeometry,
    x: u16,
    y: u16,
    r: CalendarHitTarget,
)
    requires
        geometry.target(x, y, r),
        r is AllDayRow,
    ensures
        geometry.all_day_area matches Some(area) && in_rect(area.x, area.width, x) && in_rect(
            area.y,
            area.height,
            y,
        ),
        exists|i: int|
            0 <= i < geometry.day_columns@.len() && (#[trigger] geometry.day_columns@[i]).date
                == r->AllDayRow_date && in_rect(
                geometry.day_columns@[i].rect.x,
                geometry.day_columns@[i].rect.width,
                x,
            ),
{
    let hit = |column: CalendarDayColumn| column.rect.holds(x, y);
    lemma_first_from(geometry.day_columns@, hit, 0);
    let i = geometry.column_under(x, y)->0;
    assert(geometry.day_columns@[i].rect.holds(x, y));
}

/// In a month the pointer is on the date of the cell that it is over.
pub proof fn law_cells_are_of_their_date(
    geometry: MonthHitGeometry,
    x: u16,
    y: u16,
    r: CalendarHitTarget,
)
    requires
        geometry.target(x, y, r),
        r is EmptyCalendarCell,
    ensures
        exists|i: int|
            0 <= i < geometry.cells@.len() && (#[trigger] geometry.cells@[i]).date
                == r->EmptyCalendarCell_date && in_rect(
                geometry.cells@[i].rect.x,
                geometry.cells@[i].rect.width,
                x,
            ) && in_rect(geometry.cells@[i].rect.y, geometry.cells@[i].rect.height, y),
{
    let hit = |cell: CalendarMonthCell| cell.rect.holds(x, y);
    lemma_first_from(geometry.cells@, hit, 0);
    let i = geometry.cell_under(x, y)->0;
    assert(geometry.cells@[i].rect.holds(x, y));
}

} // verus!
