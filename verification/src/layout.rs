//! The geometry of the day and week timelines: which rows an event takes, and which column.

use crate::sorting::{
    indices, key_less, key_views, law_order_is_complete, law_order_is_sorted,
    law_order_keeps_the_items, lemma_all_chosen, lemma_same_choice, order_chosen, ordered,
};
use crate::time::{
    local_midnight, local_wall_time, read_first, shows_near, Date, Timestamp, WallTime, EPOCH_DAY,
};
use vstd::prelude::*;
use vstd::relations::{sorted_by, total_ordering};
use vstd::seq_lib::lemma_sorted_unique;

verus! {

/// The minutes of a day.
pub const MINUTES_PER_DAY: u16 = 1_440;

/// A timed event on one day, by the minutes of the day.
#[derive(Clone, Copy, Debug, PartialEq, Eq, Structural)]
pub struct TimelineItem {
    pub event_index: usize,
    pub start_minute: u16,
    pub end_minute: u16,
}

/// A timed event with its column, and the number of columns that it shares the width with.
#[derive(Clone, Copy, Debug, PartialEq, Eq, Structural)]
pub struct PositionedItem {
    pub event_index: usize,
    pub start_minute: u16,
    pub end_minute: u16,
    pub column: u16,
    pub columns: u16,
}

/// The part of the day that is shown, in rows.
#[derive(Clone, Copy, Debug, PartialEq, Eq, Structural)]
pub struct TimelineViewport {
    pub start_minute: u16,
    pub minutes_per_row: u16,
    pub rows: u16,
}

/// A number, or the largest that a `u16` can hold.
pub open spec fn capped(n: int) -> int {
    if n > u16::MAX {
        u16::MAX as int
    } else {
        n
    }
}

impl TimelineViewport {
    /// The minute at which the shown part ends, at most the end of the day.
    pub open spec fn end(self) -> int {
        let end = capped(self.start_minute + capped(self.minutes_per_row * self.rows));
        if end > MINUTES_PER_DAY {
            MINUTES_PER_DAY as int
        } else {
            end
        }
    }

    /// The minute at which the shown part ends, at most the end of the day.
    pub fn end_minute(self) -> (r: u16)
        ensures
            r == self.end(),
    {
        proof {
            assert(self.minutes_per_row * self.rows <= 65_535 * 65_535) by (nonlinear_arith)
                requires
                    self.minutes_per_row <= 65_535,
                    self.rows <= 65_535,
            ;
            assert(self.minutes_per_row * self.rows >= 0) by (nonlinear_arith)
                requires
                    self.minutes_per_row >= 0,
                    self.rows >= 0,
            ;
        }
        let height: u32 = self.minutes_per_row as u32 * self.rows as u32;
        let height: u32 = if height > 65_535 {
            65_535
        } else {
            height
        };
        let end: u32 = self.start_minute as u32 + height;
        if end > 1_440 {
            MINUTES_PER_DAY
        } else {
            end as u16
        }
    }

    /// The row that shows a minute.
    pub open spec fn row(self, minute: int) -> Option<int> {
        if self.start_minute <= minute < self.end() {
            Some((minute - self.start_minute) / self.minutes_per_row as int)
        } else {
            None
        }
    }

    /// The row that shows a minute.
    pub fn row_for(self, minute: u16) -> (r: Option<u16>)
        ensures
            r matches Some(row) ==> self.row(minute as int) == Some(row as int),
            r is None ==> self.row(minute as int) is None,
    {
        if minute < self.start_minute || minute >= self.end_minute() {
            return None;
        }
        proof {
            lemma_rows_have_minutes(self);
        }
        Some((minute - self.start_minute) / self.minutes_per_row)
    }

    /// The first row of the part of a range that is shown, and the number of rows that it takes.
    pub open spec fn shown_rows(self, start: int, end: int) -> Option<(int, int)> {
        let first = if start > self.start_minute {
            start
        } else {
            self.start_minute as int
        };
        let last = if end < self.end() {
            end
        } else {
            self.end()
        };
        if last <= first {
            None
        } else {
            let row = (first - self.start_minute) / self.minutes_per_row as int;
            let last_row = (last - 1 - self.start_minute) / self.minutes_per_row as int;
            Some((row, last_row - row + 1))
        }
    }

    /// The first row of the part of a range that is shown, and the number of rows that it takes.
    pub fn rows_for_range(self, start: u16, end: u16) -> (r: Option<(u16, u16)>)
        ensures
            match r {
                Some(rows) => self.shown_rows(start as int, end as int) == Some(
                    (rows.0 as int, rows.1 as int),
                ),
                None => self.shown_rows(start as int, end as int) is None,
            },
    {
        let visible_start: u16 = if start > self.start_minute {
            start
        } else {
            self.start_minute
        };
        let end_minute: u16 = self.end_minute();
        let visible_end: u16 = if end < end_minute {
            end
        } else {
            end_minute
        };
        if visible_end <= visible_start {
            return None;
        }
        proof {
            lemma_rows_have_minutes(self);
        }
        let row: u16 = (visible_start - self.start_minute) / self.minutes_per_row;
        let last_row: u16 = (visible_end - 1 - self.start_minute) / self.minutes_per_row;
        proof {
            let a = visible_start - self.start_minute;
            let b = visible_end - 1 - self.start_minute;
            vstd::arithmetic::div_mod::lemma_div_is_ordered(a, b, self.minutes_per_row as int);
            assert(b < 1_440);
            vstd::arithmetic::div_mod::lemma_div_is_ordered_by_denominator(
                b,
                1,
                self.minutes_per_row as int,
            );
            assert(b / 1 == b);
        }
        Some((row, last_row - row + 1))
    }
}

/// Where rows show no minutes, nothing is shown; else the shown part is no longer than its rows.
proof fn lemma_rows_have_minutes(viewport: TimelineViewport)
    ensures
        viewport.end() > viewport.start_minute ==> viewport.minutes_per_row > 0,
        viewport.end() - viewport.start_minute <= viewport.minutes_per_row * viewport.rows,
{
    let m = viewport.minutes_per_row as int;
    let rows = viewport.rows as int;
    assert(m * rows >= 0) by (nonlinear_arith)
        requires
            m >= 0,
            rows >= 0,
    ;
    if m == 0 {
        assert(m * rows == 0) by (nonlinear_arith)
            requires
                m == 0,
        ;
    }
}

/// A row is one of those shown, and shows a minute that is among its own.
pub proof fn law_rows_show_their_minutes(viewport: TimelineViewport, minute: int)
    ensures
        viewport.row(minute) is Some <==> viewport.start_minute <= minute < viewport.end(),
        viewport.row(minute) matches Some(k) ==> {
            &&& 0 <= k < viewport.rows
            &&& viewport.start_minute + k * viewport.minutes_per_row <= minute
            &&& minute < viewport.start_minute + (k + 1) * viewport.minutes_per_row
        },
{
    lemma_rows_have_minutes(viewport);
    if let Some(k) = viewport.row(minute) {
        let m = viewport.minutes_per_row as int;
        let rows = viewport.rows as int;
        let x = minute - viewport.start_minute;
        vstd::arithmetic::div_mod::lemma_fundamental_div_mod(x, m);
        vstd::arithmetic::div_mod::lemma_mod_bound(x, m);
        assert(k * m <= x < (k + 1) * m) by (nonlinear_arith)
            requires
                x == m * k + x % m,
                0 <= x % m < m,
        ;
        assert(0 <= k < rows) by (nonlinear_arith)
            requires
                k * m <= x < (k + 1) * m,
                0 <= x < m * rows,
                m > 0,
        ;
    }
}

/// A range takes exactly the rows of its minutes: none where none of them is shown, else rows that
/// follow one another, each of which shows one of the range's minutes, and all that do.
pub proof fn law_ranges_take_the_rows_of_their_minutes(
    viewport: TimelineViewport,
    start: int,
    end: int,
)
    ensures
        viewport.shown_rows(start, end) is None <==> forall|minute: int|
            start <= minute < end ==> (#[trigger] viewport.row(minute)) is None,
        viewport.shown_rows(start, end) matches Some(taken) ==> {
            &&& taken.0 >= 0 && taken.1 >= 1 && taken.0 + taken.1 <= viewport.rows
            &&& forall|k: int|
                taken.0 <= k < taken.0 + taken.1 <==> #[trigger] viewport.shows_one_of(
                    k,
                    start,
                    end,
                )
        },
{
    lemma_rows_have_minutes(viewport);
    let m = viewport.minutes_per_row as int;
    let from = viewport.start_minute as int;
    let first = if start > from {
        start
    } else {
        from
    };
    let last = if end < viewport.end() {
        end
    } else {
        viewport.end()
    };
    if first < last {
        assert(viewport.row(first) is Some);
        assert(start <= first < end);
        let row = (first - from) / m;
        let last_row = (last - 1 - from) / m;
        law_rows_show_their_minutes(viewport, first);
        law_rows_show_their_minutes(viewport, last - 1);
        vstd::arithmetic::div_mod::lemma_div_is_ordered(first - from, last - 1 - from, m);
        assert forall|k: int| row <= k < row + (last_row - row + 1) <==> #[trigger]
            viewport.shows_one_of(k, start, end) by {
            if row <= k <= last_row {
                let minute = if k == row {
                    first
                } else {
                    from + k * m
                };
                if k > row {
                    assert(k * m / m == k) by {
                        vstd::arithmetic::div_mod::lemma_div_multiples_vanish(k, m);
                        assert(k * m == m * k) by (nonlinear_arith);
                    }
                    assert(k * m >= (row + 1) * m && k * m <= last_row * m) by (nonlinear_arith)
                        requires
                            row + 1 <= k <= last_row,
                            m > 0,
                    ;
                    assert(minute > first - 1 && minute <= last - 1);
                }
                assert(viewport.row(minute) == Some(k));
            }
            if viewport.shows_one_of(k, start, end) {
                let minute = choose|minute: int|
                    start <= minute < end && #[trigger] viewport.row(minute) == Some(k);
                vstd::arithmetic::div_mod::lemma_div_is_ordered(first - from, minute - from, m);
                vstd::arithmetic::div_mod::lemma_div_is_ordered(minute - from, last - 1 - from, m);
            }
        }
    } else {
        assert forall|minute: int| start <= minute < end implies (#[trigger] viewport.row(minute))
            is None by {}
    }
}

impl TimelineViewport {
    /// Whether a row shows one of the minutes of a range.
    pub open spec fn shows_one_of(self, k: int, start: int, end: int) -> bool {
        exists|minute: int| start <= minute < end && #[trigger] self.row(minute) == Some(k)
    }
}

/// The item of a timed event on a day that starts and ends at `day_start` and `day_end`, where the
/// event's clipped times fall on minutes of the day as given. An event that does not take place on
/// the day, or for less than a minute of it, has none.
pub open spec fn day_item(
    event_index: usize,
    start: Timestamp,
    end: Timestamp,
    day_start: Timestamp,
    day_end: Timestamp,
    start_minute: int,
    end_minute: int,
) -> Option<TimelineItem> {
    let first = if start.nanos <= day_start.nanos {
        0
    } else {
        start_minute
    };
    let last = if end.nanos >= day_end.nanos {
        MINUTES_PER_DAY as int
    } else {
        end_minute
    };
    if end.nanos <= start.nanos || end.nanos <= day_start.nanos || start.nanos >= day_end.nanos
        || last <= first {
        None
    } else {
        Some(TimelineItem { event_index, start_minute: first as u16, end_minute: last as u16 })
    }
}

/// The item of a timed event on a day, from the day's bounds and the event's minutes.
pub fn item_between(
    event_index: usize,
    start: Timestamp,
    end: Timestamp,
    day_start: Timestamp,
    day_end: Timestamp,
    start_minute: u16,
    end_minute: u16,
) -> (r: Option<TimelineItem>)
    ensures
        r == day_item(
            event_index,
            start,
            end,
            day_start,
            day_end,
            start_minute as int,
            end_minute as int,
        ),
{
    if end.nanos <= start.nanos || end.nanos <= day_start.nanos || start.nanos >= day_end.nanos {
        return None;
    }
    let first: u16 = if start.nanos <= day_start.nanos {
        0
    } else {
        start_minute
    };
    let last: u16 = if end.nanos >= day_end.nanos {
        MINUTES_PER_DAY
    } else {
        end_minute
    };
    if last > first {
        Some(TimelineItem { event_index, start_minute: first, end_minute: last })
    } else {
        None
    }
}

/// Whether a day starts at an instant, or at none, by the answer of the machine's clock: a midnight
/// is less than a day away from that of the date in UTC, and a clock that is set forward at midnight
/// does not show it.
pub open spec fn may_start_at(date: Date, midnight: Option<Timestamp>) -> bool {
    &&& read_first(WallTime { date, second: 0 }, midnight)
    &&& midnight matches Some(at) ==> (date.day - EPOCH_DAY - 1) * 86_400_000_000_000 < at.nanos < (
    date.day - EPOCH_DAY + 1) * 86_400_000_000_000
}

/// The part of an event on a day: from the later of the starts to the earlier of the ends.
pub open spec fn clipped_part(
    start: Timestamp,
    end: Timestamp,
    day_start: Timestamp,
    day_end: Timestamp,
) -> (Timestamp, Timestamp) {
    (
        if start.nanos < day_start.nanos {
            day_start
        } else {
            start
        },
        if end.nanos > day_end.nanos {
            day_end
        } else {
            end
        },
    )
}

/// The part of an event on a day: from the later of the starts to the earlier of the ends.
pub fn clipped(start: Timestamp, end: Timestamp, day_start: Timestamp, day_end: Timestamp) -> (r: (
    Timestamp,
    Timestamp,
))
    ensures
        r == clipped_part(start, end, day_start, day_end),
{
    let first = if start.nanos < day_start.nanos {
        day_start
    } else {
        start
    };
    let last = if end.nanos > day_end.nanos {
        day_end
    } else {
        end
    };
    (first, last)
}

/// The item of an event on a day, for what a clock says: where the day and the next one start, and
/// what it shows at the start and at the end of the event's part. All-day events have none, and
/// neither has any event on a day whose bounds are not both known.
pub open spec fn clock_item(
    event_index: usize,
    start: Timestamp,
    end: Timestamp,
    all_day: bool,
    day_start: Option<Timestamp>,
    day_end: Option<Timestamp>,
    shown_first: WallTime,
    shown_last: WallTime,
) -> Option<TimelineItem> {
    match (day_start, day_end) {
        (Some(day_start), Some(day_end)) => if all_day {
            None
        } else {
            day_item(
                event_index,
                start,
                end,
                day_start,
                day_end,
                shown_first.minute_of_day(),
                shown_last.minute_of_day(),
            )
        },
        _ => None,
    }
}

/// Whether a clock may show wall times at the start and at the end of an event's part of a day.
pub open spec fn may_show_part(
    start: Timestamp,
    end: Timestamp,
    day_start: Option<Timestamp>,
    day_end: Option<Timestamp>,
    shown_first: WallTime,
    shown_last: WallTime,
) -> bool {
    match (day_start, day_end) {
        (Some(day_start), Some(day_end)) => {
            let part = clipped_part(start, end, day_start, day_end);
            shows_near(part.0, shown_first) && shows_near(part.1, shown_last)
        },
        _ => true,
    }
}

/// Whether an event may have an item on a day, or none, for what a clock may say of the day and of
/// the event's part of it.
pub open spec fn may_be_item(
    event_index: usize,
    start: Timestamp,
    end: Timestamp,
    all_day: bool,
    day: Date,
    r: Option<TimelineItem>,
) -> bool {
    exists|
        day_start: Option<Timestamp>,
        day_end: Option<Timestamp>,
        shown_first: WallTime,
        shown_last: WallTime,
    |
        may_start_at(day.clamped(), day_start) && may_start_at(day.clamped_shift(1), day_end)
            && may_show_part(start, end, day_start, day_end, shown_first, shown_last) && r
            == #[trigger] clock_item(
            event_index,
            start,
            end,
            all_day,
            day_start,
            day_end,
            shown_first,
            shown_last,
        )
}

/// The item of an event on a day, for what a clock says of the day and of the event's part of it.
pub fn item_shown(
    event_index: usize,
    start: Timestamp,
    end: Timestamp,
    all_day: bool,
    day_start: Option<Timestamp>,
    day_end: Option<Timestamp>,
    shown_first: WallTime,
    shown_last: WallTime,
) -> (r: Option<TimelineItem>)
    requires
        shown_first.valid(),
        shown_last.valid(),
    ensures
        r == clock_item(
            event_index,
            start,
            end,
            all_day,
            day_start,
            day_end,
            shown_first,
            shown_last,
        ),
{
    if all_day {
        return None;
    }
    match (day_start, day_end) {
        (Some(day_start), Some(day_end)) => item_between(
            event_index,
            start,
            end,
            day_start,
            day_end,
            shown_first.minute() as u16,
            shown_last.minute() as u16,
        ),
        _ => None,
    }
}

/// The item of a timed event on a day of the machine's calendar. All-day events have none, and
/// neither has any event on a day without a midnight. Whether there are midnights, which instants
/// they are, and what is shown at an instant, the machine's clock decides: where the event stays
/// clear of all that the midnights can be, it has no item.
pub fn item_for_day(
    event_index: usize,
    start: Timestamp,
    end: Timestamp,
    all_day: bool,
    day: Date,
) -> (r: Option<TimelineItem>)
    ensures
        all_day || end.nanos <= start.nanos ==> r is None,
        may_be_item(event_index, start, end, all_day, day, r),
        end.nanos <= (day.clamped().day - EPOCH_DAY - 1) * 86_400_000_000_000 ==> r is None,
        start.nanos >= (day.clamped_shift(1).day - EPOCH_DAY + 1) * 86_400_000_000_000 ==> r
            is None,
        r matches Some(item) ==> item.event_index == event_index && item.start_minute
            < item.end_minute <= MINUTES_PER_DAY,
{
    let day_start = local_midnight(day.nearest());
    let day_end = local_midnight(day.saturating_plus(1));
    let (first, last) = match (day_start, day_end) {
        (Some(day_start), Some(day_end)) => clipped(start, end, day_start, day_end),
        _ => (start, end),
    };
    let shown_first = local_wall_time(first);
    let shown_last = local_wall_time(last);
    let r = item_shown(
        event_index,
        start,
        end,
        all_day,
        day_start,
        day_end,
        shown_first,
        shown_last,
    );
    proof {
        assert(may_start_at(day.clamped(), day_start));
        assert(may_start_at(day.clamped_shift(1), day_end));
        assert(may_show_part(start, end, day_start, day_end, shown_first, shown_last));
        assert(r == clock_item(
            event_index,
            start,
            end,
            all_day,
            day_start,
            day_end,
            shown_first,
            shown_last,
        ));
    }
    r
}

/// What an item of an event on a day says, for what a clock says: it starts with the day, or on the
/// minute that is shown at the event's start, and it ends with the day, or on the minute that is
/// shown at the event's end. An event that meets the day has an item unless these minutes leave
/// nothing between them.
pub proof fn law_items_are_what_the_clock_shows(
    event_index: usize,
    start: Timestamp,
    end: Timestamp,
    day_start: Timestamp,
    day_end: Timestamp,
    shown_first: WallTime,
    shown_last: WallTime,
)
    requires
        shown_first.valid(),
        shown_last.valid(),
    ensures
        ({
            let r = clock_item(
                event_index,
                start,
                end,
                false,
                Some(day_start),
                Some(day_end),
                shown_first,
                shown_last,
            );
            let first = if start.nanos <= day_start.nanos {
                0
            } else {
                shown_first.minute_of_day()
            };
            let last = if end.nanos >= day_end.nanos {
                1_440
            } else {
                shown_last.minute_of_day()
            };
            let meets = start.nanos < end.nanos && end.nanos > day_start.nanos && start.nanos
                < day_end.nanos;
            &&& r is Some <==> meets && first < last
            &&& r matches Some(item) ==> item.event_index == event_index && item.start_minute
                == first && item.end_minute == last
        }),
{
}

/// The key by which items are put in order: start, end, and index of the event.
pub open spec fn item_keys(items: Seq<TimelineItem>) -> Seq<Seq<i128>> {
    items.map_values(
        |item: TimelineItem|
            seq![item.start_minute as i128, item.end_minute as i128, item.event_index as i128],
    )
}

/// The items in the order of start, end, and index of the event.
pub open spec fn in_order(items: Seq<TimelineItem>) -> Seq<TimelineItem> {
    ordered(item_keys(items), |i: int| true, items.len() as int).map_values(|i: int| items[i])
}

/// The index at which a group of items that hang together ends: the first item from `from` on that
/// starts no earlier than all before it have ended.
pub open spec fn group_end(s: Seq<TimelineItem>, from: int, furthest: int) -> int
    decreases s.len() - from,
{
    if from < s.len() && s[from].start_minute < furthest {
        group_end(
            s,
            from + 1,
            if s[from].end_minute > furthest {
                s[from].end_minute as int
            } else {
                furthest
            },
        )
    } else {
        from
    }
}

/// The first column whose last item has ended at `start`, or a new one.
pub open spec fn free_column(ends: Seq<u16>, start: u16, from: int) -> int
    decreases ends.len() - from,
{
    if from < ends.len() && ends[from] > start {
        free_column(ends, start, from + 1)
    } else {
        from
    }
}

/// The column of each item of a group, and the end of the last item of each column. Each item takes
/// the first free column.
pub open spec fn placed(s: Seq<TimelineItem>) -> (Seq<int>, Seq<u16>)
    decreases s.len(),
{
    if s.len() == 0 {
        (Seq::empty(), Seq::empty())
    } else {
        let (columns, ends) = placed(s.drop_last());
        let column = free_column(ends, s.last().start_minute, 0);
        (
            columns.push(column),
            if column < ends.len() {
                ends.update(column, s.last().end_minute)
            } else {
                ends.push(s.last().end_minute)
            },
        )
    }
}

/// A number in the width of a column's number.
pub open spec fn column_number(n: int) -> u16 {
    (n % 65_536) as u16
}

/// An item in a column.
pub open spec fn positioned(item: TimelineItem, column: int, columns: int) -> PositionedItem {
    PositionedItem {
        event_index: item.event_index,
        start_minute: item.start_minute,
        end_minute: item.end_minute,
        column: column_number(column),
        columns: column_number(columns),
    }
}

/// The items of a group in their columns.
pub open spec fn group_layout(s: Seq<TimelineItem>) -> Seq<PositionedItem> {
    Seq::new(
        s.len(),
        |i: int| positioned(s[i], placed(s).0[i], placed(s).1.len() as int),
    )
}

/// The items from `from` on in their columns, group by group.
pub open spec fn layout_from(s: Seq<TimelineItem>, from: int) -> Seq<PositionedItem>
    decreases s.len() - from,
    when 0 <= from
    via layout_from_decreases
{
    if from >= s.len() {
        Seq::empty()
    } else {
        let to = group_end(s, from + 1, s[from].end_minute as int);
        group_layout(s.subrange(from, to)) + layout_from(s, to)
    }
}

#[via_fn]
proof fn layout_from_decreases(s: Seq<TimelineItem>, from: int) {
    if from < s.len() {
        lemma_group_end(s, from, from + 1, s[from].end_minute as int);
    }
}

/// A group ends after it starts, and no item in it starts once all before it have ended.
proof fn lemma_group_end(s: Seq<TimelineItem>, first: int, from: int, furthest: int)
    requires
        0 <= first < from <= s.len(),
        forall|i: int| first <= i < from ==> (#[trigger] s[i]).end_minute <= furthest,
    ensures
        from <= group_end(s, from, furthest) <= s.len(),
        group_end(s, from, furthest) < s.len() ==> forall|i: int|
            first <= i < group_end(s, from, furthest) ==> (#[trigger] s[i]).end_minute <= s[group_end(
                s,
                from,
                furthest,
            )].start_minute,
    decreases s.len() - from,
{
    if from < s.len() && s[from].start_minute < furthest {
        let next = if s[from].end_minute > furthest {
            s[from].end_minute as int
        } else {
            furthest
        };
        lemma_group_end(s, first, from + 1, next);
    }
}

fn find_free_column(ends: &Vec<u16>, start: u16) -> (r: usize)
    ensures
        r == free_column(ends@, start, 0),
        r <= ends@.len(),
{
    let mut i: usize = 0;
    while i < ends.len() && ends[i] > start
        invariant
            i <= ends@.len(),
            free_column(ends@, start, 0) == free_column(ends@, start, i as int),
        decreases ends@.len() - i,
    {
        i += 1;
    }
    i
}

fn sort_items(items: &Vec<TimelineItem>) -> (r: Vec<TimelineItem>)
    ensures
        r@ == in_order(items@),
{
    let mut keys: Vec<Vec<i128>> = Vec::new();
    let mut chosen: Vec<bool> = Vec::new();
    let mut i: usize = 0;
    while i < items.len()
        invariant
            i <= items@.len(),
            keys@.len() == i,
            chosen@.len() == i,
            forall|j: int| 0 <= j < i ==> (#[trigger] keys@[j])@ == item_keys(items@)[j],
            forall|j: int| 0 <= j < i ==> #[trigger] chosen@[j],
        decreases items@.len() - i,
    {
        let item = items[i];
        let key: Vec<i128> = vec![
            item.start_minute as i128,
            item.end_minute as i128,
            item.event_index as i128,
        ];
        proof {
            assert(key@ =~= item_keys(items@)[i as int]);
        }
        keys.push(key);
        chosen.push(true);
        i += 1;
    }
    let order = order_chosen(&keys, &chosen);
    proof {
        assert(key_views(keys@) =~= item_keys(items@));
        lemma_same_choice(
            item_keys(items@),
            |i: int| chosen@[i],
            |i: int| true,
            items@.len() as int,
        );
    }
    let ghost all = in_order(items@);
    let mut out: Vec<TimelineItem> = Vec::new();
    let mut k: usize = 0;
    proof {
        assert(all.len() == order@.len());
    }
    while k < order.len()
        invariant
            k <= order@.len(),
            all == in_order(items@),
            all.len() == order@.len(),
            indices(order@) == ordered(item_keys(items@), |i: int| true, items@.len() as int),
            forall|i: int| 0 <= i < order@.len() ==> #[trigger] order@[i] < items@.len(),
            out@ == all.take(k as int),
        decreases order@.len() - k,
    {
        out.push(items[order[k]]);
        proof {
            assert(indices(order@)[k as int] == order@[k as int]);
            assert(all.take(k + 1) =~= all.take(k as int).push(items@[order@[k as int] as int]));
        }
        k += 1;
    }
    proof {
        assert(all.take(k as int) =~= all);
    }
    out
}

/// The group of items from `from` to `to` in their columns.
fn place_group(sorted: &Vec<TimelineItem>, from: usize, to: usize) -> (r: Vec<PositionedItem>)
    requires
        from <= to <= sorted@.len(),
    ensures
        r@ == group_layout(sorted@.subrange(from as int, to as int)),
{
    let ghost group = sorted@.subrange(from as int, to as int);
    let mut columns: Vec<usize> = Vec::new();
    let mut ends: Vec<u16> = Vec::new();
    let mut i: usize = from;
    proof {
        assert(group.take(0) =~= Seq::<TimelineItem>::empty());
        assert(indices(columns@) =~= Seq::<int>::empty());
        assert(ends@ =~= Seq::<u16>::empty());
    }
    while i < to
        invariant
            from <= i <= to <= sorted@.len(),
            group == sorted@.subrange(from as int, to as int),
            columns@.len() == i - from,
            (indices(columns@), ends@) == placed(group.take(i - from)),
        decreases to - i,
    {
        let item = sorted[i];
        let column: usize = find_free_column(&ends, item.start_minute);
        proof {
            let k = i - from;
            assert(group.take(k + 1).drop_last() =~= group.take(k));
            assert(group.take(k + 1).last() == item);
        }
        let ghost before = columns@;
        if column < ends.len() {
            ends.set(column, item.end_minute);
        } else {
            ends.push(item.end_minute);
        }
        columns.push(column);
        proof {
            assert(indices(columns@) =~= indices(before).push(column as int));
        }
        i += 1;
    }
    proof {
        assert(group.take(to - from) =~= group);
    }
    let count: usize = ends.len();
    let mut out: Vec<PositionedItem> = Vec::new();
    let mut k: usize = 0;
    while k < columns.len()
        invariant
            k <= columns@.len(),
            columns@.len() == to - from,
            from <= to <= sorted@.len(),
            group == sorted@.subrange(from as int, to as int),
            indices(columns@) == placed(group).0,
            count == placed(group).1.len(),
            out@.len() == k,
            forall|j: int| 0 <= j < k ==> out@[j] == group_layout(group)[j],
        decreases columns@.len() - k,
    {
        let item = sorted[from + k];
        proof {
            assert(indices(columns@)[k as int] == columns@[k as int]);
        }
        out.push(
            PositionedItem {
                event_index: item.event_index,
                start_minute: item.start_minute,
                end_minute: item.end_minute,
                column: (columns[k] % 65_536) as u16,
                columns: (count % 65_536) as u16,
            },
        );
        k += 1;
    }
    proof {
        assert(out@ =~= group_layout(group));
    }
    out
}

/// Gives each item a column. Items that only touch may share one; the items of a group that hang
/// together share the width between the columns that the group needs.
pub fn layout_overlaps(items: &Vec<TimelineItem>) -> (r: Vec<PositionedItem>)
    ensures
        r@ == layout_from(in_order(items@), 0),
{
    let sorted = sort_items(items);
    let mut output: Vec<PositionedItem> = Vec::new();
    let mut start: usize = 0;
    proof {
        assert(output@ + layout_from(sorted@, 0) =~= layout_from(sorted@, 0));
    }
    while start < sorted.len()
        invariant
            start <= sorted@.len(),
            output@ + layout_from(sorted@, start as int) == layout_from(sorted@, 0),
        decreases sorted@.len() - start,
    {
        let mut end: usize = start + 1;
        let mut furthest: u16 = sorted[start].end_minute;
        while end < sorted.len() && sorted[end].start_minute < furthest
            invariant
                start < end <= sorted@.len(),
                group_end(sorted@, start + 1, sorted@[start as int].end_minute as int) == group_end(
                    sorted@,
                    end as int,
                    furthest as int,
                ),
            decreases sorted@.len() - end,
        {
            if sorted[end].end_minute > furthest {
                furthest = sorted[end].end_minute;
            }
            end += 1;
        }
        let mut group = place_group(&sorted, start, end);
        proof {
            assert(output@ + (group@ + layout_from(sorted@, end as int)) =~= (output@ + group@)
                + layout_from(sorted@, end as int));
        }
        output.append(&mut group);
        start = end;
    }
    proof {
        assert(output@ + layout_from(sorted@, start as int) =~= output@);
    }
    output
}

/// Whether the items start in order.
pub open spec fn starts_in_order(s: Seq<TimelineItem>) -> bool {
    forall|i: int, j: int|
        0 <= i < j < s.len() ==> (#[trigger] s[i]).start_minute <= (#[trigger] s[j]).start_minute
}

/// Whether each item ends after it starts.
pub open spec fn all_last(s: Seq<TimelineItem>) -> bool {
    forall|i: int| 0 <= i < s.len() ==> (#[trigger] s[i]).start_minute < s[i].end_minute
}

/// Whether an item covers a minute in a column.
pub open spec fn covers_in(s: Seq<TimelineItem>, i: int, column: int, minute: int) -> bool {
    0 <= i < s.len() && placed(s).0[i] == column && s[i].start_minute <= minute < s[i].end_minute
}

/// Whether some item covers a minute in a column.
pub open spec fn column_covered(s: Seq<TimelineItem>, column: int, minute: int) -> bool {
    exists|i: int| covers_in(s, i, column, minute)
}

/// Whether some item covers a minute in each column of a group.
pub open spec fn all_columns_covered(s: Seq<TimelineItem>, minute: int) -> bool {
    forall|c: int| 0 <= c < placed(s).1.len() ==> #[trigger] column_covered(s, c, minute)
}

/// Whether an item is the last of a column.
pub open spec fn ends_column(s: Seq<TimelineItem>, i: int, column: int) -> bool {
    0 <= i < s.len() && placed(s).0[i] == column && s[i].end_minute == placed(s).1[column]
}

/// Whether some item is the last of a column.
pub open spec fn column_is_ended(s: Seq<TimelineItem>, column: int) -> bool {
    exists|i: int| ends_column(s, i, column)
}

proof fn lemma_free_column(ends: Seq<u16>, start: u16, from: int)
    requires
        0 <= from <= ends.len(),
    ensures
        from <= free_column(ends, start, from) <= ends.len(),
        forall|c: int| from <= c < free_column(ends, start, from) ==> #[trigger] ends[c] > start,
        free_column(ends, start, from) < ends.len() ==> ends[free_column(ends, start, from)]
            <= start,
    decreases ends.len() - from,
{
    if from < ends.len() && ends[from] > start {
        lemma_free_column(ends, start, from + 1);
    }
}

/// What the placing of a group keeps: as many columns as items have numbers, in a column each item
/// ends before the next starts, and the column's end is that of an item in it.
proof fn lemma_placed(s: Seq<TimelineItem>)
    requires
        all_last(s),
    ensures
        placed(s).0.len() == s.len(),
        placed(s).1.len() <= s.len(),
        s.len() > 0 ==> placed(s).1.len() > 0,
        forall|i: int| 0 <= i < s.len() ==> 0 <= #[trigger] placed(s).0[i] < placed(s).1.len(),
        forall|i: int|
            0 <= i < s.len() ==> s[i].end_minute <= placed(s).1[#[trigger] placed(s).0[i]],
        forall|i: int, j: int|
            0 <= i < j < s.len() && #[trigger] placed(s).0[i] == #[trigger] placed(s).0[j]
                ==> s[i].end_minute <= s[j].start_minute,
        forall|c: int| 0 <= c < placed(s).1.len() ==> #[trigger] column_is_ended(s, c),
    decreases s.len(),
{
    if s.len() > 0 {
        let t = s.drop_last();
        let last = s.last();
        let n = t.len() as int;
        assert forall|i: int| 0 <= i < t.len() implies (#[trigger] t[i]).start_minute
            < t[i].end_minute by {
            assert(t[i] == s[i]);
        }
        lemma_placed(t);
        let (columns, ends) = placed(t);
        lemma_free_column(ends, last.start_minute, 0);
        let column = free_column(ends, last.start_minute, 0);
        let after = placed(s);
        assert(s[n] == last);
        assert forall|i: int| 0 <= i < s.len() implies s[i].end_minute <= after.1[#[trigger] after.0[i]] by {
            if i < n {
                assert(after.0[i] == columns[i]);
                assert(t[i].end_minute <= ends[columns[i]]);
            }
        }
        assert forall|i: int, j: int|
            0 <= i < j < s.len() && #[trigger] after.0[i] == #[trigger] after.0[j] implies s[i].end_minute
            <= s[j].start_minute by {
            assert(after.0[i] == columns[i]);
            if j < n {
                assert(after.0[j] == columns[j]);
                assert(t[i].end_minute <= t[j].start_minute);
            } else {
                assert(t[i].end_minute <= ends[columns[i]]);
            }
        }
        assert forall|c: int| 0 <= c < after.1.len() implies #[trigger] column_is_ended(s, c) by {
            if c == column {
                assert(ends_column(s, n, c));
            } else {
                assert(column_is_ended(t, c));
                let i = choose|i: int| ends_column(t, i, c);
                assert(after.0[i] == columns[i] && s[i] == t[i]);
                assert(ends_column(s, i, c));
            }
        }
    }
}

/// A group has a minute that an item covers in each of its columns.
proof fn lemma_dense(s: Seq<TimelineItem>) -> (minute: int)
    requires
        all_last(s),
        starts_in_order(s),
        s.len() > 0,
    ensures
        all_columns_covered(s, minute),
    decreases s.len(),
{
    let t = s.drop_last();
    let last = s.last();
    let n = t.len() as int;
    assert(s[n] == last);
    assert forall|i: int| 0 <= i < t.len() implies (#[trigger] t[i]).start_minute
        < t[i].end_minute by {
        assert(t[i] == s[i]);
    }
    assert forall|i: int, j: int| 0 <= i < j < t.len() implies (#[trigger] t[i]).start_minute <= (
    #[trigger] t[j]).start_minute by {
        assert(t[i] == s[i] && t[j] == s[j]);
    }
    lemma_placed(t);
    lemma_placed(s);
    let (columns, ends) = placed(t);
    lemma_free_column(ends, last.start_minute, 0);
    let column = free_column(ends, last.start_minute, 0);
    let after = placed(s);
    if column == ends.len() {
        let minute = last.start_minute as int;
        assert forall|c: int| 0 <= c < after.1.len() implies #[trigger] column_covered(
            s,
            c,
            minute,
        ) by {
            if c == column {
                assert(covers_in(s, n, c, minute));
            } else {
                assert(column_is_ended(t, c));
                let i = choose|i: int| ends_column(t, i, c);
                assert(after.0[i] == c && s[i] == t[i]);
                assert(s[i].start_minute <= s[n].start_minute);
                assert(covers_in(s, i, c, minute));
            }
        }
        minute
    } else {
        let minute = lemma_dense(t);
        assert forall|c: int| 0 <= c < after.1.len() implies #[trigger] column_covered(
            s,
            c,
            minute,
        ) by {
            assert(column_covered(t, c, minute));
            let i = choose|i: int| covers_in(t, i, c, minute);
            assert(after.0[i] == columns[i] && s[i] == t[i]);
            assert(covers_in(s, i, c, minute));
        }
        minute
    }
}

/// A group needs all the columns that it has: at some minute an item stands in each of them.
pub proof fn law_columns_are_needed(group: Seq<TimelineItem>)
    requires
        all_last(group),
        starts_in_order(group),
        group.len() > 0,
    ensures
        exists|minute: int| #[trigger] all_columns_covered(group, minute),
{
    let minute = lemma_dense(group);
}

proof fn lemma_layout(s: Seq<TimelineItem>, from: int)
    requires
        0 <= from <= s.len() < 65_536,
        all_last(s),
        starts_in_order(s),
    ensures
        layout_from(s, from).len() == s.len() - from,
        forall|k: int|
            0 <= k < s.len() - from ==> {
                let p = #[trigger] layout_from(s, from)[k];
                &&& p.event_index == s[from + k].event_index
                &&& p.start_minute == s[from + k].start_minute
                &&& p.end_minute == s[from + k].end_minute
                &&& p.column < p.columns
            },
        forall|i: int, j: int|
            0 <= i < j < s.len() - from && s[from + j].start_minute < s[from + i].end_minute
                ==> (#[trigger] layout_from(s, from)[i]).column != (#[trigger] layout_from(
                s,
                from,
            )[j]).column,
    decreases s.len() - from,
{
    if from < s.len() {
        lemma_group_end(s, from, from + 1, s[from].end_minute as int);
        let to = group_end(s, from + 1, s[from].end_minute as int);
        let group = s.subrange(from, to);
        let rest = layout_from(s, to);
        let head = group_layout(group);
        let all = layout_from(s, from);
        assert forall|i: int| 0 <= i < group.len() implies (#[trigger] group[i]).start_minute
            < group[i].end_minute by {
            assert(group[i] == s[from + i]);
        }
        lemma_placed(group);
        lemma_layout(s, to);
        assert(all =~= head + rest);
        assert forall|k: int| 0 <= k < s.len() - from implies {
            let p = #[trigger] all[k];
            &&& p.event_index == s[from + k].event_index
            &&& p.start_minute == s[from + k].start_minute
            &&& p.end_minute == s[from + k].end_minute
            &&& p.column < p.columns
        } by {
            if k < group.len() {
                assert(all[k] == head[k]);
                assert(0 <= placed(group).0[k] < placed(group).1.len());
            } else {
                assert(all[k] == rest[k - group.len()]);
            }
        }
        assert forall|i: int, j: int|
            0 <= i < j < s.len() - from && s[from + j].start_minute < s[from + i].end_minute implies (
        #[trigger] all[i]).column != (#[trigger] all[j]).column by {
            if j < group.len() {
                assert(all[i] == head[i] && all[j] == head[j]);
                assert(group[i] == s[from + i] && group[j] == s[from + j]);
                assert(0 <= placed(group).0[i] < placed(group).1.len());
                assert(0 <= placed(group).0[j] < placed(group).1.len());
            } else if i < group.len() {
                assert(s[from + i].end_minute <= s[to].start_minute);
                if from + j > to {
                    assert(s[to].start_minute <= s[from + j].start_minute);
                }
            } else {
                let a = i - group.len();
                let c = j - group.len();
                assert(all[i] == rest[a] && all[j] == rest[c]);
                assert(s[to + a] == s[from + i] && s[to + c] == s[from + j]);
            }
        }
    }
}

proof fn lemma_in_order(items: Seq<TimelineItem>)
    ensures
        in_order(items).len() == items.len(),
        starts_in_order(in_order(items)),
        forall|x: TimelineItem| #[trigger] in_order(items).contains(x) <==> items.contains(x),
{
    let keys = item_keys(items);
    let every = |i: int| true;
    let n = items.len() as int;
    let order = ordered(keys, every, n);
    law_order_is_complete(keys, every, n);
    law_order_is_sorted(keys, every, n);
    lemma_all_chosen(keys, every, n);
    let s = in_order(items);
    assert forall|i: int, j: int| 0 <= i < j < s.len() implies (#[trigger] s[i]).start_minute <= (
    #[trigger] s[j]).start_minute by {
        assert(order.contains(order[i]) && order.contains(order[j]));
        assert(s[i] == items[order[i]] && s[j] == items[order[j]]);
        assert(!key_less(keys[order[j]], keys[order[i]]));
        assert(keys[order[i]][0] == s[i].start_minute && keys[order[j]][0] == s[j].start_minute);
    }
    assert forall|x: TimelineItem| #[trigger] s.contains(x) <==> items.contains(x) by {
        if s.contains(x) {
            let i = choose|i: int| 0 <= i < s.len() && s[i] == x;
            assert(order.contains(order[i]));
            assert(items[order[i]] == x);
        }
        if items.contains(x) {
            let i = choose|i: int| 0 <= i < items.len() && items[i] == x;
            assert(every(i));
            assert(order.contains(i));
            let k = choose|k: int| 0 <= k < order.len() && order[k] == i;
            assert(s[k] == x);
        }
    }
}

/// The layout holds each item and no other; each stands in one of its columns; and no two items
/// that overlap stand in the same column.
pub proof fn law_overlapping_items_stand_side_by_side(items: Seq<TimelineItem>)
    requires
        all_last(items),
        items.len() < 65_536,
    ensures
        ({
            let out = layout_from(in_order(items), 0);
            &&& out.len() == items.len()
            &&& forall|k: int|
                0 <= k < out.len() ==> items.contains(
                    TimelineItem {
                        event_index: (#[trigger] out[k]).event_index,
                        start_minute: out[k].start_minute,
                        end_minute: out[k].end_minute,
                    },
                ) && out[k].column < out[k].columns
            &&& forall|x: TimelineItem| #[trigger]
                items.contains(x) ==> exists|k: int|
                    0 <= k < out.len() && (#[trigger] out[k]).event_index == x.event_index
                        && out[k].start_minute == x.start_minute && out[k].end_minute
                        == x.end_minute
            &&& forall|i: int, j: int|
                0 <= i < j < out.len() && (#[trigger] out[j]).start_minute < (
                #[trigger] out[i]).end_minute && out[i].start_minute < out[j].end_minute
                    ==> out[i].column != out[j].column
        }),
{
    lemma_in_order(items);
    let s = in_order(items);
    assert forall|i: int| 0 <= i < s.len() implies (#[trigger] s[i]).start_minute
        < s[i].end_minute by {
        assert(s.contains(s[i]));
        let k = choose|k: int| 0 <= k < items.len() && items[k] == s[i];
    }
    lemma_layout(s, 0);
    let out = layout_from(s, 0);
    assert forall|k: int| 0 <= k < out.len() implies items.contains(
        TimelineItem {
            event_index: (#[trigger] out[k]).event_index,
            start_minute: out[k].start_minute,
            end_minute: out[k].end_minute,
        },
    ) && out[k].column < out[k].columns by {
        assert(s.contains(s[k]));
    }
    assert forall|x: TimelineItem| #[trigger] items.contains(x) implies exists|k: int|
        0 <= k < out.len() && (#[trigger] out[k]).event_index == x.event_index
            && out[k].start_minute == x.start_minute && out[k].end_minute == x.end_minute by {
        assert(s.contains(x));
        let k = choose|k: int| 0 <= k < s.len() && s[k] == x;
        assert(out[k].event_index == x.event_index);
    }
}

/// Whether an item comes no later than another: by start, end, and index of the event.
pub open spec fn comes_first(a: TimelineItem, b: TimelineItem) -> bool {
    if a.start_minute != b.start_minute {
        a.start_minute < b.start_minute
    } else if a.end_minute != b.end_minute {
        a.end_minute < b.end_minute
    } else {
        a.event_index <= b.event_index
    }
}

proof fn lemma_keys_order_items(a: TimelineItem, b: TimelineItem)
    ensures
        ({
            let key = |item: TimelineItem|
                seq![item.start_minute as i128, item.end_minute as i128, item.event_index as i128];
            !key_less(key(b), key(a)) ==> comes_first(a, b)
        }),
{
    let x = seq![b.start_minute as i128, b.end_minute as i128, b.event_index as i128];
    let y = seq![a.start_minute as i128, a.end_minute as i128, a.event_index as i128];
    let x1 = x.drop_first();
    let y1 = y.drop_first();
    let x2 = x1.drop_first();
    let y2 = y1.drop_first();
    assert(x1[0] == b.end_minute && y1[0] == a.end_minute);
    assert(x2[0] == b.event_index && y2[0] == a.event_index);
    if !comes_first(a, b) {
        assert(key_less(x2, y2) || x2[0] == y2[0] || x2[0] > y2[0]);
        assert(x[0] == y[0] ==> key_less(x, y) == key_less(x1, y1));
        assert(x1[0] == y1[0] ==> key_less(x1, y1) == key_less(x2, y2));
    }
}

proof fn lemma_sorted_items(items: Seq<TimelineItem>)
    ensures
        sorted_by(in_order(items), |a: TimelineItem, b: TimelineItem| comes_first(a, b)),
        in_order(items).to_multiset() == items.to_multiset(),
{
    let keys = item_keys(items);
    let all = |i: int| true;
    let n = items.len() as int;
    let list = ordered(keys, all, n);
    law_order_is_complete(keys, all, n);
    law_order_is_sorted(keys, all, n);
    law_order_keeps_the_items(items, keys, all, n);
    assert(items.take(n) =~= items);
    let leq = |a: TimelineItem, b: TimelineItem| comes_first(a, b);
    let sorted = in_order(items);
    assert forall|i: int, j: int| 0 <= i < j < sorted.len() implies #[trigger] leq(
        sorted[i],
        sorted[j],
    ) by {
        assert(list.contains(list[i]) && list.contains(list[j]));
        assert(!key_less(keys[list[j]], keys[list[i]]));
        lemma_keys_order_items(items[list[i]], items[list[j]]);
    }
}

/// The layout does not depend on the order in which the items are given.
pub proof fn law_layout_ignores_the_order(a: Seq<TimelineItem>, b: Seq<TimelineItem>)
    requires
        a.to_multiset() == b.to_multiset(),
    ensures
        layout_from(in_order(a), 0) == layout_from(in_order(b), 0),
{
    let leq = |a: TimelineItem, b: TimelineItem| comes_first(a, b);
    lemma_sorted_items(a);
    lemma_sorted_items(b);
    assert(total_ordering(leq));
    lemma_sorted_unique(in_order(a), in_order(b), leq);
}

} // verus!
