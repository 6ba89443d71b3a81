//! Where the timeline starts when the user has not scrolled it.
//!
//! The window of rows is chosen that holds the most of the shorter events. Events of six hours and
//! more are background, and on the current day the clock is kept in view while an event is near.

use super::shown::{event_keys, is_shown, law_shown_events_are_complete, near_midnight};
use super::{App, TimelineViewportOwner, View};
use crate::layout::{item_for_day, may_be_item, TimelineItem, MINUTES_PER_DAY};
use crate::sorting::{below, indices, law_later_indices_keep_the_order};
use crate::time::{is_current, local_now, Date, Timestamp, WallTime};
use vstd::prelude::*;
use vstd::view::View as _;

verus! {

/// The minutes of a row.
pub const ROW_MINUTES: u16 = 30;

/// The rows of a day.
pub const ROWS_PER_DAY: u16 = 48;

/// The length from which an event is background.
pub const LONG_EVENT_MINUTES: u16 = 360;

/// A timed event on one of the shown days, and whether that is the current day.
#[derive(Clone, Copy, Debug, PartialEq, Eq, Structural)]
pub struct DayItem {
    pub start_minute: u16,
    pub end_minute: u16,
    pub today: bool,
}

impl DayItem {
    /// The item lies in the day.
    pub open spec fn wf(self) -> bool {
        self.start_minute < self.end_minute <= MINUTES_PER_DAY
    }

    /// Whether the event is not background.
    pub open spec fn useful(self) -> bool {
        self.end_minute - self.start_minute < LONG_EVENT_MINUTES
    }

    /// Whether the event takes a row.
    pub open spec fn takes(self, row: int) -> bool {
        self.start_minute as int / 30 <= row <= (self.end_minute - 1) / 30
    }

    /// Whether the event is on the current day and within two hours of a minute.
    pub open spec fn near(self, minute: int) -> bool {
        self.today && self.start_minute <= minute + 120 && self.end_minute + 120 >= minute
    }
}

/// Whether all items lie in the day.
pub open spec fn items_wf(items: Seq<DayItem>) -> bool {
    forall|i: int| 0 <= i < items.len() ==> (#[trigger] items[i]).wf()
}

/// The smaller of a number that may be there and another.
pub open spec fn least(a: Option<int>, b: int) -> Option<int> {
    match a {
        Some(a) => Some(
            if a < b {
                a
            } else {
                b
            },
        ),
        None => Some(b),
    }
}

/// The minute at which the first useful event starts.
pub open spec fn earliest(items: Seq<DayItem>) -> Option<int>
    decreases items.len(),
{
    if items.len() == 0 {
        None
    } else if items.last().useful() {
        least(earliest(items.drop_last()), items.last().start_minute as int)
    } else {
        earliest(items.drop_last())
    }
}

/// The minute at which the first useful event starts that is near a minute of the current day.
pub open spec fn nearby(items: Seq<DayItem>, minute: int) -> Option<int>
    decreases items.len(),
{
    if items.len() == 0 {
        None
    } else if items.last().useful() && items.last().near(minute) {
        least(nearby(items.drop_last(), minute), items.last().start_minute as int)
    } else {
        nearby(items.drop_last(), minute)
    }
}

/// The number of useful events in a row, as far as it is counted.
pub open spec fn activity(items: Seq<DayItem>, row: int) -> int
    decreases items.len(),
{
    if items.len() == 0 {
        0
    } else {
        let rest = activity(items.drop_last(), row);
        if items.last().useful() && items.last().takes(row) && rest < u16::MAX {
            rest + 1
        } else {
            rest
        }
    }
}

/// The useful events in the rows from one to before another.
pub open spec fn score(items: Seq<DayItem>, from: int, to: int) -> int
    decreases to - from,
{
    if from >= to {
        0
    } else {
        score(items, from, to - 1) + activity(items, to - 1)
    }
}

/// The useful events in a window of rows that starts at a row.
pub open spec fn window_score(items: Seq<DayItem>, row: int, rows: int) -> int {
    score(
        items,
        row,
        if row + rows < ROWS_PER_DAY {
            row + rows
        } else {
            ROWS_PER_DAY as int
        },
    )
}

/// The distance between two numbers.
pub open spec fn apart(a: int, b: int) -> int {
    if a < b {
        b - a
    } else {
        a - b
    }
}

/// The best row for a window to start at, among the first `n`: the one with the most useful events,
/// then the one nearest to the preferred minute, then the first.
pub open spec fn best_row(items: Seq<DayItem>, rows: int, preferred: int, n: int) -> int
    decreases n,
{
    if n <= 1 {
        0
    } else {
        let best = best_row(items, rows, preferred, n - 1);
        let new = window_score(items, n - 1, rows);
        let old = window_score(items, best, rows);
        if new > old || (new == old && apart((n - 1) * 30, preferred) < apart(
            best * 30,
            preferred,
        )) {
            n - 1
        } else {
            best
        }
    }
}

/// A number less another, not below zero.
pub open spec fn less(a: int, b: int) -> int {
    if a > b {
        a - b
    } else {
        0
    }
}

/// The smaller of two numbers.
pub open spec fn smaller(a: int, b: int) -> int {
    if a < b {
        a
    } else {
        b
    }
}

/// The minute at which a timeline of a number of rows starts.
pub open spec fn timeline_start(
    rows: int,
    items: Seq<DayItem>,
    minute: int,
    active_today: bool,
) -> int {
    let visible = smaller(rows, ROWS_PER_DAY as int);
    let window = visible * 30;
    let last = MINUTES_PER_DAY - window;
    match (nearby(items, minute), earliest(items)) {
        (Some(near), _) => smaller(less(smaller(near, minute), window / 3) / 30 * 30, last),
        (None, None) => if active_today {
            smaller(less(minute, window / 3), last)
        } else {
            smaller(540, last)
        },
        (None, Some(first)) => {
            let preferred = smaller(less(first, 60), last);
            best_row(items, visible, preferred, last / 30 + 1) * 30
        },
    }
}

/// What is counted of the items: the rows, the first useful start, and the first near start.
struct Tally {
    rows: Vec<u16>,
    earliest: Option<u16>,
    nearby: Option<u16>,
}

spec fn opt_int(n: Option<u16>) -> Option<int> {
    match n {
        Some(n) => Some(n as int),
        None => None,
    }
}

spec fn tallies(tally: Tally, items: Seq<DayItem>, minute: int) -> bool {
    &&& tally.rows@.len() == ROWS_PER_DAY
    &&& forall|row: int| 0 <= row < ROWS_PER_DAY ==> tally.rows@[row] == activity(items, row)
    &&& opt_int(tally.earliest) == earliest(items)
    &&& opt_int(tally.nearby) == nearby(items, minute)
}

fn keep_least(a: Option<u16>, b: u16) -> (r: Option<u16>)
    ensures
        opt_int(r) == least(opt_int(a), b as int),
{
    match a {
        Some(a) => if a < b {
            Some(a)
        } else {
            Some(b)
        },
        None => Some(b),
    }
}

fn count_rows(rows: &mut Vec<u16>, item: DayItem)
    requires
        old(rows)@.len() == ROWS_PER_DAY,
        item.wf(),
    ensures
        final(rows)@.len() == ROWS_PER_DAY,
        forall|row: int|
            0 <= row < ROWS_PER_DAY ==> #[trigger] final(rows)@[row] == (if item.takes(row)
                && old(rows)@[row] < u16::MAX {
                old(rows)@[row] + 1
            } else {
                old(rows)@[row] as int
            }),
{
    let first: usize = (item.start_minute / ROW_MINUTES) as usize;
    let last: usize = ((item.end_minute - 1) / ROW_MINUTES) as usize;
    let mut row: usize = 0;
    while row < 48
        invariant
            row <= 48,
            rows@.len() == ROWS_PER_DAY,
            item.wf(),
            first == item.start_minute as int / 30,
            last == (item.end_minute - 1) / 30,
            forall|j: int|
                0 <= j < row ==> #[trigger] rows@[j] == (if item.takes(j) && old(rows)@[j]
                    < u16::MAX {
                    old(rows)@[j] + 1
                } else {
                    old(rows)@[j] as int
                }),
            forall|j: int| row <= j < ROWS_PER_DAY ==> #[trigger] rows@[j] == old(rows)@[j],
        decreases 48 - row,
    {
        let count: u16 = rows[row];
        if first <= row && row <= last && count < u16::MAX {
            rows.set(row, count + 1);
        }
        row += 1;
    }
}

fn count_items(items: &Vec<DayItem>, minute: u16) -> (r: Tally)
    requires
        items_wf(items@),
        minute < MINUTES_PER_DAY,
    ensures
        tallies(r, items@, minute as int),
{
    let mut rows: Vec<u16> = Vec::new();
    while rows.len() < 48
        invariant
            rows@.len() <= 48,
            forall|j: int| 0 <= j < rows@.len() ==> #[trigger] rows@[j] == 0,
        decreases 48 - rows@.len(),
    {
        rows.push(0);
    }
    let mut first: Option<u16> = None;
    let mut near: Option<u16> = None;
    let mut i: usize = 0;
    proof {
        assert(items@.take(0) =~= Seq::<DayItem>::empty());
    }
    while i < items.len()
        invariant
            i <= items@.len(),
            items_wf(items@),
            minute < MINUTES_PER_DAY,
            rows@.len() == ROWS_PER_DAY,
            forall|row: int|
                0 <= row < ROWS_PER_DAY ==> #[trigger] rows@[row] == activity(
                    items@.take(i as int),
                    row,
                ),
            opt_int(first) == earliest(items@.take(i as int)),
            opt_int(near) == nearby(items@.take(i as int), minute as int),
        decreases items@.len() - i,
    {
        let item = items[i];
        proof {
            assert(items@.take(i + 1).drop_last() =~= items@.take(i as int));
            assert(items@.take(i + 1).last() == item);
            assert(item.wf());
        }
        if item.end_minute - item.start_minute < LONG_EVENT_MINUTES {
            first = keep_least(first, item.start_minute);
            count_rows(&mut rows, item);
            if item.today && item.start_minute <= minute + 120 && item.end_minute + 120 >= minute {
                near = keep_least(near, item.start_minute);
            }
        }
        i += 1;
    }
    proof {
        assert(items@.take(i as int) =~= items@);
    }
    Tally { rows, earliest: first, nearby: near }
}

fn sum_rows(rows: &Vec<u16>, from: usize, to: usize, items: Ghost<Seq<DayItem>>) -> (r: u32)
    requires
        rows@.len() == ROWS_PER_DAY,
        from <= to <= 48,
        forall|row: int| 0 <= row < ROWS_PER_DAY ==> rows@[row] == activity(items@, row),
    ensures
        r == score(items@, from as int, to as int),
{
    let mut sum: u32 = 0;
    let mut row: usize = from;
    while row < to
        invariant
            from <= row <= to <= 48,
            rows@.len() == ROWS_PER_DAY,
            forall|row: int| 0 <= row < ROWS_PER_DAY ==> rows@[row] == activity(items@, row),
            sum == score(items@, from as int, row as int),
            sum <= (row - from) * 65_535,
        decreases to - row,
    {
        sum = sum + rows[row] as u32;
        row += 1;
    }
    sum
}

fn window_sum(rows: &Vec<u16>, row: usize, visible: usize, items: Ghost<Seq<DayItem>>) -> (r: u32)
    requires
        rows@.len() == ROWS_PER_DAY,
        row <= 48,
        visible <= 48,
        forall|row: int| 0 <= row < ROWS_PER_DAY ==> rows@[row] == activity(items@, row),
    ensures
        r == window_score(items@, row as int, visible as int),
{
    let to: usize = if row + visible < 48 {
        row + visible
    } else {
        48
    };
    sum_rows(rows, row, to, items)
}

fn distance(a: u16, b: u16) -> (r: u16)
    ensures
        r == apart(a as int, b as int),
{
    if a < b {
        b - a
    } else {
        a - b
    }
}

fn find_best_row(
    rows: &Vec<u16>,
    visible: usize,
    preferred: u16,
    count: usize,
    items: Ghost<Seq<DayItem>>,
) -> (r: usize)
    requires
        rows@.len() == ROWS_PER_DAY,
        1 <= visible <= 48,
        1 <= count <= 48,
        forall|row: int| 0 <= row < ROWS_PER_DAY ==> rows@[row] == activity(items@, row),
    ensures
        r == best_row(items@, visible as int, preferred as int, count as int),
        r < count,
{
    let mut best: usize = 0;
    let mut best_sum: u32 = window_sum(rows, 0, visible, items);
    let mut n: usize = 1;
    while n < count
        invariant
            1 <= n <= count <= 48,
            1 <= visible <= 48,
            best < n,
            rows@.len() == ROWS_PER_DAY,
            forall|row: int| 0 <= row < ROWS_PER_DAY ==> rows@[row] == activity(items@, row),
            best == best_row(items@, visible as int, preferred as int, n as int),
            best_sum == window_score(items@, best as int, visible as int),
        decreases count - n,
    {
        let sum: u32 = window_sum(rows, n, visible, items);
        let near: u16 = distance(n as u16 * ROW_MINUTES, preferred);
        let best_near: u16 = distance(best as u16 * ROW_MINUTES, preferred);
        if sum > best_sum || (sum == best_sum && near < best_near) {
            best = n;
            best_sum = sum;
        }
        n += 1;
    }
    best
}

/// The minute at which a timeline of a number of rows starts, where the clock shows a minute.
pub fn timeline_start_minute(rows: u16, items: &Vec<DayItem>, minute: u16, active_today: bool) -> (r:
    u16)
    requires
        rows > 0,
        items_wf(items@),
        minute < MINUTES_PER_DAY,
    ensures
        r == timeline_start(rows as int, items@, minute as int, active_today),
{
    let visible: u16 = if rows < ROWS_PER_DAY {
        rows
    } else {
        ROWS_PER_DAY
    };
    let window: u16 = visible * ROW_MINUTES;
    let last: u16 = MINUTES_PER_DAY - window;
    let tally = count_items(items, minute);
    proof {
        lemma_near_is_useful(items@, minute as int);
        lemma_starts_in_day(items@);
    }
    match tally.nearby {
        Some(near) => {
            let from: u16 = if near < minute {
                near
            } else {
                minute
            };
            let target: u16 = if from > window / 3 {
                from - window / 3
            } else {
                0
            };
            let start: u16 = target / ROW_MINUTES * ROW_MINUTES;
            if start < last {
                start
            } else {
                last
            }
        },
        None => match tally.earliest {
            None => {
                let start: u16 = if !active_today {
                    540
                } else if minute > window / 3 {
                    minute - window / 3
                } else {
                    0
                };
                if start < last {
                    start
                } else {
                    last
                }
            },
            Some(first) => {
                let early: u16 = if first > 60 {
                    first - 60
                } else {
                    0
                };
                let preferred: u16 = if early < last {
                    early
                } else {
                    last
                };
                let best: usize = find_best_row(
                    &tally.rows,
                    visible as usize,
                    preferred,
                    (last / ROW_MINUTES) as usize + 1,
                    Ghost(items@),
                );
                best as u16 * ROW_MINUTES
            },
        },
    }
}

proof fn lemma_near_is_useful(items: Seq<DayItem>, minute: int)
    requires
        items_wf(items),
    ensures
        nearby(items, minute) matches Some(near) ==> 0 <= near < MINUTES_PER_DAY,
    decreases items.len(),
{
    if items.len() > 0 {
        let t = items.drop_last();
        assert forall|i: int| 0 <= i < t.len() implies (#[trigger] t[i]).wf() by {
            assert(t[i] == items[i]);
        }
        lemma_near_is_useful(t, minute);
        assert(items.last().wf());
    }
}

proof fn lemma_starts_in_day(items: Seq<DayItem>)
    requires
        items_wf(items),
    ensures
        earliest(items) matches Some(first) ==> 0 <= first < MINUTES_PER_DAY,
    decreases items.len(),
{
    if items.len() > 0 {
        let t = items.drop_last();
        assert forall|i: int| 0 <= i < t.len() implies (#[trigger] t[i]).wf() by {
            assert(t[i] == items[i]);
        }
        lemma_starts_in_day(t);
        assert(items.last().wf());
    }
}

/// The items of an event on consecutive days, from one on.
pub open spec fn event_items(row: Seq<Option<TimelineItem>>, first: int, today: Date) -> Seq<DayItem>
    decreases row.len(),
{
    if row.len() == 0 {
        Seq::empty()
    } else {
        let rest = event_items(row.drop_last(), first, today);
        match row.last() {
            Some(item) => rest.push(
                DayItem {
                    start_minute: item.start_minute,
                    end_minute: item.end_minute,
                    today: first + row.len() - 1 == today.day,
                },
            ),
            None => rest,
        }
    }
}

/// The items of events, each on consecutive days from one on.
pub open spec fn all_items(
    rows: Seq<Seq<Option<TimelineItem>>>,
    first: int,
    today: Date,
) -> Seq<DayItem>
    decreases rows.len(),
{
    if rows.len() == 0 {
        Seq::empty()
    } else {
        all_items(rows.drop_last(), first, today) + event_items(rows.last(), first, today)
    }
}

impl App {
    /// Whether rows are what a clock may make of events on the shown days: a row for each event, and
    /// in it what it has on each day.
    pub open spec fn are_rows(self, list: Seq<int>, rows: Seq<Seq<Option<TimelineItem>>>) -> bool {
        let (first, end) = self.window();
        &&& rows.len() == list.len()
        &&& forall|k: int|
            0 <= k < rows.len() ==> (#[trigger] rows[k]).len() == (if end.day > first.day {
                end.day - first.day
            } else {
                0
            })
        &&& forall|k: int, d: int|
            0 <= k < rows.len() && 0 <= d < rows[k].len() ==> {
                let event = self.snapshot.events@[list[k]];
                may_be_item(
                    list[k] as usize,
                    event.start,
                    event.end,
                    event.all_day,
                    Date { day: (first.day + d) as i32 },
                    #[trigger] rows[k][d],
                )
            }
    }

    /// Whether items are what a clock may make of the shown events on the shown days: all that they
    /// have there, and no others.
    pub open spec fn may_hold_all(self, today: Date, items: Seq<DayItem>) -> bool {
        &&& items_wf(items)
        &&& exists|list: Seq<int>, rows: Seq<Seq<Option<TimelineItem>>>|
            self.may_show(list) && #[trigger] self.are_rows(list, rows) && items == all_items(
                rows,
                self.window().0.day as int,
                today,
            )
    }

    /// The items of an event on the shown days.
    fn items_of_event(&self, index: usize, today: Date, items: &mut Vec<DayItem>) -> (r: Ghost<
        Seq<Option<TimelineItem>>,
    >)
        requires
            index < self.snapshot.events@.len(),
            items_wf(old(items)@),
        ensures
            items_wf(final(items)@),
            final(items)@ == old(items)@ + event_items(r@, self.window().0.day as int, today),
            r@.len() == (if self.window().1.day > self.window().0.day {
                self.window().1.day - self.window().0.day
            } else {
                0
            }),
            forall|d: int|
                0 <= d < r@.len() ==> {
                    let event = self.snapshot.events@[index as int];
                    may_be_item(
                        index,
                        event.start,
                        event.end,
                        event.all_day,
                        Date { day: (self.window().0.day + d) as i32 },
                        #[trigger] r@[d],
                    )
                },
    {
        let (first_day, end_day) = self.view_date_range();
        let event = &self.snapshot.events[index];
        let ghost mut row: Seq<Option<TimelineItem>> = Seq::empty();
        let ghost first = first_day.day as int;
        let mut day: i64 = first_day.day as i64;
        proof {
            assert(items@ =~= old(items)@ + event_items(row, first, today));
        }
        while day < end_day.day as i64
            invariant
                items_wf(items@),
                index < self.snapshot.events@.len(),
                *event == self.snapshot.events@[index as int],
                (first_day, end_day) == self.window(),
                first == first_day.day,
                first <= day,
                row.len() == day - first,
                day <= end_day.day || day == first,
                items@ == old(items)@ + event_items(row, first, today),
                forall|d: int|
                    0 <= d < row.len() ==> may_be_item(
                        index,
                        event.start,
                        event.end,
                        event.all_day,
                        Date { day: (first + d) as i32 },
                        #[trigger] row[d],
                    ),
            decreases end_day.day - day,
        {
            let date = Date { day: day as i32 };
            let found = item_for_day(index, event.start, event.end, event.all_day, date);
            let ghost before = row;
            proof {
                row = row.push(found);
                assert(row.drop_last() =~= before);
            }
            match found {
                Some(item) => {
                    items.push(
                        DayItem {
                            start_minute: item.start_minute,
                            end_minute: item.end_minute,
                            today: date.day == today.day,
                        },
                    );
                },
                None => {},
            }
            proof {
                assert(items@ =~= old(items)@ + event_items(row, first, today));
            }
            day += 1;
        }
        Ghost(row)
    }

    /// The timed events shown on the shown days, on the machine's calendar, where `today` is the
    /// current date.
    fn day_items(&self, today: Date) -> (r: Vec<DayItem>)
        ensures
            self.may_hold_all(today, r@),
    {
        let list = self.visible_indices();
        let ghost order = indices(list@);
        let ghost first = self.window().0.day as int;
        let ghost mut rows: Seq<Seq<Option<TimelineItem>>> = Seq::empty();
        let mut items: Vec<DayItem> = Vec::new();
        let mut k: usize = 0;
        proof {
            assert(self.are_rows(order.take(0), rows));
            assert(items@ =~= all_items(rows, first, today));
        }
        while k < list.len()
            invariant
                k <= list@.len(),
                items_wf(items@),
                order == indices(list@),
                first == self.window().0.day,
                rows.len() == k,
                self.are_rows(order.take(k as int), rows),
                items@ == all_items(rows, first, today),
                forall|i: int|
                    0 <= i < list@.len() ==> #[trigger] list@[i] < self.snapshot.events@.len(),
            decreases list@.len() - k,
        {
            let ghost before = rows;
            let row = self.items_of_event(list[k], today, &mut items);
            proof {
                rows = rows.push(row@);
                assert(rows.drop_last() =~= before);
                let now = order.take(k + 1);
                let old_order = order.take(k as int);
                assert(now[k as int] == list@[k as int]);
                assert forall|j: int, d: int| 0 <= j < rows.len() && 0 <= d < rows[j].len() implies {
                    let event = self.snapshot.events@[now[j]];
                    may_be_item(
                        now[j] as usize,
                        event.start,
                        event.end,
                        event.all_day,
                        Date { day: (first + d) as i32 },
                        #[trigger] rows[j][d],
                    )
                } by {
                    if j < k {
                        assert(now[j] == old_order[j]);
                        assert(rows[j] == before[j]);
                        assert(before[j][d] == rows[j][d]);
                    } else {
                        assert(row@[d] == rows[j][d]);
                    }
                }
                assert forall|j: int| 0 <= j < rows.len() implies (#[trigger] rows[j]).len() == (
                if self.window().1.day > self.window().0.day {
                    self.window().1.day - self.window().0.day
                } else {
                    0
                }) by {
                    if j < k {
                        assert(rows[j] == before[j]);
                    }
                }
                assert(self.are_rows(now, rows));
            }
            k += 1;
        }
        proof {
            assert(order.take(k as int) =~= order);
            assert(self.may_show(order));
        }
        items
    }

    /// The minute at which the timeline starts, where the clock shows `clock` and the shown days
    /// hold `items`. In a view without a timeline it stays.
    pub open spec fn smart_start(self, rows: int, items: Seq<DayItem>, clock: WallTime) -> int {
        if (self.view != View::Day && self.view != View::Week) || rows == 0 {
            self.timeline_start_minute as int
        } else {
            timeline_start(rows, items, clock.minute_of_day(), self.active_date == clock.date)
        }
    }

    /// The minute at which the timeline starts, where the clock shows `clock`.
    pub fn smart_timeline_start_minute_at(&self, rows: u16, clock: WallTime) -> (r: u16)
        requires
            clock.valid(),
        ensures
            exists|items: Seq<DayItem>|
                self.may_hold_all(clock.date, items) && r == #[trigger] self.smart_start(
                    rows as int,
                    items,
                    clock,
                ),
            (self.view == View::Day || self.view == View::Week) && rows > 0 ==> r <= MINUTES_PER_DAY
                - 30 * smaller(rows as int, ROWS_PER_DAY as int),
    {
        let items = self.day_items(clock.date);
        if (self.view != View::Day && self.view != View::Week) || rows == 0 {
            proof {
                assert(self.timeline_start_minute == self.smart_start(
                    rows as int,
                    items@,
                    clock,
                ));
            }
            return self.timeline_start_minute;
        }
        let r: u16 = timeline_start_minute(
            rows,
            &items,
            clock.minute() as u16,
            self.active_date.day == clock.date.day,
        );
        proof {
            assert(items_wf(items@));
            law_timeline_stays_in_the_day(
                rows as int,
                items@,
                clock.minute_of_day(),
                self.active_date == clock.date,
            );
            assert(r == self.smart_start(rows as int, items@, clock));
        }
        r
    }

    /// Positions the timeline for a number of rows, unless the user has scrolled it.
    pub fn refresh_auto_timeline_viewport(&mut self, rows: u16)
        ensures
            *final(self) == (App {
                timeline_start_minute: final(self).timeline_start_minute,
                ..*old(self)
            }),
            old(self).timeline_viewport_owner == TimelineViewportOwner::Manual || (old(self).view
                != View::Day && old(self).view != View::Week) ==> *final(self) == *old(self),
            old(self).timeline_viewport_owner == TimelineViewportOwner::Auto ==> exists|
                items: Seq<DayItem>,
                clock: WallTime,
            |
                old(self).may_hold_all(clock.date, items) && is_current(clock) && final(self).timeline_start_minute
                    == #[trigger] old(self).smart_start(rows as int, items, clock),
            old(self).timeline_viewport_owner == TimelineViewportOwner::Auto && (old(self).view
                == View::Day || old(self).view == View::Week) && rows > 0 ==> final(self).timeline_start_minute <= MINUTES_PER_DAY - 30 * smaller(
                rows as int,
                ROWS_PER_DAY as int,
            ),
    {
        if self.timeline_viewport_owner != TimelineViewportOwner::Auto {
            return;
        }
        let clock = local_now();
        let start: u16 = self.smart_timeline_start_minute_at(rows, clock);
        if self.view == View::Day || self.view == View::Week {
            self.timeline_start_minute = start;
        }
    }
}

proof fn lemma_best_row_in_range(items: Seq<DayItem>, rows: int, preferred: int, n: int)
    requires
        n >= 1,
    ensures
        0 <= best_row(items, rows, preferred, n) < n,
    decreases n,
{
    if n > 1 {
        lemma_best_row_in_range(items, rows, preferred, n - 1);
    }
}

/// The rows that are shown end with the day at the latest.
pub proof fn law_timeline_stays_in_the_day(
    rows: int,
    items: Seq<DayItem>,
    minute: int,
    active_today: bool,
)
    requires
        rows > 0,
        items_wf(items),
        0 <= minute < MINUTES_PER_DAY,
    ensures
        0 <= timeline_start(rows, items, minute, active_today),
        timeline_start(rows, items, minute, active_today) + smaller(rows, ROWS_PER_DAY as int) * 30
            <= MINUTES_PER_DAY,
{
    let visible = smaller(rows, ROWS_PER_DAY as int);
    let window = visible * 30;
    let last = MINUTES_PER_DAY - window;
    match (nearby(items, minute), earliest(items)) {
        (None, Some(first)) => {
            let preferred = smaller(less(first, 60), last);
            lemma_best_row_in_range(items, visible, preferred, last / 30 + 1);
        },
        _ => {},
    }
}

/// Events of six hours and more do not move the timeline.
pub proof fn law_background_does_not_count(
    rows: int,
    items: Seq<DayItem>,
    long: DayItem,
    minute: int,
    active_today: bool,
)
    requires
        !long.useful(),
    ensures
        timeline_start(rows, items.push(long), minute, active_today) == timeline_start(
            rows,
            items,
            minute,
            active_today,
        ),
{
    let more = items.push(long);
    assert(more.drop_last() =~= items);
    assert(nearby(more, minute) == nearby(items, minute));
    assert(earliest(more) == earliest(items));
    assert forall|row: int| activity(more, row) == activity(items, row) by {}
    let visible = smaller(rows, ROWS_PER_DAY as int);
    let last = MINUTES_PER_DAY - visible * 30;
    match earliest(items) {
        Some(first) => {
            let preferred = smaller(less(first, 60), last);
            lemma_same_best(more, items, visible, preferred, last / 30 + 1);
        },
        None => {},
    }
}

proof fn lemma_same_score(a: Seq<DayItem>, b: Seq<DayItem>, from: int, to: int)
    requires
        forall|row: int| activity(a, row) == activity(b, row),
    ensures
        score(a, from, to) == score(b, from, to),
    decreases to - from,
{
    if from < to {
        lemma_same_score(a, b, from, to - 1);
    }
}

proof fn lemma_same_best(a: Seq<DayItem>, b: Seq<DayItem>, rows: int, preferred: int, n: int)
    requires
        forall|row: int| activity(a, row) == activity(b, row),
    ensures
        best_row(a, rows, preferred, n) == best_row(b, rows, preferred, n),
    decreases n,
{
    if n > 1 {
        lemma_same_best(a, b, rows, preferred, n - 1);
        let best = best_row(b, rows, preferred, n - 1);
        let end = |row: int|
            if row + rows < ROWS_PER_DAY {
                row + rows
            } else {
                ROWS_PER_DAY as int
            };
        lemma_same_score(a, b, n - 1, end(n - 1));
        lemma_same_score(a, b, best, end(best));
    }
}

/// Whether an item counts for where the timeline starts.
pub open spec fn is_useful() -> spec_fn(DayItem) -> bool {
    |item: DayItem| item.useful()
}

proof fn lemma_useful(items: Seq<DayItem>, minute: int)
    ensures
        earliest(items.filter(is_useful())) == earliest(items),
        nearby(items.filter(is_useful()), minute) == nearby(items, minute),
        forall|row: int| #[trigger]
            activity(items.filter(is_useful()), row) == activity(items, row),
    decreases items.len(),
{
    reveal(Seq::filter);
    if items.len() > 0 {
        let t = items.drop_last();
        let kept = items.filter(is_useful());
        lemma_useful(t, minute);
        if items.last().useful() {
            assert(kept.drop_last() =~= t.filter(is_useful()));
            assert(kept.last() == items.last());
        }
        assert forall|row: int| #[trigger] activity(kept, row) == activity(items, row) by {
            assert(activity(t.filter(is_useful()), row) == activity(t, row));
        }
    }
}

/// The timeline starts by the useful events alone.
pub proof fn law_only_useful_events_count(
    rows: int,
    items: Seq<DayItem>,
    minute: int,
    active_today: bool,
)
    ensures
        timeline_start(rows, items.filter(is_useful()), minute, active_today) == timeline_start(
            rows,
            items,
            minute,
            active_today,
        ),
{
    let kept = items.filter(is_useful());
    lemma_useful(items, minute);
    let visible = smaller(rows, ROWS_PER_DAY as int);
    let last = MINUTES_PER_DAY - visible * 30;
    match earliest(items) {
        Some(first) => {
            let preferred = smaller(less(first, 60), last);
            lemma_same_best(kept, items, visible, preferred, last / 30 + 1);
        },
        None => {},
    }
}

/// What an event has on each of a number of days, by what is found.
pub open spec fn row_read(
    index: int,
    days: int,
    found: spec_fn(int, int) -> Option<TimelineItem>,
) -> Seq<Option<TimelineItem>> {
    Seq::new(days as nat, |d: int| found(index, d))
}

/// What events have on each of a number of days, by what is found.
pub open spec fn rows_read(
    list: Seq<int>,
    days: int,
    found: spec_fn(int, int) -> Option<TimelineItem>,
) -> Seq<Seq<Option<TimelineItem>>> {
    Seq::new(list.len(), |k: int| row_read(list[k], days, found))
}

impl App {
    /// The number of the shown days.
    pub open spec fn shown_days(self) -> int {
        let (first, end) = self.window();
        if end.day > first.day {
            end.day - first.day
        } else {
            0
        }
    }

    /// Whether a clock may show that the shown dates begin at two instants, and what is found of
    /// each shown event on each shown day, counted from the first.
    pub open spec fn reads(
        self,
        start: Timestamp,
        end: Timestamp,
        found: spec_fn(int, int) -> Option<TimelineItem>,
    ) -> bool {
        &&& near_midnight(start, self.window().0) && near_midnight(end, self.window().1)
        &&& forall|i: int, d: int|
            self.shown_between(start, end).contains(i) && 0 <= d < self.shown_days() ==> {
                let event = self.snapshot.events@[i];
                may_be_item(
                    i as usize,
                    event.start,
                    event.end,
                    event.all_day,
                    Date { day: (self.window().0.day + d) as i32 },
                    #[trigger] found(i, d),
                )
            }
    }

    /// The items of the shown events on the shown days, by what is read.
    pub open spec fn items_read(
        self,
        start: Timestamp,
        end: Timestamp,
        found: spec_fn(int, int) -> Option<TimelineItem>,
        today: Date,
    ) -> Seq<DayItem> {
        all_items(
            rows_read(self.shown_between(start, end), self.shown_days(), found),
            self.window().0.day as int,
            today,
        )
    }
}

/// The items by which a timeline is positioned are those of some reading.
pub proof fn law_items_are_read(app: App, today: Date, items: Seq<DayItem>)
    requires
        app.may_hold_all(today, items),
    ensures
        exists|start: Timestamp, end: Timestamp, found: spec_fn(int, int) -> Option<TimelineItem>|
            app.reads(start, end, found) && items == #[trigger] app.items_read(
                start,
                end,
                found,
                today,
            ),
{
    let first = app.window().0.day as int;
    let (list, rows) = choose|list: Seq<int>, rows: Seq<Seq<Option<TimelineItem>>>|
        app.may_show(list) && #[trigger] app.are_rows(list, rows) && items == all_items(
            rows,
            first,
            today,
        );
    let (start, end) = choose|start: Timestamp, end: Timestamp|
        near_midnight(start, app.window().0) && near_midnight(end, app.window().1) && list
            == #[trigger] app.shown_between(start, end);
    law_shown_events_are_complete(app, start, end);
    let found = |i: int, d: int| rows[list.index_of(i)][d];
    let read = rows_read(list, app.shown_days(), found);
    assert forall|k: int| 0 <= k < list.len() implies #[trigger] read[k] == rows[k] by {
        assert(list.index_of(list[k]) == k);
        assert(rows[k].len() == app.shown_days());
        assert(read[k] =~= rows[k]);
    }
    assert(read =~= rows);
    assert forall|i: int, d: int|
        app.shown_between(start, end).contains(i) && 0 <= d < app.shown_days() implies {
        let event = app.snapshot.events@[i];
        may_be_item(
            i as usize,
            event.start,
            event.end,
            event.all_day,
            Date { day: (first + d) as i32 },
            #[trigger] found(i, d),
        )
    } by {
        let k = list.index_of(i);
        assert(list[k] == i);
        assert(rows[k].len() == app.shown_days());
        assert(found(i, d) == rows[k][d]);
    }
    assert(app.reads(start, end, found));
    assert(items == app.items_read(start, end, found, today));
}

proof fn lemma_background_row(row: Seq<Option<TimelineItem>>, first: int, today: Date)
    requires
        forall|d: int|
            0 <= d < row.len() ==> (#[trigger] row[d] matches Some(item) ==> item.end_minute
                - item.start_minute >= LONG_EVENT_MINUTES),
    ensures
        event_items(row, first, today).filter(is_useful()) == Seq::<DayItem>::empty(),
    decreases row.len(),
{
    reveal(Seq::filter);
    if row.len() > 0 {
        let t = row.drop_last();
        assert forall|d: int| 0 <= d < t.len() implies (#[trigger] t[d] matches Some(item) ==>
            item.end_minute - item.start_minute >= LONG_EVENT_MINUTES) by {
            assert(t[d] == row[d]);
        }
        lemma_background_row(t, first, today);
        let items = event_items(row, first, today);
        assert(row[row.len() - 1] == row.last());
        if row.last() is Some {
            assert(items.drop_last() =~= event_items(t, first, today));
            assert(!items.last().useful());
        }
    }
}

proof fn lemma_background_rows(
    list: Seq<int>,
    n: int,
    days: int,
    found: spec_fn(int, int) -> Option<TimelineItem>,
    first: int,
    today: Date,
)
    requires
        0 <= days,
        forall|i: int, d: int|
            list.contains(i) && n <= i && 0 <= d < days ==> (#[trigger] found(i, d) matches Some(
                item,
            ) ==> item.end_minute - item.start_minute >= LONG_EVENT_MINUTES),
    ensures
        all_items(rows_read(list, days, found), first, today).filter(is_useful()) == all_items(
            rows_read(list.filter(below(n)), days, found),
            first,
            today,
        ).filter(is_useful()),
    decreases list.len(),
{
    reveal(Seq::filter);
    if list.len() > 0 {
        let t = list.drop_last();
        let last = list.last();
        assert(list[list.len() - 1] == last);
        assert(list.contains(last));
        assert forall|i: int| #[trigger] t.contains(i) implies list.contains(i) by {
            let k = choose|k: int| 0 <= k < t.len() && t[k] == i;
            assert(list[k] == i);
        }
        lemma_background_rows(t, n, days, found, first, today);
        let rows = rows_read(list, days, found);
        let row = row_read(last, days, found);
        assert(rows.drop_last() =~= rows_read(t, days, found));
        assert(rows.last() == row);
        Seq::filter_distributes_over_add(
            all_items(rows_read(t, days, found), first, today),
            event_items(row, first, today),
            is_useful(),
        );
        let kept = t.filter(below(n));
        if last < n {
            let rows = rows_read(kept.push(last), days, found);
            assert(list.filter(below(n)) =~= kept.push(last));
            assert(rows.drop_last() =~= rows_read(kept, days, found));
            assert(rows.last() == row);
            Seq::filter_distributes_over_add(
                all_items(rows_read(kept, days, found), first, today),
                event_items(row, first, today),
                is_useful(),
            );
        } else {
            assert(list.filter(below(n)) =~= kept);
            assert forall|d: int| 0 <= d < row.len() implies (#[trigger] row[d] matches Some(item)
                ==> item.end_minute - item.start_minute >= LONG_EVENT_MINUTES) by {
                assert(row[d] == found(last, d));
            }
            lemma_background_row(row, first, today);
        }
    }
}

/// Further events that last all day, or for six hours and more on each shown day, do not move the
/// timeline, whatever the clock shows.
pub proof fn law_background_keeps_the_timeline(
    app: App,
    more: App,
    start: Timestamp,
    end: Timestamp,
    found: spec_fn(int, int) -> Option<TimelineItem>,
    rows: int,
    clock: WallTime,
)
    requires
        more == (App { snapshot: more.snapshot, ..app }),
        more.snapshot.calendars == app.snapshot.calendars,
        app.snapshot.events@.len() <= more.snapshot.events@.len(),
        app.snapshot.events@ == more.snapshot.events@.take(app.snapshot.events@.len() as int),
        more.reads(start, end, found),
        forall|i: int, d: int|
            app.snapshot.events@.len() <= i < more.snapshot.events@.len() && 0 <= d
                < more.shown_days() ==> more.snapshot.events@[i].all_day || (#[trigger] found(
                i,
                d,
            ) matches Some(item) ==> item.end_minute - item.start_minute >= LONG_EVENT_MINUTES),
    ensures
        more.smart_start(rows, more.items_read(start, end, found, clock.date), clock)
            == app.smart_start(rows, app.items_read(start, end, found, clock.date), clock),
{
    let few = app.snapshot.events@;
    let many = more.snapshot.events@;
    let calendars = app.snapshot.calendars@;
    let dates = app.window();
    let n = few.len() as int;
    let all = more.shown_between(start, end);
    let shown = app.shown_between(start, end);
    let chosen = |i: int| is_shown(few[i], calendars, dates, start, end);
    let more_chosen = |i: int| is_shown(many[i], calendars, dates, start, end);
    assert forall|i: int| 0 <= i < n implies #[trigger] event_keys(few)[i] == event_keys(
        many,
    )[i] by {
        assert(few[i] == many[i]);
    }
    assert forall|i: int| 0 <= i < n implies #[trigger] chosen(i) == more_chosen(i) by {
        assert(few[i] == many[i]);
    }
    law_later_indices_keep_the_order(
        event_keys(few),
        chosen,
        n,
        event_keys(many),
        more_chosen,
        many.len() as int,
    );
    assert(all.filter(below(n)) == shown);
    law_shown_events_are_complete(more, start, end);
    let days = more.shown_days();
    let first = dates.0.day as int;
    assert forall|i: int, d: int| all.contains(i) && n <= i && 0 <= d < days implies (
    #[trigger] found(i, d) matches Some(item) ==> item.end_minute - item.start_minute
        >= LONG_EVENT_MINUTES) by {}
    lemma_background_rows(all, n, days, found, first, clock.date);
    let minute = clock.minute_of_day();
    let active_today = app.active_date == clock.date;
    law_only_useful_events_count(
        rows,
        more.items_read(start, end, found, clock.date),
        minute,
        active_today,
    );
    law_only_useful_events_count(
        rows,
        app.items_read(start, end, found, clock.date),
        minute,
        active_today,
    );
}

proof fn lemma_elsewhere(
    rows: Seq<Seq<Option<TimelineItem>>>,
    days: int,
    first: int,
    a: Date,
    b: Date,
)
    requires
        forall|k: int| 0 <= k < rows.len() ==> (#[trigger] rows[k]).len() == days,
        a.day < first || a.day >= first + days,
        b.day < first || b.day >= first + days,
    ensures
        all_items(rows, first, a) == all_items(rows, first, b),
        forall|i: int|
            0 <= i < all_items(rows, first, a).len() ==> !(#[trigger] all_items(
                rows,
                first,
                a,
            )[i]).today,
    decreases rows.len(),
{
    if rows.len() > 0 {
        let t = rows.drop_last();
        assert forall|k: int| 0 <= k < t.len() implies (#[trigger] t[k]).len() == days by {
            assert(t[k] == rows[k]);
        }
        lemma_elsewhere(t, days, first, a, b);
        assert(rows[rows.len() - 1].len() == days);
        lemma_row_elsewhere(rows.last(), days, first, a, b);
    }
}

proof fn lemma_row_elsewhere(
    row: Seq<Option<TimelineItem>>,
    days: int,
    first: int,
    a: Date,
    b: Date,
)
    requires
        row.len() <= days,
        a.day < first || a.day >= first + days,
        b.day < first || b.day >= first + days,
    ensures
        event_items(row, first, a) == event_items(row, first, b),
        forall|i: int|
            0 <= i < event_items(row, first, a).len() ==> !(#[trigger] event_items(
                row,
                first,
                a,
            )[i]).today,
    decreases row.len(),
{
    if row.len() > 0 {
        lemma_row_elsewhere(row.drop_last(), days, first, a, b);
    }
}

proof fn lemma_none_nearby(items: Seq<DayItem>, minute: int)
    requires
        forall|i: int| 0 <= i < items.len() ==> !(#[trigger] items[i]).today,
    ensures
        nearby(items, minute) is None,
    decreases items.len(),
{
    if items.len() > 0 {
        assert(!items[items.len() - 1].today);
        let t = items.drop_last();
        assert forall|i: int| 0 <= i < t.len() implies !(#[trigger] t[i]).today by {
            assert(t[i] == items[i]);
        }
        lemma_none_nearby(t, minute);
    }
}

/// While the clock's date is not among the shown ones, the timeline does not depend on what the
/// clock shows.
pub proof fn law_far_clocks_do_not_count(
    app: App,
    start: Timestamp,
    end: Timestamp,
    found: spec_fn(int, int) -> Option<TimelineItem>,
    rows: int,
    clock: WallTime,
    other: WallTime,
)
    requires
        clock.date.day < app.window().0.day || clock.date.day >= app.window().1.day,
        other.date.day < app.window().0.day || other.date.day >= app.window().1.day,
        clock.date != app.active_date,
        other.date != app.active_date,
    ensures
        app.smart_start(rows, app.items_read(start, end, found, clock.date), clock)
            == app.smart_start(rows, app.items_read(start, end, found, other.date), other),
{
    let first = app.window().0.day as int;
    let read = rows_read(app.shown_between(start, end), app.shown_days(), found);
    if app.shown_days() > 0 {
        lemma_elsewhere(read, app.shown_days(), first, clock.date, other.date);
    } else {
        lemma_no_days(read, first, clock.date);
        lemma_no_days(read, first, other.date);
    }
    let items = app.items_read(start, end, found, clock.date);
    lemma_none_nearby(items, clock.minute_of_day());
    lemma_none_nearby(items, other.minute_of_day());
}

proof fn lemma_no_days(rows: Seq<Seq<Option<TimelineItem>>>, first: int, today: Date)
    requires
        forall|k: int| 0 <= k < rows.len() ==> (#[trigger] rows[k]).len() == 0,
    ensures
        all_items(rows, first, today) == Seq::<DayItem>::empty(),
    decreases rows.len(),
{
    if rows.len() > 0 {
        let t = rows.drop_last();
        assert forall|k: int| 0 <= k < t.len() implies (#[trigger] t[k]).len() == 0 by {
            assert(t[k] == rows[k]);
        }
        lemma_no_days(t, first, today);
        assert(rows[rows.len() - 1].len() == 0);
        assert(event_items(rows.last(), first, today) =~= Seq::<DayItem>::empty());
    }
}

} // verus!
