//! Which times have been fetched from the provider. A time in which there was no event counts as
//! fetched too.

use crate::seqs::{lemma_filter_all, lemma_filter_remove};
use crate::sorting::{
    indices, key_less, key_views, law_order_is_complete, law_order_is_sorted, lemma_same_choice,
    order_chosen, ordered,
};
use crate::time::Timestamp;
use vstd::prelude::*;

verus! {

/// The instants from a first one to before a last one.
#[derive(Clone, Copy, Debug, PartialEq, Eq, Structural)]
pub struct DateRange {
    pub start: Timestamp,
    pub end: Timestamp,
}

impl DateRange {
    /// Whether an instant is in the range.
    pub open spec fn holds(self, t: int) -> bool {
        self.start.nanos <= t < self.end.nanos
    }

    /// Whether there is an instant in the range.
    pub open spec fn wf(self) -> bool {
        self.start.nanos < self.end.nanos
    }
}

/// Whether an instant is in one of some ranges.
pub open spec fn covers(ranges: Seq<DateRange>, t: int) -> bool {
    exists|i: int| 0 <= i < ranges.len() && (#[trigger] ranges[i]).holds(t)
}

/// Whether every instant of a range is in one of some ranges.
pub open spec fn covers_all(ranges: Seq<DateRange>, range: DateRange) -> bool {
    forall|t: int| range.holds(t) ==> #[trigger] covers(ranges, t)
}

/// Whether all ranges hold an instant.
pub open spec fn ranges_wf(ranges: Seq<DateRange>) -> bool {
    forall|i: int| 0 <= i < ranges.len() ==> (#[trigger] ranges[i]).wf()
}

/// Whether there is time between two ranges.
pub open spec fn apart(a: DateRange, b: DateRange) -> bool {
    a.end.nanos < b.start.nanos || b.end.nanos < a.start.nanos
}

/// Whether the ranges hold an instant each, and there is time between any two.
pub open spec fn compact(ranges: Seq<DateRange>) -> bool {
    &&& ranges_wf(ranges)
    &&& forall|i: int, j: int|
        0 <= i < ranges.len() && 0 <= j < ranges.len() && i != j ==> apart(
            #[trigger] ranges[i],
            #[trigger] ranges[j],
        )
}

/// Whether a range meets another, or begins or ends where that one ends or begins.
pub open spec fn touches(range: DateRange, other: DateRange) -> bool {
    range.start.nanos <= other.end.nanos && range.end.nanos >= other.start.nanos
}

/// Whether a range does not meet or touch another.
pub open spec fn untouched_by(other: DateRange) -> spec_fn(DateRange) -> bool {
    |range: DateRange| !touches(range, other)
}

/// The smaller of two instants.
pub open spec fn earlier(a: Timestamp, b: Timestamp) -> Timestamp {
    if b.nanos < a.nanos {
        b
    } else {
        a
    }
}

/// The greater of two instants.
pub open spec fn later(a: Timestamp, b: Timestamp) -> Timestamp {
    if b.nanos > a.nanos {
        b
    } else {
        a
    }
}

/// A range, and the ranges that it touches, in one.
pub open spec fn merged(ranges: Seq<DateRange>, range: DateRange) -> DateRange
    decreases ranges.len(),
{
    if ranges.len() == 0 {
        range
    } else {
        let rest = merged(ranges.drop_last(), range);
        let last = ranges.last();
        if touches(last, range) {
            DateRange { start: earlier(rest.start, last.start), end: later(rest.end, last.end) }
        } else {
            rest
        }
    }
}

/// The ranges that are fetched once another is: those that it touches become one with it.
pub open spec fn recorded(ranges: Seq<DateRange>, range: DateRange) -> Seq<DateRange> {
    ranges.filter(untouched_by(range)).push(merged(ranges, range))
}

fn touches_range(range: DateRange, other: DateRange) -> (r: bool)
    ensures
        r == touches(range, other),
{
    range.start.nanos <= other.end.nanos && range.end.nanos >= other.start.nanos
}

/// Notes that a range has been fetched.
pub fn record_fetched_range(ranges: &mut Vec<DateRange>, start: Timestamp, end: Timestamp)
    ensures
        final(ranges)@ == recorded(old(ranges)@, DateRange { start, end }),
{
    let range = DateRange { start, end };
    let mut whole = range;
    let mut i: usize = 0;
    proof {
        assert(ranges@.take(0) =~= Seq::<DateRange>::empty());
    }
    while i < ranges.len()
        invariant
            i <= ranges@.len(),
            ranges@ == old(ranges)@,
            whole == merged(ranges@.take(i as int), range),
        decreases ranges@.len() - i,
    {
        let next = ranges[i];
        proof {
            assert(ranges@.take(i + 1).drop_last() =~= ranges@.take(i as int));
            assert(ranges@.take(i + 1).last() == next);
        }
        if touches_range(next, range) {
            if next.start.nanos < whole.start.nanos {
                whole = DateRange { start: next.start, end: whole.end };
            }
            if next.end.nanos > whole.end.nanos {
                whole = DateRange { start: whole.start, end: next.end };
            }
        }
        i += 1;
    }
    proof {
        assert(ranges@.take(i as int) =~= ranges@);
    }
    let ghost kept = untouched_by(range);
    let mut k: usize = 0;
    while k < ranges.len()
        invariant
            k <= ranges@.len(),
            kept == untouched_by(range),
            ranges@.filter(kept) == old(ranges)@.filter(kept),
            forall|j: int| 0 <= j < k ==> kept(#[trigger] ranges@[j]),
        decreases ranges@.len() - k,
    {
        if touches_range(ranges[k], range) {
            proof {
                lemma_filter_remove(ranges@, kept, k as int);
            }
            ranges.remove(k);
        } else {
            k += 1;
        }
    }
    proof {
        lemma_filter_all(ranges@, kept);
    }
    ranges.push(whole);
}

/// Whether a range meets another.
pub open spec fn meets(range: DateRange, other: DateRange) -> bool {
    range.end.nanos > other.start.nanos && range.start.nanos < other.end.nanos
}

/// Takes out the ranges that do not meet another.
pub fn prune_ranges(ranges: &mut Vec<DateRange>, start: Timestamp, end: Timestamp)
    ensures
        final(ranges)@ == old(ranges)@.filter(
            |range: DateRange| meets(range, DateRange { start, end }),
        ),
{
    let ghost kept = |range: DateRange| meets(range, DateRange { start, end });
    let mut k: usize = 0;
    while k < ranges.len()
        invariant
            k <= ranges@.len(),
            kept == (|range: DateRange| meets(range, DateRange { start, end })),
            ranges@.filter(kept) == old(ranges)@.filter(kept),
            forall|j: int| 0 <= j < k ==> kept(#[trigger] ranges@[j]),
        decreases ranges@.len() - k,
    {
        if ranges[k].end.nanos <= start.nanos || ranges[k].start.nanos >= end.nanos {
            proof {
                lemma_filter_remove(ranges@, kept, k as int);
            }
            ranges.remove(k);
        } else {
            k += 1;
        }
    }
    proof {
        lemma_filter_all(ranges@, kept);
    }
}

/// Ranges by their start and end.
pub open spec fn range_keys(ranges: Seq<DateRange>) -> Seq<Seq<i128>> {
    ranges.map_values(|range: DateRange| seq![range.start.nanos, range.end.nanos])
}

fn keys_of(ranges: &Vec<DateRange>) -> (r: Vec<Vec<i128>>)
    ensures
        key_views(r@) == range_keys(ranges@),
        r@.len() == ranges@.len(),
{
    let mut keys: Vec<Vec<i128>> = Vec::new();
    let mut i: usize = 0;
    while i < ranges.len()
        invariant
            i <= ranges@.len(),
            keys@.len() == i,
            forall|j: int|
                0 <= j < i ==> (#[trigger] keys@[j])@ == seq![
                    ranges@[j].start.nanos,
                    ranges@[j].end.nanos,
                ],
        decreases ranges@.len() - i,
    {
        let mut key: Vec<i128> = Vec::new();
        key.push(ranges[i].start.nanos);
        key.push(ranges[i].end.nanos);
        proof {
            assert(key@ =~= seq![
                ranges@[i as int].start.nanos,
                ranges@[i as int].end.nanos,
            ]);
        }
        keys.push(key);
        i += 1;
    }
    proof {
        assert(key_views(keys@) =~= range_keys(ranges@));
    }
    keys
}

/// The ranges that meet another, in the order of their starts.
fn meeting(ranges: &Vec<DateRange>, range: DateRange) -> (r: Vec<DateRange>)
    ensures
        forall|i: int, j: int|
            0 <= i < j < r@.len() ==> (#[trigger] r@[i]).start.nanos <= (
            #[trigger] r@[j]).start.nanos,
        forall|i: int| 0 <= i < r@.len() ==> ranges@.contains(#[trigger] r@[i]),
        forall|k: int|
            0 <= k < ranges@.len() && meets(#[trigger] ranges@[k], range) ==> r@.contains(
                ranges@[k],
            ),
{
    let keys = keys_of(ranges);
    let mut chosen: Vec<bool> = Vec::new();
    let mut i: usize = 0;
    while i < ranges.len()
        invariant
            i <= ranges@.len(),
            chosen@.len() == i,
            forall|j: int| 0 <= j < i ==> #[trigger] chosen@[j] == meets(ranges@[j], range),
        decreases ranges@.len() - i,
    {
        chosen.push(
            ranges[i].end.nanos > range.start.nanos && ranges[i].start.nanos < range.end.nanos,
        );
        i += 1;
    }
    let list = order_chosen(&keys, &chosen);
    let ghost picks = |i: int| chosen@[i];
    let ghost order = ordered(range_keys(ranges@), picks, ranges@.len() as int);
    let mut r: Vec<DateRange> = Vec::new();
    let mut k: usize = 0;
    while k < list.len()
        invariant
            k <= list@.len(),
            r@.len() == k,
            forall|i: int| 0 <= i < list@.len() ==> #[trigger] list@[i] < ranges@.len(),
            forall|i: int| 0 <= i < k ==> #[trigger] r@[i] == ranges@[list@[i] as int],
        decreases list@.len() - k,
    {
        r.push(ranges[list[k]]);
        k += 1;
    }
    proof {
        law_order_is_complete(range_keys(ranges@), picks, ranges@.len() as int);
        law_order_is_sorted(range_keys(ranges@), picks, ranges@.len() as int);
        assert(indices(list@) == order);
        assert forall|i: int, j: int| 0 <= i < j < r@.len() implies (
        #[trigger] r@[i]).start.nanos <= (#[trigger] r@[j]).start.nanos by {
            assert(order[i] == list@[i]);
            assert(order[j] == list@[j]);
            assert(!key_less(range_keys(ranges@)[order[j]], range_keys(ranges@)[order[i]]));
        }
        assert forall|k: int|
            0 <= k < ranges@.len() && meets(#[trigger] ranges@[k], range) implies r@.contains(
            ranges@[k],
        ) by {
            assert(chosen@[k]);
            assert(picks(k));
            assert(order.contains(k));
            let at = choose|at: int| 0 <= at < order.len() && order[at] == k;
            assert(list@[at] == k);
            assert(r@[at] == ranges@[k]);
        }
    }
    r
}

/// Whether every instant from `start` to before `end` has been fetched. That is said of no empty
/// range.
pub fn range_is_fetched(ranges: &Vec<DateRange>, start: Timestamp, end: Timestamp) -> (r: bool)
    ensures
        r == (start.nanos < end.nanos && covers_all(ranges@, DateRange { start, end })),
{
    if end.nanos <= start.nanos {
        return false;
    }
    let range = DateRange { start, end };
    let found = meeting(ranges, range);
    let mut until = start;
    let mut k: usize = 0;
    while k < found.len()
        invariant
            k <= found@.len(),
            range == (DateRange { start, end }),
            start.nanos <= until.nanos < end.nanos,
            forall|t: int| start.nanos <= t < until.nanos ==> #[trigger] covers(ranges@, t),
            forall|i: int| 0 <= i < k ==> (#[trigger] found@[i]).end.nanos <= until.nanos,
            forall|i: int, j: int|
                0 <= i < j < found@.len() ==> (#[trigger] found@[i]).start.nanos <= (
                #[trigger] found@[j]).start.nanos,
            forall|i: int| 0 <= i < found@.len() ==> ranges@.contains(#[trigger] found@[i]),
            forall|m: int|
                0 <= m < ranges@.len() && meets(#[trigger] ranges@[m], range) ==> found@.contains(
                    ranges@[m],
                ),
        decreases found@.len() - k,
    {
        let next = found[k];
        if next.start.nanos > until.nanos {
            proof {
                lemma_uncovered(ranges@, found@, range, k as int, until.nanos as int);
                assert(range.holds(until.nanos as int));
            }
            return false;
        }
        let ghost before = until;
        if next.end.nanos > until.nanos {
            until = next.end;
        }
        proof {
            assert forall|t: int| start.nanos <= t < until.nanos implies #[trigger] covers(
                ranges@,
                t,
            ) by {
                if t >= before.nanos {
                    let m = choose|m: int| 0 <= m < ranges@.len() && ranges@[m] == found@[k as int];
                    assert(ranges@[m].holds(t));
                }
            }
        }
        if until.nanos >= end.nanos {
            return true;
        }
        k += 1;
    }
    proof {
        lemma_uncovered(ranges@, found@, range, k as int, until.nanos as int);
        assert(range.holds(until.nanos as int));
    }
    false
}

proof fn lemma_uncovered(
    ranges: Seq<DateRange>,
    found: Seq<DateRange>,
    range: DateRange,
    k: int,
    t: int,
)
    requires
        0 <= k <= found.len(),
        range.holds(t),
        forall|i: int| 0 <= i < k ==> (#[trigger] found[i]).end.nanos <= t,
        k < found.len() ==> t < found[k].start.nanos,
        forall|i: int, j: int|
            0 <= i < j < found.len() ==> (#[trigger] found[i]).start.nanos <= (
            #[trigger] found[j]).start.nanos,
        forall|m: int|
            0 <= m < ranges.len() && meets(#[trigger] ranges[m], range) ==> found.contains(
                ranges[m],
            ),
    ensures
        !covers(ranges, t),
{
    if covers(ranges, t) {
        let m = choose|m: int| 0 <= m < ranges.len() && (#[trigger] ranges[m]).holds(t);
        assert(meets(ranges[m], range));
        assert(found.contains(ranges[m]));
        let at = choose|at: int| 0 <= at < found.len() && found[at] == ranges[m];
        if at > k {
            assert(found[k].start.nanos <= found[at].start.nanos);
        }
    }
}

/// The parts of a range that have not been fetched: they hold the instants that no fetched range
/// holds, and between any two of them there is time that has been fetched.
pub open spec fn are_missing(
    ranges: Seq<DateRange>,
    range: DateRange,
    missing: Seq<DateRange>,
) -> bool {
    &&& ranges_wf(missing)
    &&& forall|t: int| #[trigger]
        covers(missing, t) <==> range.holds(t) && !covers(ranges, t)
    &&& ranges_wf(ranges) ==> forall|i: int|
        0 <= i < missing.len() - 1 ==> (#[trigger] missing[i]).end.nanos < missing[i
            + 1].start.nanos
}

/// The parts of a range that have not been fetched.
pub fn missing_ranges(ranges: &Vec<DateRange>, start: Timestamp, end: Timestamp) -> (r: Vec<
    DateRange,
>)
    ensures
        are_missing(ranges@, DateRange { start, end }, r@),
{
    let mut missing: Vec<DateRange> = Vec::new();
    let range = DateRange { start, end };
    if end.nanos <= start.nanos {
        return missing;
    }
    let found = meeting(ranges, range);
    let mut cursor = start;
    let mut k: usize = 0;
    while k < found.len() && cursor.nanos < end.nanos
        invariant
            k <= found@.len(),
            range == (DateRange { start, end }),
            start.nanos < end.nanos,
            start.nanos <= cursor.nanos,
            ranges_wf(missing@),
            forall|t: int| #[trigger]
                covers(missing@, t) ==> range.holds(t) && !covers(ranges@, t),
            forall|t: int|
                range.holds(t) && t < cursor.nanos && !(#[trigger] covers(ranges@, t)) ==> covers(
                    missing@,
                    t,
                ),
            ranges_wf(ranges@) && missing@.len() > 0 ==> missing@.last().end.nanos < cursor.nanos,
            ranges_wf(ranges@) ==> forall|i: int|
                0 <= i < missing@.len() - 1 ==> (#[trigger] missing@[i]).end.nanos < missing@[i
                    + 1].start.nanos,
            forall|i: int| 0 <= i < k ==> (#[trigger] found@[i]).end.nanos <= cursor.nanos,
            forall|i: int, j: int|
                0 <= i < j < found@.len() ==> (#[trigger] found@[i]).start.nanos <= (
                #[trigger] found@[j]).start.nanos,
            forall|i: int| 0 <= i < found@.len() ==> ranges@.contains(#[trigger] found@[i]),
            forall|m: int|
                0 <= m < ranges@.len() && meets(#[trigger] ranges@[m], range) ==> found@.contains(
                    ranges@[m],
                ),
        decreases found@.len() - k,
    {
        let next = found[k];
        let ghost m = choose|m: int| 0 <= m < ranges@.len() && ranges@[m] == found@[k as int];
        proof {
            assert(ranges@.contains(found@[k as int]));
            assert(ranges@[m] == next);
        }
        let ghost old_cursor = cursor;
        let ghost before = missing@;
        if next.start.nanos > cursor.nanos {
            let to = if next.start.nanos < end.nanos {
                next.start
            } else {
                end
            };
            let gap = DateRange { start: cursor, end: to };
            missing.push(gap);
            proof {
                lemma_covers_push(before, gap);
                assert forall|t: int| gap.holds(t) implies !covers(ranges@, t) by {
                    lemma_uncovered(ranges@, found@, range, k as int, t);
                }
            }
        }
        if next.end.nanos > cursor.nanos {
            cursor = next.end;
        }
        proof {
            assert forall|t: int|
                range.holds(t) && t < cursor.nanos && !(#[trigger] covers(
                    ranges@,
                    t,
                )) implies covers(missing@, t) by {
                if t < old_cursor.nanos {
                    assert(covers(before, t));
                } else {
                    assert(!ranges@[m].holds(t));
                }
            }
        }
        k += 1;
    }
    if cursor.nanos < end.nanos {
        let gap = DateRange { start: cursor, end };
        let ghost before = missing@;
        missing.push(gap);
        proof {
            lemma_covers_push(before, gap);
            assert forall|t: int| gap.holds(t) implies !covers(ranges@, t) by {
                lemma_uncovered(ranges@, found@, range, k as int, t);
            }
        }
    }
    missing
}

proof fn lemma_covers_push(ranges: Seq<DateRange>, range: DateRange)
    ensures
        forall|t: int| #[trigger]
            covers(ranges.push(range), t) <==> covers(ranges, t) || range.holds(t),
{
    let after = ranges.push(range);
    assert forall|t: int| #[trigger] covers(after, t) <==> covers(ranges, t) || range.holds(t) by {
        if covers(ranges, t) {
            let i = choose|i: int| 0 <= i < ranges.len() && (#[trigger] ranges[i]).holds(t);
            assert(after[i].holds(t));
        }
        if range.holds(t) {
            assert(after[ranges.len() as int].holds(t));
        }
        if covers(after, t) {
            let i = choose|i: int| 0 <= i < after.len() && (#[trigger] after[i]).holds(t);
            if i < ranges.len() {
                assert(ranges[i].holds(t));
            }
        }
    }
}

/// What is fetched from an instant on, in the order of starts: the ranges that end after it, none of
/// them from before it.
pub open spec fn fetched_from(ranges: Seq<DateRange>, start: Timestamp) -> Seq<DateRange> {
    ordered(
        range_keys(ranges),
        |i: int| ranges[i].end.nanos > start.nanos,
        ranges.len() as int,
    ).map_values(
        |i: int| DateRange { start: later(start, ranges[i].start), end: ranges[i].end },
    )
}

/// What is fetched from an instant on.
pub fn fetched_ranges_from(ranges: &Vec<DateRange>, start: Timestamp) -> (r: Vec<DateRange>)
    ensures
        r@ == fetched_from(ranges@, start),
{
    let keys = keys_of(ranges);
    let ghost wanted = |i: int| ranges@[i].end.nanos > start.nanos;
    let mut chosen: Vec<bool> = Vec::new();
    let mut i: usize = 0;
    while i < ranges.len()
        invariant
            i <= ranges@.len(),
            chosen@.len() == i,
            wanted == (|i: int| ranges@[i].end.nanos > start.nanos),
            forall|j: int| 0 <= j < i ==> #[trigger] chosen@[j] == wanted(j),
        decreases ranges@.len() - i,
    {
        chosen.push(ranges[i].end.nanos > start.nanos);
        i += 1;
    }
    let list = order_chosen(&keys, &chosen);
    proof {
        lemma_same_choice(
            range_keys(ranges@),
            |i: int| chosen@[i],
            wanted,
            ranges@.len() as int,
        );
    }
    let mut r: Vec<DateRange> = Vec::new();
    let mut k: usize = 0;
    while k < list.len()
        invariant
            k <= list@.len(),
            r@.len() == k,
            forall|i: int| 0 <= i < list@.len() ==> #[trigger] list@[i] < ranges@.len(),
            forall|i: int|
                0 <= i < k ==> #[trigger] r@[i] == (DateRange {
                    start: later(start, ranges@[list@[i] as int].start),
                    end: ranges@[list@[i] as int].end,
                }),
        decreases list@.len() - k,
    {
        let range = ranges[list[k]];
        r.push(
            DateRange {
                start: if range.start.nanos > start.nanos {
                    range.start
                } else {
                    start
                },
                end: range.end,
            },
        );
        k += 1;
    }
    proof {
        let order = ordered(range_keys(ranges@), wanted, ranges@.len() as int);
        assert(indices(list@) == order);
        assert forall|i: int| 0 <= i < r@.len() implies r@[i] == fetched_from(
            ranges@,
            start,
        )[i] by {
            assert(order[i] == list@[i]);
        }
        assert(r@ =~= fetched_from(ranges@, start));
    }
    r
}

// Laws.

proof fn lemma_merged(ranges: Seq<DateRange>, range: DateRange)
    ensures
        merged(ranges, range).start.nanos <= range.start.nanos,
        merged(ranges, range).end.nanos >= range.end.nanos,
        forall|i: int|
            0 <= i < ranges.len() && touches(#[trigger] ranges[i], range) ==> merged(
                ranges,
                range,
            ).start.nanos <= ranges[i].start.nanos && merged(ranges, range).end.nanos
                >= ranges[i].end.nanos,
        merged(ranges, range).start != range.start ==> exists|i: int|
            0 <= i < ranges.len() && touches(#[trigger] ranges[i], range) && ranges[i].start
                == merged(ranges, range).start,
        merged(ranges, range).end != range.end ==> exists|i: int|
            0 <= i < ranges.len() && touches(#[trigger] ranges[i], range) && ranges[i].end
                == merged(ranges, range).end,
    decreases ranges.len(),
{
    if ranges.len() > 0 {
        let less = ranges.drop_last();
        lemma_merged(less, range);
        let rest = merged(less, range);
        let whole = merged(ranges, range);
        let n = ranges.len() - 1;
        assert forall|i: int|
            0 <= i < ranges.len() && touches(#[trigger] ranges[i], range) implies whole.start.nanos
            <= ranges[i].start.nanos && whole.end.nanos >= ranges[i].end.nanos by {
            if i < n {
                assert(less[i] == ranges[i]);
            }
        }
        if whole.start != range.start {
            if whole.start == rest.start {
                let i = choose|i: int|
                    0 <= i < less.len() && touches(#[trigger] less[i], range) && less[i].start
                        == rest.start;
                assert(touches(ranges[i], range));
            } else {
                assert(touches(ranges[n], range));
            }
        }
        if whole.end != range.end {
            if whole.end == rest.end {
                let i = choose|i: int|
                    0 <= i < less.len() && touches(#[trigger] less[i], range) && less[i].end
                        == rest.end;
                assert(touches(ranges[i], range));
            } else {
                assert(touches(ranges[n], range));
            }
        }
    }
}

proof fn lemma_kept(ranges: Seq<DateRange>, p: spec_fn(DateRange) -> bool)
    ensures
        forall|i: int|
            0 <= i < ranges.filter(p).len() ==> p(#[trigger] ranges.filter(p)[i])
                && ranges.contains(ranges.filter(p)[i]),
        forall|i: int|
            0 <= i < ranges.len() && p(#[trigger] ranges[i]) ==> ranges.filter(p).contains(
                ranges[i],
            ),
    decreases ranges.len(),
{
    reveal(Seq::filter);
    if ranges.len() > 0 {
        let t = ranges.drop_last();
        lemma_kept(t, p);
        let all = ranges.filter(p);
        let less = t.filter(p);
        let n = ranges.len() - 1;
        assert forall|i: int| 0 <= i < all.len() implies p(#[trigger] all[i]) && ranges.contains(
            all[i],
        ) by {
            if i < less.len() {
                assert(all[i] == less[i]);
                let k = choose|k: int| 0 <= k < t.len() && t[k] == less[i];
                assert(ranges[k] == all[i]);
            } else {
                assert(ranges[n] == all[i]);
            }
        }
        assert forall|i: int| 0 <= i < ranges.len() && p(#[trigger] ranges[i]) implies all.contains(
            ranges[i],
        ) by {
            if i < n {
                assert(t[i] == ranges[i]);
                let k = choose|k: int| 0 <= k < less.len() && less[k] == t[i];
                assert(all[k] == ranges[i]);
            } else {
                assert(all[less.len() as int] == ranges[n]);
            }
        }
    }
}

/// Once a range is fetched, exactly its own instants are fetched besides those that were.
pub proof fn law_recording_adds_the_range(ranges: Seq<DateRange>, range: DateRange)
    requires
        ranges_wf(ranges),
        range.wf(),
    ensures
        forall|t: int| #[trigger]
            covers(recorded(ranges, range), t) <==> covers(ranges, t) || range.holds(t),
        covers_all(recorded(ranges, range), range),
{
    let kept = ranges.filter(untouched_by(range));
    let whole = merged(ranges, range);
    lemma_covers_push(kept, whole);
    lemma_merged(ranges, range);
    lemma_kept(ranges, untouched_by(range));
    assert forall|t: int| #[trigger]
        covers(recorded(ranges, range), t) <==> covers(ranges, t) || range.holds(t) by {
        if covers(kept, t) {
            let i = choose|i: int| 0 <= i < kept.len() && (#[trigger] kept[i]).holds(t);
            let k = choose|k: int| 0 <= k < ranges.len() && ranges[k] == kept[i];
            assert(ranges[k].holds(t));
        }
        if whole.holds(t) && !range.holds(t) {
            if t < range.start.nanos {
                let i = choose|i: int|
                    0 <= i < ranges.len() && touches(#[trigger] ranges[i], range)
                        && ranges[i].start == whole.start;
                assert(ranges[i].holds(t));
            } else {
                let i = choose|i: int|
                    0 <= i < ranges.len() && touches(#[trigger] ranges[i], range) && ranges[i].end
                        == whole.end;
                assert(ranges[i].holds(t));
            }
        }
        if covers(ranges, t) {
            let i = choose|i: int| 0 <= i < ranges.len() && (#[trigger] ranges[i]).holds(t);
            if touches(ranges[i], range) {
                assert(whole.holds(t));
            } else {
                assert(untouched_by(range)(ranges[i]));
                let k = choose|k: int| 0 <= k < kept.len() && kept[k] == ranges[i];
                assert(kept[k].holds(t));
            }
        }
    }
}

/// What is fetched once some ranges are, one after another.
pub open spec fn recorded_all(ranges: Seq<DateRange>, fetched: Seq<DateRange>) -> Seq<DateRange>
    decreases fetched.len(),
{
    if fetched.len() == 0 {
        ranges
    } else {
        recorded(recorded_all(ranges, fetched.drop_last()), fetched.last())
    }
}

proof fn lemma_recorded_wf(ranges: Seq<DateRange>, range: DateRange)
    requires
        ranges_wf(ranges),
        range.wf(),
    ensures
        ranges_wf(recorded(ranges, range)),
{
    let kept = ranges.filter(untouched_by(range));
    let after = recorded(ranges, range);
    lemma_merged(ranges, range);
    lemma_kept(ranges, untouched_by(range));
    assert forall|i: int| 0 <= i < after.len() implies (#[trigger] after[i]).wf() by {
        if i < kept.len() {
            assert(after[i] == kept[i]);
            let k = choose|k: int| 0 <= k < ranges.len() && ranges[k] == kept[i];
            assert(ranges[k].wf());
        }
    }
}

/// Once some ranges are fetched one after another, exactly their instants are fetched besides
/// those that were.
pub proof fn law_recording_adds_all(ranges: Seq<DateRange>, fetched: Seq<DateRange>)
    requires
        ranges_wf(ranges),
        ranges_wf(fetched),
    ensures
        ranges_wf(recorded_all(ranges, fetched)),
        forall|t: int| #[trigger]
            covers(recorded_all(ranges, fetched), t) <==> covers(ranges, t) || covers(fetched, t),
    decreases fetched.len(),
{
    if fetched.len() > 0 {
        let less = fetched.drop_last();
        let last = fetched.last();
        assert forall|i: int| 0 <= i < less.len() implies (#[trigger] less[i]).wf() by {
            assert(fetched[i].wf());
        }
        assert(fetched[fetched.len() - 1].wf());
        law_recording_adds_all(ranges, less);
        let before = recorded_all(ranges, less);
        law_recording_adds_the_range(before, last);
        lemma_recorded_wf(before, last);
        lemma_covers_push(less, last);
        assert(less.push(last) =~= fetched);
    }
}

/// Once every missing part of a range is fetched, the whole range is, nothing of it is missing, and
/// no other instant has been fetched besides those that were.
pub proof fn law_fetching_what_is_missing(
    ranges: Seq<DateRange>,
    range: DateRange,
    missing: Seq<DateRange>,
    after: Seq<DateRange>,
)
    requires
        ranges_wf(ranges),
        are_missing(ranges, range, missing),
        are_missing(recorded_all(ranges, missing), range, after),
    ensures
        forall|t: int| #[trigger]
            covers(recorded_all(ranges, missing), t) <==> covers(ranges, t) || range.holds(t),
        covers_all(recorded_all(ranges, missing), range),
        after.len() == 0,
{
    law_recording_adds_all(ranges, missing);
    let all = recorded_all(ranges, missing);
    assert forall|t: int| #[trigger] covers(all, t) <==> covers(ranges, t) || range.holds(t) by {
        assert(covers(missing, t) <==> range.holds(t) && !covers(ranges, t));
    }
    if after.len() > 0 {
        let t = after[0].start.nanos as int;
        assert(after[0].wf());
        assert(after[0].holds(t));
        assert(covers(after, t));
        assert(covers(all, t));
    }
}

/// The fetched ranges stay compact: between any two there is time that has not been fetched.
pub proof fn law_coverage_stays_compact(ranges: Seq<DateRange>, range: DateRange)
    requires
        compact(ranges),
        range.wf(),
    ensures
        compact(recorded(ranges, range)),
{
    let p = untouched_by(range);
    let kept = ranges.filter(p);
    let whole = merged(ranges, range);
    let after = recorded(ranges, range);
    lemma_merged(ranges, range);
    lemma_kept(ranges, p);
    lemma_kept_apart(ranges, p);
    assert forall|i: int| 0 <= i < kept.len() implies apart(#[trigger] kept[i], whole)
        && kept[i].wf() by {
        let s = kept[i];
        let k = choose|k: int| 0 <= k < ranges.len() && ranges[k] == s;
        assert(p(s));
        assert(ranges[k].wf());
        if s.start.nanos > range.end.nanos {
            if whole.end != range.end {
                let m = choose|m: int|
                    0 <= m < ranges.len() && touches(#[trigger] ranges[m], range) && ranges[m].end
                        == whole.end;
                assert(m != k);
                assert(apart(ranges[m], ranges[k]));
                assert(ranges[m].wf());
            }
        } else {
            if whole.start != range.start {
                let m = choose|m: int|
                    0 <= m < ranges.len() && touches(#[trigger] ranges[m], range)
                        && ranges[m].start == whole.start;
                assert(m != k);
                assert(apart(ranges[m], ranges[k]));
                assert(ranges[m].wf());
            }
        }
    }
    assert forall|i: int, j: int|
        0 <= i < after.len() && 0 <= j < after.len() && i != j implies apart(
        #[trigger] after[i],
        #[trigger] after[j],
    ) by {
        if i < kept.len() {
            assert(after[i] == kept[i]);
        }
        if j < kept.len() {
            assert(after[j] == kept[j]);
        }
    }
    assert forall|i: int| 0 <= i < after.len() implies (#[trigger] after[i]).wf() by {
        if i < kept.len() {
            assert(after[i] == kept[i]);
        }
    }
}

proof fn lemma_kept_apart(ranges: Seq<DateRange>, p: spec_fn(DateRange) -> bool)
    requires
        compact(ranges),
    ensures
        compact(ranges.filter(p)),
    decreases ranges.len(),
{
    reveal(Seq::filter);
    if ranges.len() > 0 {
        let t = ranges.drop_last();
        let n = ranges.len() - 1;
        assert forall|i: int, j: int| 0 <= i < t.len() && 0 <= j < t.len() && i != j implies apart(
            #[trigger] t[i],
            #[trigger] t[j],
        ) by {
            assert(apart(ranges[i], ranges[j]));
        }
        assert forall|i: int| 0 <= i < t.len() implies (#[trigger] t[i]).wf() by {
            assert(ranges[i].wf());
        }
        lemma_kept_apart(t, p);
        lemma_kept(t, p);
        let less = t.filter(p);
        let all = ranges.filter(p);
        assert forall|i: int| 0 <= i < less.len() implies apart(#[trigger] less[i], ranges[n]) by {
            let k = choose|k: int| 0 <= k < t.len() && t[k] == less[i];
            assert(apart(ranges[k], ranges[n]));
        }
        assert(ranges[n].wf());
        assert forall|i: int, j: int|
            0 <= i < all.len() && 0 <= j < all.len() && i != j implies apart(
            #[trigger] all[i],
            #[trigger] all[j],
        ) by {
            if i < less.len() {
                assert(all[i] == less[i]);
            }
            if j < less.len() {
                assert(all[j] == less[j]);
            }
        }
        assert forall|i: int| 0 <= i < all.len() implies (#[trigger] all[i]).wf() by {
            if i < less.len() {
                assert(all[i] == less[i]);
            }
        }
    }
}

/// Pruning keeps coverage compact, and keeps all that is fetched between the two instants.
pub proof fn law_pruning_keeps_the_window(ranges: Seq<DateRange>, window: DateRange, t: int)
    ensures
        compact(ranges) ==> compact(ranges.filter(|range: DateRange| meets(range, window))),
        window.holds(t) && covers(ranges, t) ==> covers(
            ranges.filter(|range: DateRange| meets(range, window)),
            t,
        ),
{
    let p = |range: DateRange| meets(range, window);
    if compact(ranges) {
        lemma_kept_apart(ranges, p);
    }
    lemma_kept(ranges, p);
    if window.holds(t) && covers(ranges, t) {
        let i = choose|i: int| 0 <= i < ranges.len() && (#[trigger] ranges[i]).holds(t);
        assert(p(ranges[i]));
        let kept = ranges.filter(p);
        let k = choose|k: int| 0 <= k < kept.len() && kept[k] == ranges[i];
        assert(kept[k].holds(t));
    }
}

/// A range has been fetched exactly if nothing of it is missing.
pub proof fn law_nothing_is_missing_of_what_is_fetched(
    ranges: Seq<DateRange>,
    range: DateRange,
    missing: Seq<DateRange>,
)
    requires
        are_missing(ranges, range, missing),
    ensures
        covers_all(ranges, range) <==> missing.len() == 0,
{
    if missing.len() > 0 {
        let t = missing[0].start.nanos as int;
        assert(missing[0].wf());
        assert(missing[0].holds(t));
        assert(covers(missing, t));
    } else {
        assert forall|t: int| range.holds(t) implies #[trigger] covers(ranges, t) by {
            assert(!covers(missing, t));
        }
    }
}

/// What is fetched from an instant on holds exactly the fetched instants from then on.
pub proof fn law_fetched_suffix(ranges: Seq<DateRange>, start: Timestamp, t: int)
    ensures
        covers(fetched_from(ranges, start), t) <==> covers(ranges, t) && t >= start.nanos,
{
    let wanted = |i: int| ranges[i].end.nanos > start.nanos;
    let n = ranges.len() as int;
    let order = ordered(range_keys(ranges), wanted, n);
    let suffix = fetched_from(ranges, start);
    law_order_is_complete(range_keys(ranges), wanted, n);
    if covers(suffix, t) {
        let i = choose|i: int| 0 <= i < suffix.len() && (#[trigger] suffix[i]).holds(t);
        assert(order.contains(order[i]));
        assert(ranges[order[i]].holds(t));
    }
    if covers(ranges, t) && t >= start.nanos {
        let i = choose|i: int| 0 <= i < ranges.len() && (#[trigger] ranges[i]).holds(t);
        assert(wanted(i));
        assert(order.contains(i));
        let k = choose|k: int| 0 <= k < order.len() && order[k] == i;
        assert(suffix[k].holds(t));
    }
}

} // verus!
