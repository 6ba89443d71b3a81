//! What holds of the cache over several operations.

use super::order::{event_keys, whole_order};
use super::rows::{not_orphaned, other_event, outside, put_all, upsert_all};
use crate::model::{calendar_at, calendar_named, CalendarInfo, EventView};
use crate::seqs::{lemma_filter_all, lemma_first_from};
use crate::sorting::{law_order_is_complete, lemma_all_chosen};
use crate::time::Timestamp;
use vstd::prelude::*;

verus! {

/// Whether no two events share an identity.
pub open spec fn distinct_events(rows: Seq<EventView>) -> bool {
    forall|i: int, j: int|
        0 <= i < j < rows.len() ==> (#[trigger] rows[i]).id != (#[trigger] rows[j]).id
}

/// Whether an event has an identity that none in a list has.
pub open spec fn none_of(list: Seq<EventView>) -> spec_fn(EventView) -> bool {
    |event: EventView|
        forall|i: int| 0 <= i < list.len() ==> (#[trigger] list[i]).id != event.id
}

proof fn lemma_filter_twice(
    rows: Seq<EventView>,
    p: spec_fn(EventView) -> bool,
    q: spec_fn(EventView) -> bool,
    both: spec_fn(EventView) -> bool,
)
    requires
        forall|e: EventView| #[trigger] both(e) <==> p(e) && q(e),
    ensures
        rows.filter(p).filter(q) == rows.filter(both),
    decreases rows.len(),
{
    reveal(Seq::filter);
    if rows.len() > 0 {
        let t = rows.drop_last();
        lemma_filter_twice(t, p, q, both);
        let last = rows.last();
        assert(both(last) <==> p(last) && q(last));
        if p(last) {
            let less = t.filter(p);
            assert(rows.filter(p) =~= less.push(last));
            assert(rows.filter(p).drop_last() =~= less);
        }
    } else {
        assert(rows.filter(p) =~= rows);
        assert(rows.filter(p).filter(q) =~= rows.filter(both));
    }
}

/// Events that are put into a cache, no two with one identity, are all there, behind those that
/// stay.
pub proof fn law_put_events_are_kept(rows: Seq<EventView>, list: Seq<EventView>)
    requires
        distinct_events(list),
    ensures
        put_all(rows, list) == rows.filter(none_of(list)) + list,
    decreases list.len(),
{
    if list.len() == 0 {
        assert forall|i: int| 0 <= i < rows.len() implies none_of(list)(#[trigger] rows[i]) by {}
        lemma_filter_all(rows, none_of(list));
        assert(put_all(rows, list) =~= rows.filter(none_of(list)) + list);
    } else {
        let less = list.drop_last();
        let last = list.last();
        assert forall|i: int, j: int| 0 <= i < j < less.len() implies (#[trigger] less[i]).id != (
        #[trigger] less[j]).id by {
            assert(less[i] == list[i]);
            assert(less[j] == list[j]);
        }
        law_put_events_are_kept(rows, less);
        let p = other_event(last.id);
        Seq::filter_distributes_over_add(rows.filter(none_of(less)), less, p);
        assert forall|i: int| 0 <= i < less.len() implies p(#[trigger] less[i]) by {
            assert(less[i] == list[i]);
            assert(list[i].id != list[list.len() - 1].id);
        }
        lemma_filter_all(less, p);
        assert forall|e: EventView| #[trigger] none_of(list)(e) <==> none_of(less)(e) && p(e) by {
            if none_of(less)(e) && p(e) {
                assert forall|i: int| 0 <= i < list.len() implies (#[trigger] list[i]).id
                    != e.id by {
                    if i < less.len() {
                        assert(less[i] == list[i]);
                    }
                }
            }
            if none_of(list)(e) {
                assert forall|i: int| 0 <= i < less.len() implies (#[trigger] less[i]).id
                    != e.id by {
                    assert(list[i].id != e.id);
                }
                assert(list[list.len() - 1].id != e.id);
            }
        }
        lemma_filter_twice(rows, none_of(less), p, none_of(list));
        assert((rows.filter(none_of(list)) + less).push(last) =~= rows.filter(none_of(list))
            + list);
    }
}

proof fn lemma_filters_hold(
    rows: Seq<EventView>,
    p: spec_fn(EventView) -> bool,
    q: spec_fn(EventView) -> bool,
)
    ensures
        rows.filter(p).filter(q).filter(p) == rows.filter(p).filter(q),
        rows.filter(p).filter(q).filter(q) == rows.filter(p).filter(q),
{
    let kept = rows.filter(p);
    let rest = kept.filter(q);
    assert forall|i: int| 0 <= i < rest.len() implies p(#[trigger] rest[i]) by {
        lemma_filtered_from(kept, q, i);
        let k = choose|k: int| 0 <= k < kept.len() && kept[k] == rest[i];
        rows.lemma_filter_pred(p, k);
    }
    assert forall|i: int| 0 <= i < rest.len() implies q(#[trigger] rest[i]) by {
        kept.lemma_filter_pred(q, i);
    }
    lemma_filter_all(rest, p);
    lemma_filter_all(rest, q);
}

proof fn lemma_none_left(list: Seq<EventView>, p: spec_fn(EventView) -> bool)
    ensures
        list.filter(p).filter(none_of(list)) == Seq::<EventView>::empty(),
{
    let some = list.filter(p);
    let left = some.filter(none_of(list));
    if left.len() > 0 {
        some.lemma_filter_pred(none_of(list), 0);
        lemma_filtered_from(some, none_of(list), 0);
        let k = choose|k: int| 0 <= k < some.len() && some[k] == left[0];
        lemma_filtered_from(list, p, k);
        let m = choose|m: int| 0 <= m < list.len() && list[m] == some[k];
        assert(list[m].id != left[0].id);
    }
    assert(left =~= Seq::<EventView>::empty());
}

proof fn lemma_replayed(
    rest: Seq<EventView>,
    list: Seq<EventView>,
    p: spec_fn(EventView) -> bool,
    q: spec_fn(EventView) -> bool,
)
    requires
        rest.filter(p) == rest,
        rest.filter(q) == rest,
        list.filter(p).filter(q) == Seq::<EventView>::empty(),
    ensures
        (rest + list).filter(p).filter(q) == rest,
{
    Seq::filter_distributes_over_add(rest, list, p);
    Seq::filter_distributes_over_add(rest, list.filter(p), q);
    assert(rest + Seq::<EventView>::empty() =~= rest);
}

/// Taking over the same answer of the provider twice is the same as taking it over once.
pub proof fn law_replaying_changes_nothing(
    rows: Seq<EventView>,
    list: Seq<EventView>,
    start: Timestamp,
    end: Timestamp,
)
    requires
        distinct_events(list),
    ensures
        ({
            let once = put_all(rows.filter(outside(start, end)), list);
            put_all(once.filter(outside(start, end)), list) == once
        }),
{
    let kept = rows.filter(outside(start, end));
    let once = put_all(kept, list);
    law_put_events_are_kept(kept, list);
    law_put_events_are_kept(once.filter(outside(start, end)), list);
    lemma_filters_hold(rows, outside(start, end), none_of(list));
    lemma_none_left(list, outside(start, end));
    lemma_replayed(kept.filter(none_of(list)), list, outside(start, end), none_of(list));
}

proof fn lemma_filtered_from(rows: Seq<EventView>, p: spec_fn(EventView) -> bool, i: int)
    requires
        0 <= i < rows.filter(p).len(),
    ensures
        exists|k: int| 0 <= k < rows.len() && rows[k] == rows.filter(p)[i],
    decreases rows.len(),
{
    reveal(Seq::filter);
    if rows.len() > 0 {
        let t = rows.drop_last();
        if i < t.filter(p).len() {
            lemma_filtered_from(t, p, i);
            let k = choose|k: int| 0 <= k < t.len() && t[k] == t.filter(p)[i];
            assert(rows[k] == rows.filter(p)[i]);
        } else {
            assert(rows[rows.len() - 1] == rows.filter(p)[i]);
        }
    }
}

/// Identities stay distinct when events are taken over.
pub proof fn law_events_stay_distinct(
    rows: Seq<EventView>,
    list: Seq<EventView>,
    start: Timestamp,
    end: Timestamp,
)
    requires
        distinct_events(rows),
    ensures
        distinct_events(put_all(rows.filter(outside(start, end)), list)),
    decreases list.len(),
{
    lemma_filter_distinct(rows, outside(start, end));
    lemma_put_all_distinct(rows.filter(outside(start, end)), list);
}

proof fn lemma_put_all_distinct(rows: Seq<EventView>, list: Seq<EventView>)
    requires
        distinct_events(rows),
    ensures
        distinct_events(put_all(rows, list)),
    decreases list.len(),
{
    if list.len() > 0 {
        lemma_put_all_distinct(rows, list.drop_last());
        let before = put_all(rows, list.drop_last());
        let last = list.last();
        let p = other_event(last.id);
        lemma_filter_distinct(before, p);
        let kept = before.filter(p);
        let after = kept.push(last);
        assert forall|i: int, j: int| 0 <= i < j < after.len() implies (#[trigger] after[i]).id
            != (#[trigger] after[j]).id by {
            before.lemma_filter_pred(p, i);
            assert(after[i] == kept[i]);
            if j < kept.len() {
                assert(after[j] == kept[j]);
            }
        }
    }
}

proof fn lemma_filter_distinct(rows: Seq<EventView>, p: spec_fn(EventView) -> bool)
    requires
        distinct_events(rows),
    ensures
        distinct_events(rows.filter(p)),
    decreases rows.len(),
{
    reveal(Seq::filter);
    if rows.len() > 0 {
        let t = rows.drop_last();
        assert forall|i: int, j: int| 0 <= i < j < t.len() implies (#[trigger] t[i]).id != (
        #[trigger] t[j]).id by {
            assert(t[i] == rows[i]);
            assert(t[j] == rows[j]);
        }
        lemma_filter_distinct(t, p);
        let less = t.filter(p);
        assert forall|i: int| 0 <= i < less.len() implies (#[trigger] less[i]).id
            != rows.last().id by {
            lemma_filtered_from(t, p, i);
            let k = choose|k: int| 0 <= k < t.len() && t[k] == less[i];
            assert(rows[k].id != rows[rows.len() - 1].id);
        }
    }
}

/// Taking over the provider's calendars keeps whether the known ones are shown.
pub proof fn law_visibility_is_kept(rows: Seq<CalendarInfo>, list: Seq<CalendarInfo>, i: int)
    requires
        0 <= i < rows.len(),
    ensures
        i < upsert_all(rows, list).len(),
        upsert_all(rows, list)[i].id@ == rows[i].id@,
        upsert_all(rows, list)[i].enabled == rows[i].enabled,
    decreases list.len(),
{
    if list.len() > 0 {
        law_visibility_is_kept(rows, list.drop_last(), i);
        let before = upsert_all(rows, list.drop_last());
        lemma_first_from(before, calendar_named(list.last().id@), 0);
    }
}

/// No event stays in a calendar that was known and that the provider no longer has.
pub proof fn law_orphans_leave(
    rows: Seq<CalendarInfo>,
    list: Seq<CalendarInfo>,
    events: Seq<EventView>,
    i: int,
)
    requires
        0 <= i < events.filter(not_orphaned(rows, list)).len(),
    ensures
        ({
            let id = events.filter(not_orphaned(rows, list))[i].calendar_id;
            calendar_at(rows, id) is None || calendar_at(list, id) is Some
        }),
{
    events.lemma_filter_pred(not_orphaned(rows, list), i);
}

/// The snapshot holds every event that is kept, once.
pub proof fn law_snapshot_is_complete(rows: Seq<EventView>)
    ensures
        whole_order(event_keys(rows)).len() == rows.len(),
        whole_order(event_keys(rows)).no_duplicates(),
        forall|i: int|
            0 <= i < rows.len() ==> #[trigger] whole_order(event_keys(rows)).contains(i),
{
    let all = |i: int| true;
    law_order_is_complete(event_keys(rows), all, rows.len() as int);
    lemma_all_chosen(event_keys(rows), all, rows.len() as int);
}

} // verus!
