//! What holds of the events and calendars that are kept.

use crate::cache::damage::quarantine_name;
use crate::cache::laws::{distinct_events, law_put_events_are_kept, none_of};
use crate::cache::order::{
    event_keys, gathered, holds_words, on_day, search_text, search_words, start_keys, whole_order,
};
use crate::cache::rows::{inside, listed, not_orphaned, outside, upsert, upsert_all};
use crate::cache::{Cache, CacheStats};
use crate::coverage::{covers, law_recording_adds_the_range, ranges_wf, DateRange};
use crate::model::{
    calendar_at, event_views, lemma_calendar_at, CalendarInfo, Event, EventView, Snapshot,
};
use crate::sorting::{key_less, law_order_is_complete, law_order_is_sorted, lemma_all_chosen};
use crate::search::attendee_texts;
use crate::text::{decimal, joined, lemma_decimal, lowercase, occurs_in};
use crate::time::{instant_text, Date, Timestamp};
use vstd::prelude::*;

verus! {

/// Whether an event takes place at some instant between two others.
pub open spec fn is_between(event: EventView, start: Timestamp, end: Timestamp) -> bool {
    event.start.nanos < end.nanos && event.end.nanos > start.nanos
}

/// Whether some event in a list has an identity.
pub open spec fn has_event(list: Seq<EventView>, id: Seq<char>) -> bool {
    exists|i: int| 0 <= i < list.len() && (#[trigger] list[i]).id == id
}

/// Whether some calendar in a list has an identity.
pub open spec fn has_calendar(list: Seq<CalendarInfo>, id: Seq<char>) -> bool {
    exists|i: int| 0 <= i < list.len() && (#[trigger] list[i]).id@ == id
}

proof fn lemma_filtered<T>(s: Seq<T>, p: spec_fn(T) -> bool, x: T)
    ensures
        s.filter(p).contains(x) <==> s.contains(x) && p(x),
{
    broadcast use vstd::seq_lib::group_filter_ensures;

    if s.filter(p).contains(x) {
        s.lemma_filter_contains_rev(p, x);
        let i = choose|i: int| 0 <= i < s.filter(p).len() && s.filter(p)[i] == x;
        assert(p(s.filter(p)[i]));
    }
    if s.contains(x) && p(x) {
        let i = choose|i: int| 0 <= i < s.len() && s[i] == x;
        assert(s.filter(p).contains(s[i]));
    }
}

/// Once the events of a range are taken over, just these are kept of it: the new events are there,
/// an event from before is there only if it takes place wholly outside the range and none of the
/// new ones has its identity. The range counts as fetched, and so does what was fetched before, and
/// nothing else.
pub proof fn law_events_are_taken_over(
    cache: Cache,
    start: Timestamp,
    end: Timestamp,
    list: Seq<EventView>,
    now: Timestamp,
    post: Cache,
    event: EventView,
)
    requires
        cache.takes_events(start, end, list, now, post),
        distinct_events(list),
    ensures
        event_views(post.events@).contains(event) <==> list.contains(event) || (event_views(
            cache.events@,
        ).contains(event) && !is_between(event, start, end) && !has_event(list, event.id)),
        ranges_wf(cache.fetched@) && start.nanos < end.nanos ==> forall|t: int| #[trigger]
            covers(post.fetched@, t) <==> covers(cache.fetched@, t) || start.nanos <= t < end.nanos,
        post.updated_at == Some(now),
        post.calendars == cache.calendars,
        post.authorization == cache.authorization,
{
    let rows = event_views(cache.events@);
    let kept = rows.filter(outside(start, end));
    law_put_events_are_kept(kept, list);
    lemma_filtered(rows, outside(start, end), event);
    lemma_filtered(kept, none_of(list), event);
    let all = event_views(post.events@);
    let rest = kept.filter(none_of(list));
    assert(all == rest + list);
    if all.contains(event) {
        let i = choose|i: int| 0 <= i < all.len() && all[i] == event;
        if i < rest.len() {
            assert(rest[i] == event);
        } else {
            assert(list[i - rest.len()] == event);
        }
    }
    if list.contains(event) {
        let i = choose|i: int| 0 <= i < list.len() && list[i] == event;
        assert(all[rest.len() + i] == event);
    }
    if rest.contains(event) {
        let i = choose|i: int| 0 <= i < rest.len() && rest[i] == event;
        assert(all[i] == event);
    }
    if ranges_wf(cache.fetched@) && start.nanos < end.nanos {
        law_recording_adds_the_range(cache.fetched@, DateRange { start, end });
        assert forall|t: int| #[trigger]
            covers(post.fetched@, t) <==> covers(cache.fetched@, t) || start.nanos <= t
                < end.nanos by {
            assert((DateRange { start, end }).holds(t) <==> start.nanos <= t < end.nanos);
        }
    }
}

/// Pruning keeps just the events that take place between the two instants, and counts those that
/// leave.
pub proof fn law_pruned_events(
    cache: Cache,
    start: Timestamp,
    end: Timestamp,
    post: Cache,
    event: EventView,
)
    requires
        cache.is_pruned(start, end, post),
    ensures
        event_views(post.events@).contains(event) <==> event_views(cache.events@).contains(event)
            && is_between(event, start, end),
        post.calendars == cache.calendars,
{
    lemma_filtered(event_views(cache.events@), inside(start, end), event);
}

proof fn lemma_known(list: Seq<CalendarInfo>, id: Seq<char>)
    ensures
        calendar_at(list, id) is Some <==> has_calendar(list, id),
        calendar_at(list, id) matches Some(i) ==> 0 <= i < list.len() && list[i].id@ == id,
{
    lemma_calendar_at(list, id);
}

/// Whether no two calendars share an identity.
pub open spec fn distinct_calendars(list: Seq<CalendarInfo>) -> bool {
    forall|i: int, j: int|
        0 <= i < j < list.len() ==> (#[trigger] list[i]).id@ != (#[trigger] list[j]).id@
}

proof fn lemma_upserted_ids(rows: Seq<CalendarInfo>, list: Seq<CalendarInfo>, id: Seq<char>)
    ensures
        has_calendar(upsert_all(rows, list), id) <==> has_calendar(rows, id) || has_calendar(list, id),
    decreases list.len(),
{
    if list.len() > 0 {
        let less = list.drop_last();
        lemma_upserted_ids(rows, less, id);
        let before = upsert_all(rows, less);
        let last = list.last();
        let after = upsert(before, last);
        lemma_known(before, last.id@);
        if has_calendar(list, id) {
            let i = choose|i: int| 0 <= i < list.len() && (#[trigger] list[i]).id@ == id;
            if i < less.len() {
                assert(less[i].id@ == id);
            }
        }
        if has_calendar(less, id) {
            let i = choose|i: int| 0 <= i < less.len() && (#[trigger] less[i]).id@ == id;
            assert(list[i].id@ == id);
        }
        assert(list[list.len() - 1] == last);
        if has_calendar(before, id) {
            let i = choose|i: int| 0 <= i < before.len() && (#[trigger] before[i]).id@ == id;
            assert(after[i].id@ == id);
        }
        if last.id@ == id {
            match calendar_at(before, id) {
                Some(i) => assert(after[i].id@ == id),
                None => assert(after[before.len() as int].id@ == id),
            }
        }
        if has_calendar(after, id) {
            let i = choose|i: int| 0 <= i < after.len() && (#[trigger] after[i]).id@ == id;
            if i < before.len() {
                assert(before[i].id@ == id);
            }
        }
    }
}

/// Once the provider's calendars are taken over, just these are kept, and a calendar that was known
/// before is shown or hidden as it was.
pub proof fn law_calendars_are_taken_over(
    cache: Cache,
    list: Seq<CalendarInfo>,
    post: Cache,
    id: Seq<char>,
)
    requires
        cache.takes_calendars(list, post),
    ensures
        has_calendar(post.calendars@, id) <==> has_calendar(list, id),
        post.fetched == cache.fetched,
        post.authorization == cache.authorization,
{
    let all = upsert_all(cache.calendars@, list);
    lemma_upserted_ids(cache.calendars@, list, id);
    lemma_known(list, id);
    if has_calendar(list, id) {
        let i = choose|i: int| 0 <= i < all.len() && (#[trigger] all[i]).id@ == id;
        lemma_filtered(all, listed(list), all[i]);
        let kept = post.calendars@;
        let k = choose|k: int| 0 <= k < kept.len() && kept[k] == all[i];
        assert(kept[k].id@ == id);
    }
    if has_calendar(post.calendars@, id) {
        let kept = post.calendars@;
        let k = choose|k: int| 0 <= k < kept.len() && (#[trigger] kept[k]).id@ == id;
        lemma_filtered(all, listed(list), kept[k]);
    }
}

/// An event stays where its calendar stays; it leaves with a calendar that the provider no longer
/// has.
pub proof fn law_events_leave_with_their_calendar(
    cache: Cache,
    list: Seq<CalendarInfo>,
    post: Cache,
    event: EventView,
)
    requires
        cache.takes_calendars(list, post),
    ensures
        event_views(post.events@).contains(event) <==> event_views(cache.events@).contains(event)
            && (has_calendar(list, event.calendar_id) || !has_calendar(
            cache.calendars@,
            event.calendar_id,
        )),
{
    let all = upsert_all(cache.calendars@, list);
    lemma_filtered(event_views(cache.events@), not_orphaned(all, list), event);
    lemma_upserted_ids(cache.calendars@, list, event.calendar_id);
    lemma_known(list, event.calendar_id);
    lemma_known(all, event.calendar_id);
}

/// The provider's calendar is taken over with all it says, but for whether it is shown.
pub proof fn law_calendars_are_updated(
    rows: Seq<CalendarInfo>,
    list: Seq<CalendarInfo>,
    k: int,
)
    requires
        distinct_calendars(list),
        0 <= k < list.len(),
    ensures
        exists|i: int|
            0 <= i < upsert_all(rows, list).len() && (#[trigger] upsert_all(rows, list)[i]) == (
            CalendarInfo { enabled: upsert_all(rows, list)[i].enabled, ..list[k] }) && (i
                < rows.len() ==> upsert_all(rows, list)[i].enabled == rows[i].enabled
                && rows[i].id@ == list[k].id@) && (i >= rows.len() ==> upsert_all(
                rows,
                list,
            )[i].enabled == list[k].enabled),
    decreases list.len(),
{
    let less = list.drop_last();
    let last = list.last();
    let before = upsert_all(rows, less);
    let after = upsert_all(rows, list);
    assert(after == upsert(before, last));
    lemma_known(before, last.id@);
    lemma_grown(rows, less);
    if k < less.len() {
        assert forall|i: int, j: int| 0 <= i < j < less.len() implies (#[trigger] less[i]).id@ != (
        #[trigger] less[j]).id@ by {
            assert(less[i] == list[i] && less[j] == list[j]);
        }
        law_calendars_are_updated(rows, less, k);
        let i = choose|i: int|
            0 <= i < before.len() && (#[trigger] before[i]) == (CalendarInfo {
                enabled: before[i].enabled,
                ..less[k]
            }) && (i < rows.len() ==> before[i].enabled == rows[i].enabled && rows[i].id@
                == less[k].id@) && (i >= rows.len() ==> before[i].enabled == less[k].enabled);
        assert(less[k] == list[k]);
        assert(list[k].id@ != list[list.len() - 1].id@);
        assert(after[i] == before[i]);
    } else {
        assert(list[k] == last);
        match calendar_at(before, last.id@) {
            Some(i) => {
                assert(after[i] == (CalendarInfo { enabled: before[i].enabled, ..last }));
                if i >= rows.len() {
                    lemma_added(rows, less, i);
                    let j = choose|j: int|
                        0 <= j < less.len() && (#[trigger] less[j]).id@ == before[i].id@;
                    assert(list[j].id@ != list[list.len() - 1].id@);
                }
            },
            None => {
                assert(after[before.len() as int] == last);
            },
        }
    }
}

proof fn lemma_grown(rows: Seq<CalendarInfo>, list: Seq<CalendarInfo>)
    ensures
        upsert_all(rows, list).len() >= rows.len(),
        forall|i: int|
            0 <= i < rows.len() ==> (#[trigger] upsert_all(rows, list)[i]).id@ == rows[i].id@
                && upsert_all(rows, list)[i].enabled == rows[i].enabled,
    decreases list.len(),
{
    if list.len() > 0 {
        lemma_grown(rows, list.drop_last());
        lemma_known(upsert_all(rows, list.drop_last()), list.last().id@);
    }
}

proof fn lemma_added(rows: Seq<CalendarInfo>, list: Seq<CalendarInfo>, i: int)
    requires
        rows.len() <= i < upsert_all(rows, list).len(),
    ensures
        has_calendar(list, upsert_all(rows, list)[i].id@),
    decreases list.len(),
{
    if list.len() > 0 {
        let less = list.drop_last();
        let before = upsert_all(rows, less);
        let after = upsert_all(rows, list);
        lemma_known(before, list.last().id@);
        if i < before.len() {
            lemma_added(rows, less, i);
            assert(after[i].id@ == before[i].id@);
            let j = choose|j: int| 0 <= j < less.len() && (#[trigger] less[j]).id@ == before[i].id@;
            assert(list[j].id@ == after[i].id@);
        } else {
            assert(list[list.len() - 1].id@ == after[i].id@);
        }
    }
}

/// Showing or hiding a calendar is remembered of that calendar, and leaves every other as it is.
pub proof fn law_shown_calendars(cache: Cache, id: Seq<char>, enabled: bool, post: Cache, i: int)
    requires
        cache.shows(id, enabled, post),
        0 <= i < cache.calendars@.len(),
    ensures
        cache.calendars@[i].id@ == id ==> post.calendars@[i].enabled == enabled
            && post.calendars@[i].title == cache.calendars@[i].title,
        cache.calendars@[i].id@ != id ==> post.calendars@[i] == cache.calendars@[i],
        post.calendars@.len() == cache.calendars@.len(),
        post.events == cache.events,
        post.fetched == cache.fetched,
{
}

/// The picture that is read back holds every event that is kept, as often as it is kept, the
/// earlier ones first.
pub proof fn law_snapshots_hold_all(cache: Cache, r: Snapshot, event: EventView, i: int, j: int)
    requires
        call_ensures(Cache::load_snapshot, (&cache,), r),
    ensures
        r.events@.len() == cache.events@.len(),
        event_views(r.events@).contains(event) <==> event_views(cache.events@).contains(event),
        0 <= i < j < r.events@.len() ==> r.events@[i].start.nanos <= r.events@[j].start.nanos,
        r.authorization == cache.authorization,
        r.updated_at == cache.updated_at,
{
    let rows = event_views(cache.events@);
    let keys = event_keys(rows);
    let order = whole_order(keys);
    let all = |i: int| true;
    law_order_is_complete(keys, all, rows.len() as int);
    law_order_is_sorted(keys, all, rows.len() as int);
    lemma_all_chosen(keys, all, rows.len() as int);
    let got = event_views(r.events@);
    assert(got.len() == order.len());
    assert forall|k: int| 0 <= k < got.len() implies #[trigger] got[k] == rows[order[k]] && 0
        <= order[k] < rows.len() by {
        assert(order.contains(order[k]));
    }
    if got.contains(event) {
        let k = choose|k: int| 0 <= k < got.len() && got[k] == event;
        assert(rows[order[k]] == event);
    }
    if rows.contains(event) {
        let k = choose|k: int| 0 <= k < rows.len() && rows[k] == event;
        assert(order.contains(k));
        let m = choose|m: int| 0 <= m < order.len() && order[m] == k;
        assert(got[m] == event);
    }
    if 0 <= i < j < got.len() {
        assert(got[i] == rows[order[i]] && got[j] == rows[order[j]]);
        assert(got[i].start == r.events@[i].start && got[j].start == r.events@[j].start);
        lemma_key_first(keys[order[j]], keys[order[i]]);
    }
}

proof fn lemma_key_first(a: Seq<i128>, b: Seq<i128>)
    requires
        a.len() > 0,
        b.len() > 0,
        !key_less(a, b),
    ensures
        b[0] <= a[0],
{
}

proof fn lemma_gathered(
    rows: Seq<EventView>,
    order: Seq<int>,
    wanted: spec_fn(EventView) -> bool,
    event: EventView,
)
    ensures
        gathered(rows, order, wanted).contains(event) <==> wanted(event) && exists|k: int|
            0 <= k < order.len() && rows[#[trigger] order[k]] == event,
    decreases order.len(),
{
    if order.len() > 0 {
        let less = order.drop_last();
        let rest = gathered(rows, less, wanted);
        let all = gathered(rows, order, wanted);
        lemma_gathered(rows, less, wanted, event);
        if all.contains(event) {
            let i = choose|i: int| 0 <= i < all.len() && all[i] == event;
            if i < rest.len() {
                assert(rest[i] == event);
                let k = choose|k: int| 0 <= k < less.len() && rows[#[trigger] less[k]] == event;
                assert(rows[order[k]] == event);
            } else {
                assert(rows[order[order.len() - 1]] == event);
            }
        }
        if wanted(event) && exists|k: int|
            0 <= k < order.len() && rows[#[trigger] order[k]] == event {
            let k = choose|k: int| 0 <= k < order.len() && rows[#[trigger] order[k]] == event;
            if k < less.len() {
                assert(rows[less[k]] == event);
                let i = choose|i: int| 0 <= i < rest.len() && rest[i] == event;
                assert(all[i] == event);
            } else {
                assert(all[rest.len() as int] == event);
            }
        }
    } else {
        assert(gathered(rows, order, wanted).len() == 0);
    }
}

proof fn lemma_whole(rows: Seq<EventView>, keys: Seq<Seq<i128>>, event: EventView)
    requires
        keys.len() == rows.len(),
    ensures
        rows.contains(event) <==> exists|k: int|
            0 <= k < whole_order(keys).len() && rows[#[trigger] whole_order(keys)[k]] == event,
{
    let order = whole_order(keys);
    let all = |i: int| true;
    law_order_is_complete(keys, all, rows.len() as int);
    if rows.contains(event) {
        let i = choose|i: int| 0 <= i < rows.len() && rows[i] == event;
        assert(order.contains(i));
        let k = choose|k: int| 0 <= k < order.len() && order[k] == i;
        assert(rows[order[k]] == event);
    }
    if exists|k: int| 0 <= k < order.len() && rows[#[trigger] order[k]] == event {
        let k = choose|k: int| 0 <= k < order.len() && rows[#[trigger] order[k]] == event;
        assert(order.contains(order[k]));
    }
}

/// The events of a day are those kept that take place on it: by their dates where an all-day event
/// has them, by their instants else.
pub proof fn law_events_of_a_day(
    cache: Cache,
    start: Timestamp,
    end: Timestamp,
    first: Date,
    last: Date,
    r: Vec<Event>,
    event: EventView,
)
    requires
        call_ensures(
            Cache::events_intersecting_diagnostic_day,
            (&cache, start, end, first, last),
            r,
        ),
    ensures
        event_views(r@).contains(event) <==> event_views(cache.events@).contains(event) && match (
            event.all_day_start_date,
            event.all_day_end_date_exclusive,
        ) {
            (Some(from), Some(until)) => if event.all_day && from.day < until.day {
                from.day < last.day && until.day > first.day
            } else {
                is_between(event, start, end)
            },
            _ => is_between(event, start, end),
        },
{
    let rows = event_views(cache.events@);
    lemma_gathered(rows, whole_order(event_keys(rows)), on_day(start, end, first, last), event);
    lemma_whole(rows, event_keys(rows), event);
}

/// A search of what is kept gives only events in which each word is found, and all of them where no
/// more than the limit are; nothing is found without a word.
pub proof fn law_kept_events_are_searched(
    cache: Cache,
    query: Seq<char>,
    limit: int,
    event: EventView,
)
    ensures
        cache.found(query, limit).contains(event) ==> event_views(cache.events@).contains(event)
            && forall|i: int|
            0 <= i < search_words(query).len() ==> occurs_in(
                search_text(event),
                #[trigger] search_words(query)[i],
            ),
        search_words(query).len() > 0 && event_views(cache.events@).contains(event) && (forall|
            i: int,
        |
            0 <= i < search_words(query).len() ==> occurs_in(
                search_text(event),
                #[trigger] search_words(query)[i],
            )) && cache.found(query, limit).len() < limit ==> cache.found(query, limit).contains(
            event,
        ),
        search_words(query).len() == 0 ==> cache.found(query, limit).len() == 0,
        limit >= 1 ==> cache.found(query, limit).len() <= limit,
{
    let rows = event_views(cache.events@);
    let keys = start_keys(rows);
    let p = holds_words(search_words(query));
    let all = gathered(rows, whole_order(keys), p);
    lemma_gathered(rows, whole_order(keys), p, event);
    lemma_whole(rows, keys, event);
    let found = cache.found(query, limit);
    if found.contains(event) {
        let i = choose|i: int| 0 <= i < found.len() && found[i] == event;
        assert(all[i] == event);
        assert(all.contains(event));
    }
}

/// What is searched of an event is its title, place, notes and the people who take part, in lower
/// case.
pub proof fn law_searched_texts(event: EventView)
    ensures
        search_text(event) == lowercase(
            event.title + " "@ + event.location + " "@ + event.notes + " "@ + joined(
                attendee_texts(event),
                " "@,
            ),
        ),
{
}

/// Whether an instant is in one of some ranges.
pub open spec fn is_in_one(ranges: Seq<DateRange>, t: int) -> bool {
    exists|i: int|
        0 <= i < ranges.len() && (#[trigger] ranges[i]).start.nanos <= t < ranges[i].end.nanos
}

/// A range counts as fetched where each of its instants is in one that was.
pub proof fn law_fetched_ranges(cache: Cache, start: Timestamp, end: Timestamp, r: bool)
    requires
        call_ensures(Cache::range_is_fetched, (&cache, start, end), r),
    ensures
        r <==> start.nanos < end.nanos && forall|t: int|
            start.nanos <= t < end.nanos ==> #[trigger] is_in_one(cache.fetched@, t),
{
    let range = DateRange { start, end };
    assert forall|t: int| #[trigger] is_in_one(cache.fetched@, t) <==> covers(
        cache.fetched@,
        t,
    ) by {
        if covers(cache.fetched@, t) {
            let i = choose|i: int|
                0 <= i < cache.fetched@.len() && (#[trigger] cache.fetched@[i]).holds(t);
            assert(cache.fetched@[i].start.nanos <= t);
        }
        if is_in_one(cache.fetched@, t) {
            let i = choose|i: int|
                0 <= i < cache.fetched@.len() && (#[trigger] cache.fetched@[i]).start.nanos <= t
                    < cache.fetched@[i].end.nanos;
            assert(cache.fetched@[i].holds(t));
        }
    }
    if r {
        assert forall|t: int| start.nanos <= t < end.nanos implies #[trigger] is_in_one(
            cache.fetched@,
            t,
        ) by {
            assert(range.holds(t));
            assert(covers(cache.fetched@, t));
        }
    }
    if start.nanos < end.nanos && (forall|t: int|
        start.nanos <= t < end.nanos ==> #[trigger] is_in_one(cache.fetched@, t)) {
        assert forall|t: int| range.holds(t) implies #[trigger] covers(cache.fetched@, t) by {
            assert(is_in_one(cache.fetched@, t));
        }
    }
}

/// A cache of a layout that does not tell occurrences apart loses its events, so that they are
/// fetched again; one of this release keeps all. Calendars stay either way, and a later release's
/// is refused.
pub proof fn law_older_caches(stored: Cache, integrity: &str, r: Result<Cache, String>)
    requires
        call_ensures(Cache::open, (stored, integrity), r),
    ensures
        r is Ok <==> integrity@ == "ok"@ && stored.version <= 3,
        r matches Ok(cache) ==> {
            &&& cache.calendars == stored.calendars
            &&& cache.authorization == stored.authorization
            &&& cache.version == 3
            &&& stored.version < 3 ==> cache.events@.len() == 0 && cache.fetched@.len() == 0
            &&& stored.version == 3 ==> cache.events == stored.events && cache.fetched
                == stored.fetched
        },
{
}

proof fn lemma_oldest(events: Seq<Event>)
    ensures
        events.len() == 0 <==> Cache::oldest(events) is None,
        events.len() == 0 <==> Cache::newest(events) is None,
        Cache::oldest(events) matches Some(at) ==> (forall|i: int|
            0 <= i < events.len() ==> at.nanos <= (#[trigger] events[i]).start.nanos) && exists|
            i: int,
        |
            0 <= i < events.len() && (#[trigger] events[i]).start == at,
        Cache::newest(events) matches Some(at) ==> (forall|i: int|
            0 <= i < events.len() ==> at.nanos >= (#[trigger] events[i]).end.nanos) && exists|
            i: int,
        |
            0 <= i < events.len() && (#[trigger] events[i]).end == at,
    decreases events.len(),
{
    if events.len() > 0 {
        let less = events.drop_last();
        lemma_oldest(less);
        assert(events[events.len() - 1] == events.last());
        assert forall|i: int| 0 <= i < less.len() implies less[i] == #[trigger] events[i] by {}
        if less.len() > 0 {
            let a = choose|i: int|
                0 <= i < less.len() && (#[trigger] less[i]).start == Cache::oldest(less)->0;
            assert(events[a].start == Cache::oldest(less)->0);
            let b = choose|i: int|
                0 <= i < less.len() && (#[trigger] less[i]).end == Cache::newest(less)->0;
            assert(events[b].end == Cache::newest(less)->0);
        }
    }
}

/// What is said of how much is kept: as many events and calendars as there are, from the earliest
/// start to the latest end of an event.
pub proof fn law_counts(cache: Cache, bytes: u64, r: CacheStats)
    requires
        call_ensures(Cache::stats, (&cache, bytes), r),
    ensures
        r.event_count == cache.events@.len(),
        r.calendar_count == cache.calendars@.len(),
        r.fetched_range_count == cache.fetched@.len(),
        r.bytes == bytes,
        cache.events@.len() == 0 <==> r.oldest_event is None,
        r.oldest_event matches Some(text) ==> exists|i: int|
            0 <= i < cache.events@.len() && text@ == instant_text(
                (#[trigger] cache.events@[i]).start,
                false,
            ) && forall|j: int|
                0 <= j < cache.events@.len() ==> cache.events@[i].start.nanos <= (
                #[trigger] cache.events@[j]).start.nanos,
        r.newest_event matches Some(text) ==> exists|i: int|
            0 <= i < cache.events@.len() && text@ == instant_text(
                (#[trigger] cache.events@[i]).end,
                false,
            ) && forall|j: int|
                0 <= j < cache.events@.len() ==> cache.events@[i].end.nanos >= (
                #[trigger] cache.events@[j]).end.nanos,
{
    lemma_oldest(cache.events@);
}

/// A damaged file is put aside under a name that begins with its own; the numbers that are tried
/// give different names.
pub proof fn law_names_put_aside(name: &str, time: &str, a: u32, b: u32, first: String, second: String)
    requires
        call_ensures(quarantine_name, (name, time, a), first),
        call_ensures(quarantine_name, (name, time, b), second),
        a != b,
    ensures
        first@ != second@,
        first@.len() >= name@.len() + time@.len(),
        first@.take(name@.len() as int) == name@,
{
    let head = name@ + ".corrupt."@ + time@;
    lemma_decimal(a as nat);
    lemma_decimal(b as nat);
    reveal_strlit(".");
    assert(first@.take(name@.len() as int) =~= name@);
    if a > 0 {
        assert(first@.skip(head.len() as int + 1) =~= decimal(a as nat));
        assert(first@.len() > head.len());
    }
    if b > 0 {
        assert(second@.skip(head.len() as int + 1) =~= decimal(b as nat));
        assert(second@.len() > head.len());
    }
}

} // verus!
