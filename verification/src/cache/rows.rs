//! Events and calendars as rows: how they are put in and taken out.

use crate::model::{calendar_at, event_views, find_calendar, CalendarInfo, Event, EventView};
use crate::seqs::{lemma_filter_all, lemma_filter_remove};
use crate::text::same_text;
use crate::time::Timestamp;
use vstd::prelude::*;

verus! {

/// Whether an event has another identity.
pub open spec fn other_event(id: Seq<char>) -> spec_fn(EventView) -> bool {
    |event: EventView| event.id != id
}

/// Whether an event does not take place between two instants.
pub open spec fn outside(start: Timestamp, end: Timestamp) -> spec_fn(EventView) -> bool {
    |event: EventView| !(event.start.nanos < end.nanos && event.end.nanos > start.nanos)
}

/// Whether an event ends after an instant and starts before another.
pub open spec fn inside(start: Timestamp, end: Timestamp) -> spec_fn(EventView) -> bool {
    |event: EventView| event.end.nanos > start.nanos && event.start.nanos < end.nanos
}

/// The events once another is put among them: one with its identity leaves.
pub open spec fn put(rows: Seq<EventView>, event: EventView) -> Seq<EventView> {
    rows.filter(other_event(event.id)).push(event)
}

/// The events once others are put among them, one after the other.
pub open spec fn put_all(rows: Seq<EventView>, list: Seq<EventView>) -> Seq<EventView>
    decreases list.len(),
{
    if list.len() == 0 {
        rows
    } else {
        put(put_all(rows, list.drop_last()), list.last())
    }
}

/// The calendars once another is put among them: one with its identity is replaced, but whether it
/// is shown stays.
pub open spec fn upsert(rows: Seq<CalendarInfo>, calendar: CalendarInfo) -> Seq<CalendarInfo> {
    match calendar_at(rows, calendar.id@) {
        Some(i) => rows.update(i, CalendarInfo { enabled: rows[i].enabled, ..calendar }),
        None => rows.push(calendar),
    }
}

/// The calendars once others are put among them, one after the other.
pub open spec fn upsert_all(rows: Seq<CalendarInfo>, list: Seq<CalendarInfo>) -> Seq<CalendarInfo>
    decreases list.len(),
{
    if list.len() == 0 {
        rows
    } else {
        upsert(upsert_all(rows, list.drop_last()), list.last())
    }
}

/// Whether a calendar has the identity of one in a list.
pub open spec fn listed(list: Seq<CalendarInfo>) -> spec_fn(CalendarInfo) -> bool {
    |calendar: CalendarInfo| calendar_at(list, calendar.id@) is Some
}

/// Whether an event is in no calendar that was known and is not in a list.
pub open spec fn not_orphaned(
    rows: Seq<CalendarInfo>,
    list: Seq<CalendarInfo>,
) -> spec_fn(EventView) -> bool {
    |event: EventView|
        calendar_at(rows, event.calendar_id) is None || calendar_at(list, event.calendar_id) is Some
}

pub(crate) fn retain_events(events: &mut Vec<Event>, keep: &Vec<bool>, p: Ghost<spec_fn(EventView) -> bool>)
    requires
        keep@.len() == old(events)@.len(),
        forall|i: int| 0 <= i < keep@.len() ==> #[trigger] keep@[i] == (p@)(old(events)@[i]@),
    ensures
        event_views(final(events)@) == event_views(old(events)@).filter(p@),
{
    let mut i: usize = events.len();
    while i > 0
        invariant
            i <= events@.len(),
            i <= old(events)@.len(),
            keep@.len() == old(events)@.len(),
            forall|k: int| 0 <= k < keep@.len() ==> #[trigger] keep@[k] == (p@)(old(events)@[k]@),
            forall|k: int| 0 <= k < i ==> #[trigger] events@[k] == old(events)@[k],
            forall|k: int| i <= k < events@.len() ==> (p@)((#[trigger] events@[k])@),
            event_views(events@).filter(p@) == event_views(old(events)@).filter(p@),
        decreases i,
    {
        i -= 1;
        let ghost before = events@;
        if !keep[i] {
            proof {
                assert(event_views(before)[i as int] == before[i as int]@);
                lemma_filter_remove(event_views(before), p@, i as int);
            }
            events.remove(i);
            proof {
                assert(event_views(events@) =~= event_views(before).remove(i as int));
                assert forall|k: int| i <= k < events@.len() implies (p@)(
                    (#[trigger] events@[k])@,
                ) by {
                    assert(events@[k] == before[k + 1]);
                }
            }
        } else {
            proof {
                assert forall|k: int| i <= k < events@.len() implies (p@)(
                    (#[trigger] events@[k])@,
                ) by {
                    if k == i {
                        assert(keep@[k]);
                        assert(events@[k] == old(events)@[k]);
                    }
                }
            }
        }
    }
    proof {
        let views = event_views(events@);
        assert forall|k: int| 0 <= k < views.len() implies (p@)(#[trigger] views[k]) by {
            assert(views[k] == events@[k]@);
        }
        lemma_filter_all(views, p@);
    }
}

pub(crate) fn put_event(events: &mut Vec<Event>, event: Event)
    ensures
        event_views(final(events)@) == put(event_views(old(events)@), event@),
{
    let mut keep: Vec<bool> = Vec::new();
    let mut i: usize = 0;
    let ghost p = other_event(event.id@);
    while i < events.len()
        invariant
            i <= events@.len(),
            keep@.len() == i,
            p == other_event(event.id@),
            forall|k: int| 0 <= k < i ==> #[trigger] keep@[k] == p(events@[k]@),
        decreases events@.len() - i,
    {
        keep.push(!same_text(events[i].id.as_str(), event.id.as_str()));
        i += 1;
    }
    retain_events(events, &keep, Ghost(p));
    let ghost before = events@;
    events.push(event);
    proof {
        assert(event_views(events@) =~= event_views(before).push(event@));
    }
}

pub(crate) fn put_events(events: &mut Vec<Event>, list: &Vec<Event>)
    ensures
        event_views(final(events)@) == put_all(event_views(old(events)@), event_views(list@)),
{
    let mut i: usize = 0;
    proof {
        assert(event_views(list@).take(0) =~= Seq::<EventView>::empty());
    }
    while i < list.len()
        invariant
            i <= list@.len(),
            event_views(events@) == put_all(
                event_views(old(events)@),
                event_views(list@).take(i as int),
            ),
        decreases list@.len() - i,
    {
        proof {
            let next = event_views(list@).take(i + 1);
            assert(next.drop_last() =~= event_views(list@).take(i as int));
            assert(next.last() == list@[i as int]@);
        }
        put_event(events, list[i].clone());
        i += 1;
    }
    proof {
        assert(event_views(list@).take(i as int) =~= event_views(list@));
    }
}

pub(crate) fn put_calendars(rows: &mut Vec<CalendarInfo>, list: &Vec<CalendarInfo>)
    ensures
        final(rows)@ == upsert_all(old(rows)@, list@),
{
    let mut i: usize = 0;
    proof {
        assert(list@.take(0) =~= Seq::<CalendarInfo>::empty());
    }
    while i < list.len()
        invariant
            i <= list@.len(),
            rows@ == upsert_all(old(rows)@, list@.take(i as int)),
        decreases list@.len() - i,
    {
        proof {
            assert(list@.take(i + 1).drop_last() =~= list@.take(i as int));
            assert(list@.take(i + 1).last() == list@[i as int]);
        }
        let mut calendar = list[i].clone();
        match find_calendar(rows, calendar.id.as_str()) {
            Some(at) => {
                calendar.enabled = rows[at].enabled;
                rows.set(at, calendar);
            },
            None => {
                rows.push(calendar);
            },
        }
        i += 1;
    }
    proof {
        assert(list@.take(i as int) =~= list@);
    }
}

} // verus!
