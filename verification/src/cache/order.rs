//! The order in which what is kept is read, and what is looked for in it.

use crate::model::{event_views, CalendarInfo, Event, EventView};
use crate::search::{attendee_list, attendee_texts};
use crate::sorting::{indices, key_views, lemma_same_choice, order_chosen, ordered};
use crate::text::{
    chars_of, contains, join, joined, lowercase, occurs_in, split_words, texts, to_lowercase, words,
};
use crate::time::{Date, Timestamp};
use vstd::prelude::*;
use vstd::string::StringExecFns;

verus! {

/// A text as numbers that are ordered as its characters are.
pub open spec fn codes(text: Seq<char>) -> Seq<i128> {
    text.map_values(|c: char| c as u32 as i128)
}

/// By account, and then by title.
pub open spec fn calendar_key(calendar: CalendarInfo) -> Seq<i128> {
    codes(calendar.account@).push((-1) as i128) + codes(calendar.title@)
}

/// By start, and then by title.
pub open spec fn event_key(event: EventView) -> Seq<i128> {
    seq![event.start.nanos] + codes(event.title)
}

/// The keys of calendars.
pub open spec fn calendar_keys(rows: Seq<CalendarInfo>) -> Seq<Seq<i128>> {
    rows.map_values(|calendar: CalendarInfo| calendar_key(calendar))
}

/// The keys of events.
pub open spec fn event_keys(rows: Seq<EventView>) -> Seq<Seq<i128>> {
    rows.map_values(|event: EventView| event_key(event))
}

/// The starts of events.
pub open spec fn start_keys(rows: Seq<EventView>) -> Seq<Seq<i128>> {
    rows.map_values(|event: EventView| seq![event.start.nanos])
}

/// All indices in the order of their keys.
pub open spec fn whole_order(keys: Seq<Seq<i128>>) -> Seq<int> {
    ordered(keys, |i: int| true, keys.len() as int)
}

pub(crate) fn push_codes(key: &mut Vec<i128>, text: &str)
    ensures
        final(key)@ == old(key)@ + codes(text@),
{
    let chars = chars_of(text);
    let mut i: usize = 0;
    proof {
        assert(key@ =~= old(key)@ + codes(text@).take(0));
    }
    while i < chars.len()
        invariant
            i <= chars@.len(),
            chars@ == text@,
            key@ == old(key)@ + codes(text@).take(i as int),
        decreases chars@.len() - i,
    {
        key.push(chars[i] as u32 as i128);
        proof {
            assert(key@ =~= old(key)@ + codes(text@).take(i + 1));
        }
        i += 1;
    }
    proof {
        assert(codes(text@).take(i as int) =~= codes(text@));
    }
}

pub(crate) fn order_all(keys: &Vec<Vec<i128>>) -> (r: Vec<usize>)
    ensures
        indices(r@) == whole_order(key_views(keys@)),
        forall|i: int| 0 <= i < r@.len() ==> #[trigger] r@[i] < keys@.len(),
{
    let mut chosen: Vec<bool> = Vec::new();
    while chosen.len() < keys.len()
        invariant
            chosen@.len() <= keys@.len(),
            forall|j: int| 0 <= j < chosen@.len() ==> #[trigger] chosen@[j],
        decreases keys@.len() - chosen@.len(),
    {
        chosen.push(true);
    }
    proof {
        lemma_same_choice(
            key_views(keys@),
            |i: int| chosen@[i],
            |i: int| true,
            keys@.len() as int,
        );
    }
    order_chosen(keys, &chosen)
}

/// The wanted events, in the order of indices.
pub open spec fn gathered(
    rows: Seq<EventView>,
    order: Seq<int>,
    wanted: spec_fn(EventView) -> bool,
) -> Seq<EventView>
    decreases order.len(),
{
    if order.len() == 0 {
        Seq::empty()
    } else {
        let rest = gathered(rows, order.drop_last(), wanted);
        if wanted(rows[order.last()]) {
            rest.push(rows[order.last()])
        } else {
            rest
        }
    }
}

/// Whether an event is on a day: by its dates where it has any that can be trusted, and else by its
/// instants.
pub open spec fn on_day(
    start: Timestamp,
    end: Timestamp,
    start_date: Date,
    end_date_exclusive: Date,
) -> spec_fn(EventView) -> bool {
    |event: EventView|
        match view_dates(event) {
            Some(dates) => dates.0.day < end_date_exclusive.day && dates.1.day > start_date.day,
            None => event.start.nanos < end.nanos && event.end.nanos > start.nanos,
        }
}

/// The dates of an all-day event, where they are known and in order.
pub open spec fn view_dates(event: EventView) -> Option<(Date, Date)> {
    match (event.all_day_start_date, event.all_day_end_date_exclusive) {
        (Some(start), Some(end)) => if event.all_day && start.day < end.day {
            Some((start, end))
        } else {
            None
        },
        _ => None,
    }
}

/// The text in which words are looked for.
pub open spec fn search_text(event: EventView) -> Seq<char> {
    lowercase(
        event.title + " "@ + event.location + " "@ + event.notes + " "@ + joined(
            attendee_texts(event),
            " "@,
        ),
    )
}

/// The words that are looked for.
pub open spec fn search_words(query: Seq<char>) -> Seq<Seq<char>> {
    words(query).map_values(|word: Seq<char>| lowercase(word))
}

/// Whether an event holds all words.
pub open spec fn holds_words(wanted: Seq<Seq<char>>) -> spec_fn(EventView) -> bool {
    |event: EventView|
        forall|i: int|
            0 <= i < wanted.len() ==> occurs_in(search_text(event), #[trigger] wanted[i])
}

/// The text in which words are looked for.
pub fn search_text_of(event: &Event) -> (r: String)
    ensures
        r@ == search_text(event@),
{
    let list = attendee_list(event);
    let people = join(&list, " ");
    let mut text = event.title.clone();
    text.append(" ");
    text.append(event.location.as_str());
    text.append(" ");
    text.append(event.notes.as_str());
    text.append(" ");
    text.append(people.as_str());
    to_lowercase(text.as_str())
}

pub(crate) fn words_of(query: &str) -> (r: Vec<String>)
    ensures
        texts(r@) == search_words(query@),
{
    let list = split_words(query);
    let mut r: Vec<String> = Vec::new();
    let mut i: usize = 0;
    while i < list.len()
        invariant
            i <= list@.len(),
            r@.len() == i,
            forall|k: int| 0 <= k < i ==> (#[trigger] r@[k])@ == lowercase(list@[k]@),
        decreases list@.len() - i,
    {
        r.push(to_lowercase(list[i].as_str()));
        i += 1;
    }
    proof {
        assert forall|k: int| 0 <= k < r@.len() implies texts(r@)[k] == search_words(query@)[k] by {
            assert(texts(list@)[k] == list@[k]@);
        }
        assert(texts(r@) =~= search_words(query@));
    }
    r
}

pub(crate) fn has_words(event: &Event, wanted: &Vec<String>) -> (r: bool)
    ensures
        r == holds_words(texts(wanted@))(event@),
{
    let text = search_text_of(event);
    let mut i: usize = 0;
    while i < wanted.len()
        invariant
            i <= wanted@.len(),
            text@ == search_text(event@),
            forall|k: int| 0 <= k < i ==> occurs_in(text@, #[trigger] texts(wanted@)[k]),
        decreases wanted@.len() - i,
    {
        proof {
            assert(texts(wanted@)[i as int] == wanted@[i as int]@);
        }
        if !contains(text.as_str(), wanted[i].as_str()) {
            return false;
        }
        i += 1;
    }
    true
}

pub(crate) fn event_on_day(
    event: &Event,
    start: Timestamp,
    end: Timestamp,
    start_date: Date,
    end_date_exclusive: Date,
) -> (r: bool)
    ensures
        r == on_day(start, end, start_date, end_date_exclusive)(event@),
{
    if event.all_day_date_range().is_some() {
        event.all_day_intersects_dates(start_date, end_date_exclusive)
    } else {
        event.start.nanos < end.nanos && event.end.nanos > start.nanos
    }
}

pub(crate) fn title_order(events: &Vec<Event>) -> (r: Vec<usize>)
    ensures
        indices(r@) == whole_order(event_keys(event_views(events@))),
        forall|i: int| 0 <= i < r@.len() ==> #[trigger] r@[i] < events@.len(),
{
    let mut keys: Vec<Vec<i128>> = Vec::new();
    let mut i: usize = 0;
    while i < events.len()
        invariant
            i <= events@.len(),
            keys@.len() == i,
            forall|k: int| 0 <= k < i ==> (#[trigger] keys@[k])@ == event_key(events@[k]@),
        decreases events@.len() - i,
    {
        let mut key: Vec<i128> = Vec::new();
        key.push(events[i].start.nanos);
        proof {
            assert(key@ =~= seq![events@[i as int].start.nanos]);
        }
        push_codes(&mut key, events[i].title.as_str());
        keys.push(key);
        i += 1;
    }
    proof {
        assert(key_views(keys@) =~= event_keys(event_views(events@)));
    }
    order_all(&keys)
}

pub(crate) fn start_order(events: &Vec<Event>) -> (r: Vec<usize>)
    ensures
        indices(r@) == whole_order(start_keys(event_views(events@))),
        forall|i: int| 0 <= i < r@.len() ==> #[trigger] r@[i] < events@.len(),
{
    let mut keys: Vec<Vec<i128>> = Vec::new();
    let mut i: usize = 0;
    while i < events.len()
        invariant
            i <= events@.len(),
            keys@.len() == i,
            forall|k: int| 0 <= k < i ==> (#[trigger] keys@[k])@ == seq![events@[k].start.nanos],
        decreases events@.len() - i,
    {
        let mut key: Vec<i128> = Vec::new();
        key.push(events[i].start.nanos);
        proof {
            assert(key@ =~= seq![events@[i as int].start.nanos]);
        }
        keys.push(key);
        i += 1;
    }
    proof {
        assert(key_views(keys@) =~= start_keys(event_views(events@)));
    }
    order_all(&keys)
}

pub(crate) fn calendars_in_order(rows: &Vec<CalendarInfo>) -> (r: Vec<CalendarInfo>)
    ensures
        r@ == whole_order(calendar_keys(rows@)).map_values(|i: int| rows@[i]),
{
    let mut keys: Vec<Vec<i128>> = Vec::new();
    let mut i: usize = 0;
    while i < rows.len()
        invariant
            i <= rows@.len(),
            keys@.len() == i,
            forall|k: int| 0 <= k < i ==> (#[trigger] keys@[k])@ == calendar_key(rows@[k]),
        decreases rows@.len() - i,
    {
        let mut key: Vec<i128> = Vec::new();
        push_codes(&mut key, rows[i].account.as_str());
        key.push(-1);
        push_codes(&mut key, rows[i].title.as_str());
        proof {
            assert(key@ =~= calendar_key(rows@[i as int]));
        }
        keys.push(key);
        i += 1;
    }
    proof {
        assert(key_views(keys@) =~= calendar_keys(rows@));
    }
    let list = order_all(&keys);
    let mut r: Vec<CalendarInfo> = Vec::new();
    let mut k: usize = 0;
    while k < list.len()
        invariant
            k <= list@.len(),
            r@.len() == k,
            forall|j: int| 0 <= j < list@.len() ==> #[trigger] list@[j] < rows@.len(),
            forall|j: int| 0 <= j < k ==> #[trigger] r@[j] == rows@[list@[j] as int],
        decreases list@.len() - k,
    {
        r.push(rows[list[k]].clone());
        k += 1;
    }
    proof {
        let wanted = whole_order(calendar_keys(rows@)).map_values(|i: int| rows@[i]);
        assert forall|j: int| 0 <= j < r@.len() implies r@[j] == wanted[j] by {
            assert(indices(list@)[j] == list@[j]);
        }
        assert(r@ =~= wanted);
    }
    r
}


pub proof fn lemma_gathered_prefix(
    rows: Seq<EventView>,
    order: Seq<int>,
    wanted: spec_fn(EventView) -> bool,
    n: int,
)
    requires
        0 <= n <= order.len(),
    ensures
        gathered(rows, order.take(n), wanted).len() <= gathered(rows, order, wanted).len(),
        gathered(rows, order, wanted).take(
            gathered(rows, order.take(n), wanted).len() as int,
        ) == gathered(rows, order.take(n), wanted),
    decreases order.len() - n,
{
    if n == order.len() {
        assert(order.take(n) =~= order);
        let all = gathered(rows, order, wanted);
        assert(all.take(all.len() as int) =~= all);
    } else {
        lemma_gathered_prefix(rows, order, wanted, n + 1);
        assert(order.take(n + 1).drop_last() =~= order.take(n));
        let all = gathered(rows, order, wanted);
        let more = gathered(rows, order.take(n + 1), wanted);
        let less = gathered(rows, order.take(n), wanted);
        assert(all.take(less.len() as int) =~= all.take(more.len() as int).take(less.len() as int));
        assert(more.take(less.len() as int) =~= less);
    }
}

} // verus!
