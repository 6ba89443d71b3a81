//! What is kept of the calendars between two runs: the calendars, the events, and which times have
//! been fetched. The provider decides; what is kept can be lost and fetched again.

use self::damage::{failure, is_failure};
use self::order::{
    calendar_keys, calendars_in_order, event_keys, event_on_day, gathered, has_words, holds_words,
    lemma_gathered_prefix, on_day, search_words, start_keys, start_order, title_order, whole_order,
    words_of,
};
use self::rows::{
    inside, listed, not_orphaned, outside, put_all, put_calendars, put_events, retain_events,
    upsert_all,
};
use crate::coverage::{
    are_missing, covers_all, fetched_from, fetched_ranges_from, meets, missing_ranges, prune_ranges,
    range_is_fetched, record_fetched_range, recorded, DateRange,
};
use crate::model::{
    event_views, find_calendar, AuthorizationStatus, CalendarInfo, Event, EventView, Snapshot,
};
use crate::seqs::{lemma_filter_all, lemma_filter_remove};
use crate::sorting::indices;
use crate::text::{concat2, decimal, opt_view, same_text, texts, to_decimal};
use crate::time::{instant_text, rfc3339_text, Date, Timestamp};
use vstd::prelude::*;
use vstd::string::StringExecFns;

pub mod damage;
pub mod laws;
pub mod order;
pub mod rows;

verus! {

/// The version of the layout in which the cache is kept.
pub const CACHE_SCHEMA_VERSION: u32 = 3;

/// The files that were put aside because what they held could not be read.
#[derive(Debug, PartialEq, Eq)]
pub struct CacheRecovery {
    pub quarantined_paths: Vec<String>,
}

/// What is kept, and in which file.
#[derive(Debug)]
pub struct Cache {
    pub path: String,
    pub version: u32,
    pub calendars: Vec<CalendarInfo>,
    pub events: Vec<Event>,
    pub fetched: Vec<DateRange>,
    pub authorization: AuthorizationStatus,
    pub updated_at: Option<Timestamp>,
}

/// How much is kept.
#[derive(Debug, PartialEq, Eq)]
pub struct CacheStats {
    pub bytes: u64,
    pub event_count: u64,
    pub calendar_count: u64,
    pub oldest_event: Option<String>,
    pub newest_event: Option<String>,
    pub schema_version: u32,
    pub fetched_range_count: u64,
}

/// What an attempt to open a cache came to.
#[derive(Debug)]
pub enum Opening {
    Opened(Cache),
    /// The file is damaged: it is put aside, and the cache is begun anew.
    Corrupted(String),
    Failed(String),
}

impl Cache {
    /// A cache that holds nothing.
    pub fn empty(path: String) -> (r: Self)
        ensures
            r.path == path,
            r.version == CACHE_SCHEMA_VERSION,
            r.calendars@ == Seq::<CalendarInfo>::empty(),
            r.events@ == Seq::<Event>::empty(),
            r.fetched@ == Seq::<DateRange>::empty(),
            r.authorization == AuthorizationStatus::NotDetermined,
            r.updated_at is None,
    {
        Cache {
            path,
            version: CACHE_SCHEMA_VERSION,
            calendars: Vec::new(),
            events: Vec::new(),
            fetched: Vec::new(),
            authorization: AuthorizationStatus::NotDetermined,
            updated_at: None,
        }
    }

    /// What is said of a cache that a later release has written.
    pub open spec fn newer_text(version: u32) -> Seq<char> {
        "cache schema version "@ + decimal(version as nat)
            + " is newer than this tui-calendar release (supports up to "@ + decimal(
            CACHE_SCHEMA_VERSION as nat,
        ) + "); update tui-calendar before opening this cache"@
    }

    /// What is wrong with a cache, where the database has been checked.
    pub open spec fn fault(self, integrity: Seq<char>) -> Option<Seq<char>> {
        if integrity != "ok"@ {
            Some("SQLite integrity check: "@ + integrity)
        } else if self.version > CACHE_SCHEMA_VERSION {
            Some(Self::newer_text(self.version))
        } else {
            None
        }
    }

    /// Whether a cache is what opening a sound one gives: what was stored, in the present layout.
    /// Events of a layout before the third, and what was known to be fetched, are dropped.
    pub open spec fn is_opened(self, stored: Cache) -> bool {
        &&& self == (Cache {
            version: CACHE_SCHEMA_VERSION,
            events: self.events,
            fetched: self.fetched,
            ..stored
        })
        &&& if stored.version < 3 {
            self.events@ == Seq::<Event>::empty() && self.fetched@ == Seq::<DateRange>::empty()
        } else {
            self.events == stored.events && self.fetched == stored.fetched
        }
    }

    /// Opens a cache that holds what was stored. Events of an older layout do not tell the
    /// occurrences of a series apart: they are dropped, with what was known to be fetched, and
    /// fetched again. The calendars and whether they are shown stay.
    pub fn open(stored: Cache, integrity: &str) -> (r: Result<Cache, String>)
        ensures
            match stored.fault(integrity@) {
                Some(text) => r is Err && r->Err_0@ == text,
                None => r matches Ok(cache) && cache.is_opened(stored),
            },
    {
        if !same_text(integrity, "ok") {
            return Err(concat2("SQLite integrity check: ", integrity));
        }
        if stored.version > CACHE_SCHEMA_VERSION {
            let mut text = "cache schema version ".to_owned();
            text.append(to_decimal(stored.version as u64).as_str());
            text.append(" is newer than this tui-calendar release (supports up to ");
            text.append(to_decimal(CACHE_SCHEMA_VERSION as u64).as_str());
            text.append("); update tui-calendar before opening this cache");
            return Err(text);
        }
        let mut cache = stored;
        if cache.version < 3 {
            cache.events = Vec::new();
            cache.fetched = Vec::new();
        }
        cache.version = CACHE_SCHEMA_VERSION;
        Ok(cache)
    }

    /// Opens a cache, where the file could be read. Only damage leads to a new cache: other
    /// failures are the user's to mend, and nothing is put at risk.
    pub fn open_with_recovery(stored: Result<Cache, String>, integrity: &str) -> (r: Opening)
        ensures
            match stored {
                Ok(cache) => match cache.fault(integrity@) {
                    None => r matches Opening::Opened(opened) && opened.is_opened(cache),
                    Some(text) => is_failure(r, text),
                },
                Err(text) => is_failure(r, text@),
            },
    {
        match stored {
            Ok(cache) => match Cache::open(cache, integrity) {
                Ok(cache) => Opening::Opened(cache),
                Err(text) => failure(text),
            },
            Err(text) => failure(text),
        }
    }

    /// The version of the layout.
    pub fn schema_version(&self) -> (r: u32)
        ensures
            r == self.version,
    {
        self.version
    }

    /// The file.
    pub fn path(&self) -> (r: &str)
        ensures
            r@ == self.path@,
    {
        self.path.as_str()
    }

    /// Whether the database's own check found nothing.
    pub fn health_check(integrity: &str) -> (r: Result<(), String>)
        ensures
            r is Ok <==> integrity@ == "ok"@,
            r matches Err(text) ==> text@ == "SQLite integrity check: "@ + integrity@,
    {
        if same_text(integrity, "ok") {
            Ok(())
        } else {
            Err(concat2("SQLite integrity check: ", integrity))
        }
    }

    /// The earliest start of an event.
    pub open spec fn oldest(events: Seq<Event>) -> Option<Timestamp>
        decreases events.len(),
    {
        if events.len() == 0 {
            None
        } else {
            let last = events.last().start;
            match Self::oldest(events.drop_last()) {
                Some(at) => Some(
                    if last.nanos < at.nanos {
                        last
                    } else {
                        at
                    },
                ),
                None => Some(last),
            }
        }
    }

    /// The latest end of an event.
    pub open spec fn newest(events: Seq<Event>) -> Option<Timestamp>
        decreases events.len(),
    {
        if events.len() == 0 {
            None
        } else {
            let last = events.last().end;
            match Self::newest(events.drop_last()) {
                Some(at) => Some(
                    if last.nanos > at.nanos {
                        last
                    } else {
                        at
                    },
                ),
                None => Some(last),
            }
        }
    }

    /// An instant as it is kept.
    pub open spec fn kept_text(at: Option<Timestamp>) -> Option<Seq<char>> {
        match at {
            Some(at) => Some(instant_text(at, false)),
            None => None,
        }
    }

    /// How much is kept, in a file of a size.
    pub fn stats(&self, bytes: u64) -> (r: CacheStats)
        ensures
            r.bytes == bytes,
            r.event_count == self.events@.len(),
            r.calendar_count == self.calendars@.len(),
            r.fetched_range_count == self.fetched@.len(),
            r.schema_version == self.version,
            opt_view(r.oldest_event) == Self::kept_text(Self::oldest(self.events@)),
            opt_view(r.newest_event) == Self::kept_text(Self::newest(self.events@)),
    {
        let mut oldest: Option<Timestamp> = None;
        let mut newest: Option<Timestamp> = None;
        let mut i: usize = 0;
        proof {
            assert(self.events@.take(0) =~= Seq::<Event>::empty());
        }
        while i < self.events.len()
            invariant
                i <= self.events@.len(),
                oldest == Self::oldest(self.events@.take(i as int)),
                newest == Self::newest(self.events@.take(i as int)),
            decreases self.events@.len() - i,
        {
            let start = self.events[i].start;
            let end = self.events[i].end;
            proof {
                assert(self.events@.take(i + 1).drop_last() =~= self.events@.take(i as int));
                assert(self.events@.take(i + 1).last() == self.events@[i as int]);
            }
            oldest = match oldest {
                Some(at) => if start.nanos < at.nanos {
                    Some(start)
                } else {
                    Some(at)
                },
                None => Some(start),
            };
            newest = match newest {
                Some(at) => if end.nanos > at.nanos {
                    Some(end)
                } else {
                    Some(at)
                },
                None => Some(end),
            };
            i += 1;
        }
        proof {
            assert(self.events@.take(i as int) =~= self.events@);
        }
        CacheStats {
            bytes,
            event_count: self.events.len() as u64,
            calendar_count: self.calendars.len() as u64,
            oldest_event: match oldest {
                Some(at) => Some(rfc3339_text(at, false)),
                None => None,
            },
            newest_event: match newest {
                Some(at) => Some(rfc3339_text(at, false)),
                None => None,
            },
            schema_version: self.version,
            fetched_range_count: self.fetched.len() as u64,
        }
    }

    /// The cache without the events that do not take place between two instants, and without what
    /// was fetched outside.
    pub open spec fn is_pruned(self, start: Timestamp, end: Timestamp, post: Cache) -> bool {
        &&& post == (Cache { events: post.events, fetched: post.fetched, ..self })
        &&& event_views(post.events@) == event_views(self.events@).filter(inside(start, end))
        &&& post.fetched@ == self.fetched@.filter(
            |range: DateRange| meets(range, DateRange { start, end }),
        )
    }

    /// Drops the events that do not take place between two instants, and what was fetched outside.
    pub fn prune_outside(&mut self, start: Timestamp, end: Timestamp) -> (r: usize)
        ensures
            old(self).is_pruned(start, end, *final(self)),
            r == old(self).events@.len() - final(self).events@.len(),
    {
        let before: usize = self.events.len();
        let mut keep: Vec<bool> = Vec::new();
        let mut i: usize = 0;
        while i < self.events.len()
            invariant
                i <= self.events@.len(),
                keep@.len() == i,
                forall|k: int|
                    0 <= k < i ==> #[trigger] keep@[k] == inside(start, end)(self.events@[k]@),
            decreases self.events@.len() - i,
        {
            keep.push(
                self.events[i].end.nanos > start.nanos && self.events[i].start.nanos < end.nanos,
            );
            i += 1;
        }
        retain_events(&mut self.events, &keep, Ghost(inside(start, end)));
        prune_ranges(&mut self.fetched, start, end);
        proof {
            event_views(old(self).events@).lemma_filter_len(inside(start, end));
        }
        before - self.events.len()
    }

    /// All that is kept: the calendars by account and title, the events by start and title.
    pub fn load_snapshot(&self) -> (r: Snapshot)
        ensures
            r.calendars@ == whole_order(calendar_keys(self.calendars@)).map_values(
                |i: int| self.calendars@[i],
            ),
            event_views(r.events@) == whole_order(event_keys(event_views(self.events@))).map_values(
                |i: int| event_views(self.events@)[i],
            ),
            r.authorization == self.authorization,
            r.updated_at == self.updated_at,
    {
        let list = title_order(&self.events);
        let mut events: Vec<Event> = Vec::new();
        let mut k: usize = 0;
        while k < list.len()
            invariant
                k <= list@.len(),
                events@.len() == k,
                forall|j: int| 0 <= j < list@.len() ==> #[trigger] list@[j] < self.events@.len(),
                forall|j: int|
                    0 <= j < k ==> (#[trigger] events@[j])@ == self.events@[list@[j] as int]@,
            decreases list@.len() - k,
        {
            events.push(self.events[list[k]].clone());
            k += 1;
        }
        proof {
            let wanted = whole_order(event_keys(event_views(self.events@))).map_values(
                |i: int| event_views(self.events@)[i],
            );
            assert forall|j: int| 0 <= j < events@.len() implies event_views(events@)[j]
                == wanted[j] by {
                assert(indices(list@)[j] == list@[j]);
            }
            assert(event_views(events@) =~= wanted);
        }
        Snapshot {
            calendars: calendars_in_order(&self.calendars),
            events,
            authorization: self.authorization,
            updated_at: self.updated_at,
        }
    }

    /// The events on a day, by start and title.
    pub fn events_intersecting_diagnostic_day(
        &self,
        start: Timestamp,
        end: Timestamp,
        start_date: Date,
        end_date_exclusive: Date,
    ) -> (r: Vec<Event>)
        ensures
            event_views(r@) == gathered(
                event_views(self.events@),
                whole_order(event_keys(event_views(self.events@))),
                on_day(start, end, start_date, end_date_exclusive),
            ),
    {
        let list = title_order(&self.events);
        let ghost rows = event_views(self.events@);
        let ghost order = indices(list@);
        let ghost p = on_day(start, end, start_date, end_date_exclusive);
        let mut r: Vec<Event> = Vec::new();
        let mut k: usize = 0;
        proof {
            assert(order.take(0) =~= Seq::<int>::empty());
            assert(event_views(r@) =~= Seq::<EventView>::empty());
        }
        while k < list.len()
            invariant
                k <= list@.len(),
                rows == event_views(self.events@),
                order == indices(list@),
                p == on_day(start, end, start_date, end_date_exclusive),
                forall|j: int| 0 <= j < list@.len() ==> #[trigger] list@[j] < self.events@.len(),
                event_views(r@) == gathered(rows, order.take(k as int), p),
            decreases list@.len() - k,
        {
            let event = &self.events[list[k]];
            proof {
                assert(order.take(k + 1).drop_last() =~= order.take(k as int));
                assert(order.take(k + 1).last() == list@[k as int]);
                assert(rows[list@[k as int] as int] == event@);
            }
            if event_on_day(event, start, end, start_date, end_date_exclusive) {
                let ghost before = r@;
                r.push(event.clone());
                proof {
                    assert(event_views(r@) =~= event_views(before).push(event@));
                }
            }
            k += 1;
        }
        proof {
            assert(order.take(k as int) =~= order);
        }
        r
    }

    /// The cache with the provider's calendars.
    pub open spec fn takes_calendars(self, list: Seq<CalendarInfo>, post: Cache) -> bool {
        &&& post == (Cache { calendars: post.calendars, events: post.events, ..self })
        &&& post.calendars@ == upsert_all(self.calendars@, list).filter(listed(list))
        &&& event_views(post.events@) == event_views(self.events@).filter(
            not_orphaned(upsert_all(self.calendars@, list), list),
        )
    }

    /// Takes over the provider's calendars. Whether a calendar is shown stays; calendars that are
    /// not in the list leave, with their events.
    pub fn save_calendars(&mut self, list: &Vec<CalendarInfo>)
        ensures
            old(self).takes_calendars(list@, *final(self)),
    {
        put_calendars(&mut self.calendars, list);
        let ghost rows = self.calendars@;
        let ghost p = not_orphaned(rows, list@);
        let mut keep: Vec<bool> = Vec::new();
        let mut i: usize = 0;
        while i < self.events.len()
            invariant
                i <= self.events@.len(),
                keep@.len() == i,
                rows == self.calendars@,
                p == not_orphaned(rows, list@),
                forall|k: int| 0 <= k < i ==> #[trigger] keep@[k] == p(self.events@[k]@),
            decreases self.events@.len() - i,
        {
            let id = self.events[i].calendar_id.as_str();
            let known = find_calendar(&self.calendars, id).is_some();
            let still = find_calendar(list, id).is_some();
            keep.push(!known || still);
            i += 1;
        }
        retain_events(&mut self.events, &keep, Ghost(p));
        let ghost q = listed(list@);
        let mut k: usize = 0;
        let ghost events = self.events;
        while k < self.calendars.len()
            invariant
                k <= self.calendars@.len(),
                q == listed(list@),
                *self == (Cache { calendars: self.calendars, events, ..*old(self) }),
                self.calendars@.filter(q) == rows.filter(q),
                forall|j: int| 0 <= j < k ==> q(#[trigger] self.calendars@[j]),
            decreases self.calendars@.len() - k,
        {
            if find_calendar(list, self.calendars[k].id.as_str()).is_none() {
                proof {
                    lemma_filter_remove(self.calendars@, q, k as int);
                }
                self.calendars.remove(k);
            } else {
                k += 1;
            }
        }
        proof {
            lemma_filter_all(self.calendars@, q);
        }
    }

    /// The cache with a calendar shown or hidden.
    pub open spec fn shows(self, id: Seq<char>, enabled: bool, post: Cache) -> bool {
        &&& post == (Cache { calendars: post.calendars, ..self })
        &&& post.calendars@.len() == self.calendars@.len()
        &&& forall|i: int|
            0 <= i < self.calendars@.len() ==> #[trigger] post.calendars@[i] == (
            if self.calendars@[i].id@ == id {
                CalendarInfo { enabled, ..self.calendars@[i] }
            } else {
                self.calendars@[i]
            })
    }

    /// Shows or hides a calendar.
    pub fn set_calendar_enabled(&mut self, id: &str, enabled: bool)
        ensures
            old(self).shows(id@, enabled, *final(self)),
    {
        let mut i: usize = 0;
        while i < self.calendars.len()
            invariant
                i <= self.calendars@.len(),
                *self == (Cache { calendars: self.calendars, ..*old(self) }),
                self.calendars@.len() == old(self).calendars@.len(),
                forall|k: int|
                    0 <= k < i ==> #[trigger] self.calendars@[k] == (if old(self).calendars@[k].id@
                        == id@ {
                        CalendarInfo { enabled, ..old(self).calendars@[k] }
                    } else {
                        old(self).calendars@[k]
                    }),
                forall|k: int|
                    i <= k < self.calendars@.len() ==> #[trigger] self.calendars@[k]
                        == old(self).calendars@[k],
            decreases self.calendars@.len() - i,
        {
            if same_text(self.calendars[i].id.as_str(), id) {
                let mut calendar = self.calendars[i].clone();
                calendar.enabled = enabled;
                self.calendars.set(i, calendar);
            }
            i += 1;
        }
    }

    /// The cache with what the provider holds between two instants, at a time.
    pub open spec fn takes_events(
        self,
        start: Timestamp,
        end: Timestamp,
        list: Seq<EventView>,
        now: Timestamp,
        post: Cache,
    ) -> bool {
        &&& post == (Cache {
            events: post.events,
            fetched: post.fetched,
            updated_at: Some(now),
            ..self
        })
        &&& event_views(post.events@) == put_all(
            event_views(self.events@).filter(outside(start, end)),
            list,
        )
        &&& post.fetched@ == recorded(self.fetched@, DateRange { start, end })
    }

    /// Takes over what the provider holds between two instants, at a time: the events that were
    /// kept of it leave, the new ones come, and the range counts as fetched.
    pub fn replace_events(
        &mut self,
        start: Timestamp,
        end: Timestamp,
        events: &Vec<Event>,
        now: Timestamp,
    )
        ensures
            old(self).takes_events(start, end, event_views(events@), now, *final(self)),
    {
        let mut keep: Vec<bool> = Vec::new();
        let mut i: usize = 0;
        while i < self.events.len()
            invariant
                i <= self.events@.len(),
                keep@.len() == i,
                forall|k: int|
                    0 <= k < i ==> #[trigger] keep@[k] == outside(start, end)(self.events@[k]@),
            decreases self.events@.len() - i,
        {
            keep.push(
                !(self.events[i].start.nanos < end.nanos && self.events[i].end.nanos > start.nanos),
            );
            i += 1;
        }
        retain_events(&mut self.events, &keep, Ghost(outside(start, end)));
        put_events(&mut self.events, events);
        record_fetched_range(&mut self.fetched, start, end);
        self.updated_at = Some(now);
    }

    /// Whether every instant from `start` to before `end` has been fetched.
    pub fn range_is_fetched(&self, start: Timestamp, end: Timestamp) -> (r: bool)
        ensures
            r == (start.nanos < end.nanos && covers_all(self.fetched@, DateRange { start, end })),
    {
        range_is_fetched(&self.fetched, start, end)
    }

    /// The parts of a range that have not been fetched.
    pub fn missing_ranges(&self, start: Timestamp, end: Timestamp) -> (r: Vec<DateRange>)
        ensures
            are_missing(self.fetched@, DateRange { start, end }, r@),
    {
        missing_ranges(&self.fetched, start, end)
    }

    /// What has been fetched from an instant on.
    pub fn fetched_ranges_from(&self, start: Timestamp) -> (r: Vec<DateRange>)
        ensures
            r@ == fetched_from(self.fetched@, start),
    {
        fetched_ranges_from(&self.fetched, start)
    }

    /// Keeps what the user lets the calendar read.
    pub fn save_authorization(&mut self, status: AuthorizationStatus)
        ensures
            *final(self) == (Cache { authorization: status, ..*old(self) }),
    {
        self.authorization = status;
    }

    /// The events that hold all words of a query, by start: as many as wanted, but at least one
    /// where there is one.
    pub open spec fn found(self, query: Seq<char>, limit: int) -> Seq<EventView> {
        let rows = event_views(self.events@);
        let all = gathered(
            rows,
            whole_order(start_keys(rows)),
            holds_words(search_words(query)),
        );
        let most = if limit < 1 {
            1
        } else {
            limit
        };
        if search_words(query).len() == 0 {
            Seq::empty()
        } else if all.len() > most {
            all.take(most)
        } else {
            all
        }
    }

    /// The events that hold all words of a query, by start.
    pub fn search(&self, query: &str, limit: usize) -> (r: Vec<Event>)
        ensures
            event_views(r@) == self.found(query@, limit as int),
    {
        let wanted = words_of(query);
        let mut r: Vec<Event> = Vec::new();
        proof {
            assert(event_views(r@) =~= Seq::<EventView>::empty());
        }
        if wanted.len() == 0 {
            return r;
        }
        let list = start_order(&self.events);
        let ghost rows = event_views(self.events@);
        let ghost order = indices(list@);
        let ghost p = holds_words(texts(wanted@));
        let mut k: usize = 0;
        proof {
            assert(order.take(0) =~= Seq::<int>::empty());
        }
        while k < list.len()
            invariant
                k <= list@.len(),
                rows == event_views(self.events@),
                order == indices(list@),
                order == whole_order(start_keys(rows)),
                texts(wanted@) == search_words(query@),
                wanted@.len() > 0,
                p == holds_words(texts(wanted@)),
                forall|j: int| 0 <= j < list@.len() ==> #[trigger] list@[j] < self.events@.len(),
                event_views(r@) == gathered(rows, order.take(k as int), p),
                r@.len() == 0 || r@.len() < limit,
            decreases list@.len() - k,
        {
            let event = &self.events[list[k]];
            proof {
                assert(order.take(k + 1).drop_last() =~= order.take(k as int));
                assert(order.take(k + 1).last() == list@[k as int]);
                assert(rows[list@[k as int] as int] == event@);
            }
            if has_words(event, &wanted) {
                let ghost before = r@;
                r.push(event.clone());
                proof {
                    assert(event_views(r@) =~= event_views(before).push(event@));
                }
                if r.len() >= limit {
                    proof {
                        lemma_gathered_prefix(rows, order, p, k + 1);
                        let all = gathered(rows, order, p);
                        assert(all.take(r@.len() as int) =~= event_views(r@));
                        assert(texts(wanted@).len() == wanted@.len());
                        assert(all.take(all.len() as int) =~= all);
                    }
                    return r;
                }
            }
            k += 1;
        }
        proof {
            assert(order.take(k as int) =~= order);
            assert(texts(wanted@).len() == wanted@.len());
        }
        r
    }
}

} // verus!
