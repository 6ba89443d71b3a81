//! Searching events: reading a query, and matching and ranking events against it.

use crate::model::{calendar_at, find_calendar, AttendeeView, CalendarInfo, Event, EventView};
use crate::sorting::{
    indices, key_less, key_views, law_order_is_complete, law_order_is_sorted, lemma_same_choice,
    order_chosen, ordered,
};
use crate::text::{
    char_is_white, chars_of, contains, has_prefix, is_white, join, joined, lemma_texts_push,
    lowercase, occurs_in, opt_view, same_text, split_words, starts_with, strip_prefix, texts,
    to_lowercase, without_prefix, words,
};
use crate::time::{falls_near, iso_date, local_wall_time, parse_iso_date, Date, Timestamp};
use vstd::prelude::*;
use vstd::string::StringExecFns;

verus! {

/// A text in the form in which texts are compared: its words with one space between them, in lower
/// case.
pub open spec fn normalized(text: Seq<char>) -> Seq<char> {
    lowercase(joined(words(text), " "@))
}

/// A text in the form in which texts are compared.
pub fn normalized_search_text(value: &str) -> (r: String)
    ensures
        r@ == normalized(value@),
{
    to_lowercase(join(&split_words(value), " ").as_str())
}

/// The tokens of a query that are complete before its end, the one that ends with it, and whether
/// that is inside quotes.
pub open spec fn tokens_open(input: Seq<char>) -> (Seq<Seq<char>>, Seq<char>, bool)
    decreases input.len(),
{
    if input.len() == 0 {
        (Seq::empty(), Seq::empty(), false)
    } else {
        let (done, token, quoted) = tokens_open(input.drop_last());
        let c = input.last();
        if c == '"' {
            (done, token, !quoted)
        } else if is_white(c) && !quoted {
            if token.len() == 0 {
                (done, token, quoted)
            } else {
                (done.push(token), Seq::empty(), quoted)
            }
        } else {
            (done, token.push(c), quoted)
        }
    }
}

/// The tokens of a query: its pieces between white space, where quotes keep white space in a piece.
pub open spec fn tokens(input: Seq<char>) -> Seq<Seq<char>> {
    let (done, token, _) = tokens_open(input);
    if token.len() == 0 {
        done
    } else {
        done.push(token)
    }
}

/// The tokens of a query.
pub fn search_tokens(input: &str) -> (r: Vec<String>)
    ensures
        texts(r@) == tokens(input@),
{
    let chars = chars_of(input);
    let mut done: Vec<String> = Vec::new();
    let mut token = String::new();
    let mut quoted = false;
    let mut i: usize = 0;
    proof {
        assert(chars@.take(0) =~= Seq::<char>::empty());
        assert(texts(done@) =~= Seq::<Seq<char>>::empty());
        assert(token@ =~= Seq::<char>::empty());
    }
    while i < chars.len()
        invariant
            i <= chars@.len(),
            (texts(done@), token@, quoted) == tokens_open(chars@.take(i as int)),
        decreases chars@.len() - i,
    {
        let c = chars[i];
        proof {
            assert(chars@.take(i + 1).drop_last() =~= chars@.take(i as int));
        }
        if c == '"' {
            quoted = !quoted;
        } else if char_is_white(c) && !quoted {
            if !token.as_str().is_empty() {
                let ghost d = done@;
                let ghost t = token;
                done.push(token);
                proof {
                    lemma_texts_push(d, t);
                }
                token = String::new();
                proof {
                    assert(token@ =~= Seq::<char>::empty());
                }
            }
        } else {
            token.push(c);
        }
        i += 1;
    }
    proof {
        assert(chars@.take(i as int) =~= chars@);
    }
    if !token.as_str().is_empty() {
        let ghost d = done@;
        let ghost t = token;
        done.push(token);
        proof {
            lemma_texts_push(d, t);
        }
    }
    done
}

/// The truth value that a word writes.
pub open spec fn truth_of(value: Seq<char>) -> Option<bool> {
    if value == "true"@ {
        Some(true)
    } else if value == "false"@ {
        Some(false)
    } else {
        None
    }
}

/// The truth value that a word writes.
pub fn parse_search_bool(value: &str) -> (r: Option<bool>)
    ensures
        r == truth_of(value@),
{
    if same_text(value, "true") {
        Some(true)
    } else if same_text(value, "false") {
        Some(false)
    } else {
        None
    }
}

/// What is searched for: words, and filters.
#[derive(Debug, PartialEq, Eq)]
pub struct SearchQuery {
    pub terms: Vec<String>,
    /// The identity of a calendar, not its title.
    pub calendar: Option<String>,
    pub location: Option<String>,
    pub attendee: Option<String>,
    pub recurring: Option<bool>,
    pub all_day: Option<bool>,
    pub from: Option<Date>,
    pub to: Option<Date>,
}

/// What is searched for, as values of mathematics.
#[verifier::ext_equal]
pub ghost struct SearchQueryView {
    pub terms: Seq<Seq<char>>,
    pub calendar: Option<Seq<char>>,
    pub location: Option<Seq<char>>,
    pub attendee: Option<Seq<char>>,
    pub recurring: Option<bool>,
    pub all_day: Option<bool>,
    pub from: Option<Date>,
    pub to: Option<Date>,
}

impl View for SearchQuery {
    type V = SearchQueryView;

    open spec fn view(&self) -> SearchQueryView {
        SearchQueryView {
            terms: texts(self.terms@),
            calendar: opt_view(self.calendar),
            location: opt_view(self.location),
            attendee: opt_view(self.attendee),
            recurring: self.recurring,
            all_day: self.all_day,
            from: self.from,
            to: self.to,
        }
    }
}

/// A text that is there and not empty, else what was there before.
pub open spec fn nonempty_or(value: Seq<char>, before: Option<Seq<char>>) -> Option<Seq<char>> {
    if value.len() > 0 {
        Some(value)
    } else {
        before
    }
}

impl SearchQueryView {
    /// Nothing searched for.
    pub open spec fn nothing() -> SearchQueryView {
        SearchQueryView {
            terms: Seq::empty(),
            calendar: None,
            location: None,
            attendee: None,
            recurring: None,
            all_day: None,
            from: None,
            to: None,
        }
    }

    /// The query with one more token: a filter by its name, or a word; a token that starts with a
    /// slash and names no filter is left out.
    pub open spec fn with_token(self, token: Seq<char>) -> SearchQueryView {
        let lower = normalized(token);
        match (
            without_prefix(lower, "/calendar:"@),
            without_prefix(lower, "/location:"@),
            without_prefix(lower, "/attendee:"@),
            without_prefix(lower, "/recurring:"@),
            without_prefix(lower, "/all-day:"@),
            without_prefix(token, "/from:"@),
            without_prefix(token, "/to:"@),
        ) {
            (Some(value), _, _, _, _, _, _) => SearchQueryView {
                calendar: nonempty_or(value, self.calendar),
                ..self
            },
            (None, Some(value), _, _, _, _, _) => SearchQueryView {
                location: nonempty_or(value, self.location),
                ..self
            },
            (None, None, Some(value), _, _, _, _) => SearchQueryView {
                attendee: nonempty_or(value, self.attendee),
                ..self
            },
            (None, None, None, Some(value), _, _, _) => SearchQueryView {
                recurring: truth_of(value),
                ..self
            },
            (None, None, None, None, Some(value), _, _) => SearchQueryView {
                all_day: truth_of(value),
                ..self
            },
            (None, None, None, None, None, Some(value), _) => SearchQueryView {
                from: iso_date(value),
                ..self
            },
            (None, None, None, None, None, None, Some(value)) => SearchQueryView {
                to: iso_date(value),
                ..self
            },
            _ => if starts_with(token, "/"@) {
                self
            } else {
                SearchQueryView { terms: self.terms.push(lower), ..self }
            },
        }
    }

    /// What tokens search for.
    pub open spec fn of_tokens(tokens: Seq<Seq<char>>) -> SearchQueryView
        decreases tokens.len(),
    {
        if tokens.len() == 0 {
            Self::nothing()
        } else {
            Self::of_tokens(tokens.drop_last()).with_token(tokens.last())
        }
    }

    /// Whether nothing is searched for.
    pub open spec fn is_nothing(self) -> bool {
        self.terms.len() == 0 && self.calendar is None && self.location is None && self.attendee
            is None && self.recurring is None && self.all_day is None && self.from is None
            && self.to is None
    }
}

impl SearchQuery {
    fn nothing() -> (r: Self)
        ensures
            r@ == SearchQueryView::nothing(),
    {
        let r = SearchQuery {
            terms: Vec::new(),
            calendar: None,
            location: None,
            attendee: None,
            recurring: None,
            all_day: None,
            from: None,
            to: None,
        };
        proof {
            assert(r@.terms =~= Seq::<Seq<char>>::empty());
        }
        r
    }

    fn add_token(&mut self, token: &str)
        ensures
            final(self)@ == old(self)@.with_token(token@),
    {
        let lower = normalized_search_text(token);
        match strip_prefix(lower.as_str(), "/calendar:") {
            Some(value) => {
                if !value.as_str().is_empty() {
                    self.calendar = Some(value);
                }
                return;
            },
            None => {},
        }
        match strip_prefix(lower.as_str(), "/location:") {
            Some(value) => {
                if !value.as_str().is_empty() {
                    self.location = Some(value);
                }
                return;
            },
            None => {},
        }
        match strip_prefix(lower.as_str(), "/attendee:") {
            Some(value) => {
                if !value.as_str().is_empty() {
                    self.attendee = Some(value);
                }
                return;
            },
            None => {},
        }
        match strip_prefix(lower.as_str(), "/recurring:") {
            Some(value) => {
                self.recurring = parse_search_bool(value.as_str());
                return;
            },
            None => {},
        }
        match strip_prefix(lower.as_str(), "/all-day:") {
            Some(value) => {
                self.all_day = parse_search_bool(value.as_str());
                return;
            },
            None => {},
        }
        match strip_prefix(token, "/from:") {
            Some(value) => {
                self.from = parse_iso_date(value.as_str());
                return;
            },
            None => {},
        }
        match strip_prefix(token, "/to:") {
            Some(value) => {
                self.to = parse_iso_date(value.as_str());
                return;
            },
            None => {},
        }
        if !has_prefix(token, "/") {
            proof {
                lemma_texts_push(self.terms@, lower);
            }
            self.terms.push(lower);
        }
    }

    /// Reads a query.
    pub fn parse(input: &str) -> (r: Self)
        ensures
            r@ == SearchQueryView::of_tokens(tokens(input@)),
    {
        let list = search_tokens(input);
        let mut query = SearchQuery::nothing();
        let ghost all = texts(list@);
        let mut i: usize = 0;
        proof {
            assert(all.take(0) =~= Seq::<Seq<char>>::empty());
        }
        while i < list.len()
            invariant
                i <= list@.len(),
                all == texts(list@),
                query@ == SearchQueryView::of_tokens(all.take(i as int)),
            decreases list@.len() - i,
        {
            proof {
                assert(all.take(i + 1).drop_last() =~= all.take(i as int));
                assert(all.take(i + 1).last() == list@[i as int]@);
            }
            query.add_token(list[i].as_str());
            i += 1;
        }
        proof {
            assert(all.take(i as int) =~= all);
        }
        query
    }

    /// Whether nothing is searched for.
    pub fn is_empty(&self) -> (r: bool)
        ensures
            r == self@.is_nothing(),
    {
        proof {
            assert(self@.terms.len() == self.terms@.len());
        }
        self.terms.len() == 0 && self.calendar.is_none() && self.location.is_none()
            && self.attendee.is_none() && self.recurring.is_none() && self.all_day.is_none()
            && self.from.is_none() && self.to.is_none()
    }
}

/// Whether an event is on the dates that are searched. An all-day event with known dates is on each
/// of them; any other event on the date on which it starts.
pub open spec fn on_dates(
    dates: Option<(Date, Date)>,
    from: Option<Date>,
    to: Option<Date>,
    start_date: Date,
) -> bool {
    match dates {
        Some(dates) => match (from, to) {
            (Some(from), Some(to)) => {
                let end = match to.shifted(1) {
                    Some(end) => end,
                    None => to,
                };
                dates.0.day < end.day && dates.1.day > from.day
            },
            (Some(from), None) => dates.1.day > from.day,
            (None, Some(to)) => dates.0.day <= to.day,
            (None, None) => true,
        },
        None => (from matches Some(from) ==> start_date.day >= from.day) && (to matches Some(to)
            ==> start_date.day <= to.day),
    }
}

/// Whether an event is on the dates that are searched.
pub fn event_matches_search_dates(
    event: &Event,
    from: Option<Date>,
    to: Option<Date>,
    legacy_start_date: Date,
) -> (r: bool)
    ensures
        r == on_dates(event.date_range(), from, to, legacy_start_date),
{
    match event.all_day_date_range() {
        Some((start, end_exclusive)) => match (from, to) {
            (Some(from), Some(to)) => {
                let end = match to.plus_days(1) {
                    Some(end) => end,
                    None => to,
                };
                start.day < end.day && end_exclusive.day > from.day
            },
            (Some(from), None) => end_exclusive.day > from.day,
            (None, Some(to)) => start.day <= to.day,
            (None, None) => true,
        },
        None => {
            let after = match from {
                Some(from) => legacy_start_date.day >= from.day,
                None => true,
            };
            let before = match to {
                Some(to) => legacy_start_date.day <= to.day,
                None => true,
            };
            after && before
        },
    }
}

/// The names and addresses of those who were asked to an event.
pub open spec fn attendee_texts(event: EventView) -> Seq<Seq<char>> {
    event.attendees.map_values(
        |a: AttendeeView| a.name + " "@ + a.email,
    )
}

/// The name and address of each of those who were asked to an event.
pub fn attendee_list(event: &Event) -> (r: Vec<String>)
    ensures
        texts(r@) == attendee_texts(event@),
{
    let mut out: Vec<String> = Vec::new();
    let mut i: usize = 0;
    let ghost all = attendee_texts(event@);
    proof {
        assert(texts(out@) =~= all.take(0));
    }
    while i < event.attendees.len()
        invariant
            i <= event.attendees@.len(),
            all == attendee_texts(event@),
            texts(out@) == all.take(i as int),
        decreases event.attendees@.len() - i,
    {
        let mut entry = event.attendees[i].name.clone();
        entry.append(" ");
        entry.append(event.attendees[i].email.as_str());
        proof {
            lemma_texts_push(out@, entry);
            assert(all.take(i + 1) =~= all.take(i as int).push(entry@));
        }
        out.push(entry);
        i += 1;
    }
    proof {
        assert(all.take(i as int) =~= all);
    }
    out
}

/// The text of an event in which words are looked for: what it says, who was asked to it, and the
/// title of its calendar.
pub open spec fn searchable(event: EventView, calendar_title: Seq<char>) -> Seq<char> {
    normalized(
        event.title + " "@ + event.location + " "@ + event.notes + " "@ + event.url + " "@ + joined(
            attendee_texts(event),
            " "@,
        ) + " "@ + calendar_title,
    )
}

impl Event {
    /// The text of an event in which words are looked for.
    pub fn searchable_text(&self, calendar: Option<&CalendarInfo>) -> (r: String)
        ensures
            r@ == searchable(
                self@,
                match calendar {
                    Some(calendar) => calendar.title@,
                    None => Seq::empty(),
                },
            ),
    {
        let mut text = self.title.clone();
        text.append(" ");
        text.append(self.location.as_str());
        text.append(" ");
        text.append(self.notes.as_str());
        text.append(" ");
        text.append(self.url.as_str());
        text.append(" ");
        text.append(join(&attendee_list(self), " ").as_str());
        text.append(" ");
        let title = match calendar {
            Some(calendar) => calendar.title.clone(),
            None => String::new(),
        };
        text.append(title.as_str());
        normalized_search_text(text.as_str())
    }
}

/// The title of the calendar with an identity.
pub open spec fn calendar_title(calendars: Seq<CalendarInfo>, id: Seq<char>) -> Seq<char> {
    match calendar_at(calendars, id) {
        Some(i) => calendars[i].title@,
        None => Seq::empty(),
    }
}

/// Whether an event that starts on `day` is what a query searches for.
pub open spec fn event_matches(
    query: SearchQueryView,
    event: Event,
    calendars: Seq<CalendarInfo>,
    day: Date,
) -> bool {
    &&& query.calendar matches Some(id) ==> event.calendar_id@ == id
    &&& query.location matches Some(part) ==> occurs_in(normalized(event.location@), part)
    &&& query.recurring matches Some(value) ==> event.has_recurrence == value
    &&& query.all_day matches Some(value) ==> event.all_day == value
    &&& on_dates(event.date_range(), query.from, query.to, day)
    &&& query.attendee matches Some(part) ==> occurs_in(
        normalized(joined(attendee_texts(event@), " "@)),
        part,
    )
    &&& forall|i: int|
        0 <= i < query.terms.len() ==> occurs_in(
            searchable(event@, calendar_title(calendars, event.calendar_id@)),
            #[trigger] query.terms[i],
        )
}

fn all_terms_occur(terms: &Vec<String>, text: &str) -> (r: bool)
    ensures
        r == (forall|i: int|
            0 <= i < texts(terms@).len() ==> occurs_in(text@, #[trigger] texts(terms@)[i])),
{
    let ghost all = texts(terms@);
    let mut i: usize = 0;
    while i < terms.len()
        invariant
            i <= terms@.len(),
            all == texts(terms@),
            forall|j: int| 0 <= j < i ==> occurs_in(text@, #[trigger] all[j]),
        decreases terms@.len() - i,
    {
        proof {
            assert(all[i as int] == terms@[i as int]@);
        }
        if !contains(text, terms[i].as_str()) {
            return false;
        }
        i += 1;
    }
    true
}

/// Whether an event that starts on `day` is what a query searches for.
pub fn event_matches_query(
    query: &SearchQuery,
    event: &Event,
    calendars: &Vec<CalendarInfo>,
    day: Date,
) -> (r: bool)
    ensures
        r == event_matches(query@, *event, calendars@, day),
{
    match &query.calendar {
        Some(id) => {
            if !same_text(event.calendar_id.as_str(), id.as_str()) {
                return false;
            }
        },
        None => {},
    }
    match &query.location {
        Some(part) => {
            if !contains(
                normalized_search_text(event.location.as_str()).as_str(),
                part.as_str(),
            ) {
                return false;
            }
        },
        None => {},
    }
    match query.recurring {
        Some(value) => {
            if event.has_recurrence != value {
                return false;
            }
        },
        None => {},
    }
    match query.all_day {
        Some(value) => {
            if event.all_day != value {
                return false;
            }
        },
        None => {},
    }
    if !event_matches_search_dates(event, query.from, query.to, day) {
        return false;
    }
    match &query.attendee {
        Some(part) => {
            let all = join(&attendee_list(event), " ");
            if !contains(normalized_search_text(all.as_str()).as_str(), part.as_str()) {
                return false;
            }
        },
        None => {},
    }
    let calendar = match find_calendar(calendars, event.calendar_id.as_str()) {
        Some(i) => Some(&calendars[i]),
        None => None,
    };
    let text = event.searchable_text(calendar);
    proof {
        assert(query@.terms == texts(query.terms@));
        assert(text@ == searchable(event@, calendar_title(calendars@, event.calendar_id@)));
    }
    all_terms_occur(&query.terms, text.as_str())
}

/// How well a title fits the words of a query: exactly, at its start, somewhere, not at all; or
/// there are no words.
pub open spec fn title_rank(query: SearchQueryView, title: Seq<char>) -> int {
    let text = joined(query.terms, " "@);
    let title = normalized(title);
    if text.len() == 0 {
        4
    } else if title == text {
        0
    } else if starts_with(title, text) {
        1
    } else if occurs_in(title, text) {
        2
    } else {
        3
    }
}

/// A distance.
pub open spec fn distance(a: int, b: int) -> int {
    if a < b {
        b - a
    } else {
        a - b
    }
}

/// The key by which found events are ordered: how well the title fits, the distance of the start
/// from the active date, the start, and the identity by its characters.
pub open spec fn rank_key(
    query: SearchQueryView,
    event: Event,
    active_date: Date,
    day: Date,
) -> Seq<i128> {
    seq![
        title_rank(query, event.title@) as i128,
        distance(day.day as int, active_date.day as int) as i128,
        day.day as i128,
    ] + event.id@.map_values(|c: char| c as u32 as i128)
}

fn search_rank(query: &SearchQuery, event: &Event, active_date: Date, day: Date) -> (r: Vec<i128>)
    ensures
        r@ == rank_key(query@, *event, active_date, day),
{
    let text = join(&query.terms, " ");
    let title = normalized_search_text(event.title.as_str());
    let rank: i128 = if text.as_str().is_empty() {
        4
    } else if same_text(title.as_str(), text.as_str()) {
        0
    } else if has_prefix(title.as_str(), text.as_str()) {
        1
    } else if contains(title.as_str(), text.as_str()) {
        2
    } else {
        3
    };
    let a: i128 = day.day as i128;
    let b: i128 = active_date.day as i128;
    let apart: i128 = if a < b {
        b - a
    } else {
        a - b
    };
    let mut key: Vec<i128> = vec![rank, apart, a];
    let id = chars_of(event.id.as_str());
    let ghost all = rank_key(query@, *event, active_date, day);
    let mut i: usize = 0;
    proof {
        assert(key@ =~= all.take(3));
    }
    while i < id.len()
        invariant
            i <= id@.len(),
            id@ == event.id@,
            all == rank_key(query@, *event, active_date, day),
            key@ == all.take(3 + i),
        decreases id@.len() - i,
    {
        let c: char = id[i];
        key.push(c as u32 as i128);
        proof {
            assert(all[3 + i] == c as u32 as i128);
            assert(all.take(3 + i + 1) =~= all.take(3 + i).push(c as u32 as i128));
        }
        i += 1;
    }
    proof {
        assert(all.take(3 + i) =~= all);
    }
    key
}

/// The keys of events that start on given dates.
pub open spec fn rank_keys(
    query: SearchQueryView,
    events: Seq<Event>,
    active_date: Date,
    days: Seq<Date>,
) -> Seq<Seq<i128>> {
    Seq::new(events.len(), |i: int| rank_key(query, events[i], active_date, days[i]))
}

/// The indices of the events that a query finds, the best first. An empty query finds none.
pub open spec fn found(
    query: SearchQueryView,
    events: Seq<Event>,
    calendars: Seq<CalendarInfo>,
    active_date: Date,
    days: Seq<Date>,
) -> Seq<int> {
    if query.is_nothing() {
        Seq::empty()
    } else {
        ordered(
            rank_keys(query, events, active_date, days),
            |i: int| event_matches(query, events[i], calendars, days[i]),
            events.len() as int,
        )
    }
}

/// The indices of the events that a query finds, the best first, where events start on the given
/// dates.
pub fn find_events(
    query: &SearchQuery,
    events: &Vec<Event>,
    calendars: &Vec<CalendarInfo>,
    active_date: Date,
    days: &Vec<Date>,
) -> (r: Vec<usize>)
    requires
        days@.len() == events@.len(),
    ensures
        indices(r@) == found(query@, events@, calendars@, active_date, days@),
        forall|i: int| 0 <= i < r@.len() ==> #[trigger] r@[i] < events@.len(),
{
    if query.is_empty() {
        let none: Vec<usize> = Vec::new();
        proof {
            assert(indices(none@) =~= Seq::<int>::empty());
        }
        return none;
    }
    let mut keys: Vec<Vec<i128>> = Vec::new();
    let mut chosen: Vec<bool> = Vec::new();
    let ghost wanted = rank_keys(query@, events@, active_date, days@);
    let ghost picks = |i: int| event_matches(query@, events@[i], calendars@, days@[i]);
    let mut i: usize = 0;
    while i < events.len()
        invariant
            i <= events@.len(),
            days@.len() == events@.len(),
            wanted == rank_keys(query@, events@, active_date, days@),
            picks == (|i: int| event_matches(query@, events@[i], calendars@, days@[i])),
            keys@.len() == i,
            chosen@.len() == i,
            forall|j: int| 0 <= j < i ==> (#[trigger] keys@[j])@ == wanted[j],
            forall|j: int| 0 <= j < i ==> #[trigger] chosen@[j] == picks(j),
        decreases events@.len() - i,
    {
        keys.push(search_rank(query, &events[i], active_date, days[i]));
        chosen.push(event_matches_query(query, &events[i], calendars, days[i]));
        i += 1;
    }
    let r = order_chosen(&keys, &chosen);
    proof {
        assert(key_views(keys@) =~= wanted);
        lemma_same_choice(wanted, |i: int| chosen@[i], picks, events@.len() as int);
    }
    r
}

/// The search finds each event that matches, once, and no other.
pub proof fn law_search_is_complete(
    query: SearchQueryView,
    events: Seq<Event>,
    calendars: Seq<CalendarInfo>,
    active_date: Date,
    days: Seq<Date>,
)
    requires
        !query.is_nothing(),
        days.len() == events.len(),
    ensures
        found(query, events, calendars, active_date, days).no_duplicates(),
        forall|i: int|
            #[trigger] found(query, events, calendars, active_date, days).contains(i) <==> 0 <= i
                < events.len() && event_matches(query, events[i], calendars, days[i]),
{
    let keys = rank_keys(query, events, active_date, days);
    let picks = |i: int| event_matches(query, events[i], calendars, days[i]);
    law_order_is_complete(keys, picks, events.len() as int);
}

/// What is found is in the order of its keys.
pub proof fn law_search_is_ranked(
    query: SearchQueryView,
    events: Seq<Event>,
    calendars: Seq<CalendarInfo>,
    active_date: Date,
    days: Seq<Date>,
    i: int,
    j: int,
)
    requires
        days.len() == events.len(),
        0 <= i < j < found(query, events, calendars, active_date, days).len(),
    ensures
        ({
            let list = found(query, events, calendars, active_date, days);
            !key_less(
                rank_key(query, events[list[j]], active_date, days[list[j]]),
                rank_key(query, events[list[i]], active_date, days[list[i]]),
            )
        }),
{
    let keys = rank_keys(query, events, active_date, days);
    let picks = |i: int| event_matches(query, events[i], calendars, days[i]);
    let list = found(query, events, calendars, active_date, days);
    law_order_is_sorted(keys, picks, events.len() as int);
    law_order_is_complete(keys, picks, events.len() as int);
    assert(list.contains(list[i]) && list.contains(list[j]));
    assert(keys[list[i]] == rank_key(query, events[list[i]], active_date, days[list[i]]));
    assert(keys[list[j]] == rank_key(query, events[list[j]], active_date, days[list[j]]));
}

/// The days on which an event takes place, from the first to the last.
#[derive(Clone, Copy, Debug, PartialEq, Eq, Structural)]
pub struct EventDays {
    pub first: Date,
    pub last: Date,
}

/// The days of an event whose instants fall on the days `clock`: an all-day event's own, where they
/// are known.
pub open spec fn days_of(dates: Option<(Date, Date)>, clock: EventDays) -> EventDays {
    match dates {
        Some(dates) => EventDays { first: dates.0, last: Date { day: (dates.1.day - 1) as i32 } },
        None => clock,
    }
}

impl EventDays {
    /// Whether a date is one of the days.
    pub open spec fn hold(self, date: Date) -> bool {
        self.first.day <= date.day <= self.last.day
    }

    /// Whether a date is one of the days.
    pub fn contains(&self, date: Date) -> (r: bool)
        ensures
            r == self.hold(date),
    {
        self.first.day <= date.day && date.day <= self.last.day
    }
}

impl Event {
    /// The days of the event, whose instants fall on the days `clock`.
    pub fn days_from(&self, clock: EventDays) -> (r: EventDays)
        ensures
            r == days_of(self.date_range(), clock),
    {
        match self.all_day_date_range() {
            Some((first, end)) => EventDays { first, last: Date { day: end.day - 1 } },
            None => clock,
        }
    }

    /// The last instant of the event, or its start where it takes no time.
    pub open spec fn last_instant(self) -> Timestamp {
        if self.end.nanos > self.start.nanos {
            Timestamp { nanos: (self.end.nanos - 1) as i128 }
        } else {
            self.start
        }
    }

    /// Whether the event may last the given days: its own where it is an all-day event with known
    /// dates, and else those on which a calendar may show its first and its last instant.
    pub open spec fn may_last(self, days: EventDays) -> bool {
        match self.date_range() {
            Some(dates) => days == days_of(Some(dates), days),
            None => falls_near(self.start, days.first) && falls_near(
                self.last_instant(),
                days.last,
            ),
        }
    }

    /// Whether the event may begin on a date.
    pub open spec fn may_begin_on(self, date: Date) -> bool {
        exists|days: EventDays| #[trigger] self.may_last(days) && date == days.first
    }

    /// The days of the event on the machine's calendar. An event that ends at midnight does not
    /// take place on the day that begins then.
    pub fn local_days(&self) -> (r: EventDays)
        ensures
            self.may_last(r),
            self.date_range() matches Some(dates) ==> r == days_of(
                Some(dates),
                EventDays { first: dates.0, last: dates.0 },
            ),
    {
        let first = local_wall_time(self.start).date;
        let last = if self.end.nanos > self.start.nanos {
            local_wall_time(Timestamp { nanos: self.end.nanos - 1 }).date
        } else {
            first
        };
        self.days_from(EventDays { first, last })
    }

    /// The first day of the event.
    pub fn display_start_date(&self) -> (r: Date)
        ensures
            self.may_begin_on(r),
            self.date_range() matches Some(dates) ==> r == dates.0,
    {
        let days = self.local_days();
        proof {
            assert(self.may_last(days));
        }
        days.first
    }

    /// Whether the event takes place on a date.
    pub fn occurs_on(&self, date: Date) -> (r: bool)
        ensures
            exists|days: EventDays| #[trigger] self.may_last(days) && r == days.hold(date),
            self.date_range() matches Some(dates) ==> r == (dates.0.day <= date.day
                < dates.1.day),
    {
        let days = self.local_days();
        proof {
            assert(self.may_last(days));
        }
        days.contains(date)
    }
}

/// The days of each event on the machine's calendar.
pub fn local_days_of(events: &Vec<Event>) -> (r: Vec<EventDays>)
    ensures
        r@.len() == events@.len(),
        forall|i: int| 0 <= i < events@.len() ==> (#[trigger] events@[i]).may_last(r@[i]),
{
    let mut out: Vec<EventDays> = Vec::new();
    let mut i: usize = 0;
    while i < events.len()
        invariant
            i <= events@.len(),
            out@.len() == i,
            forall|j: int| 0 <= j < i ==> (#[trigger] events@[j]).may_last(out@[j]),
        decreases events@.len() - i,
    {
        out.push(events[i].local_days());
        i += 1;
    }
    out
}

} // verus!
