//! What a search finds.

use crate::model::{CalendarInfo, Event};
use crate::search::{
    calendar_title, event_matches, found, law_search_is_ranked, on_dates, normalized, rank_key,
    searchable, tokens, tokens_open, attendee_texts, SearchQueryView,
};
use crate::sorting::key_less;
use crate::text::{is_white, joined, occurs_at, occurs_in};
use crate::time::{iso_date, Date, MAX_DAY};
use vstd::prelude::*;

verus! {

/// Each word of a query stands somewhere in the text of an event that it finds.
pub proof fn law_every_word_is_in_the_text(
    query: SearchQueryView,
    event: Event,
    calendars: Seq<CalendarInfo>,
    day: Date,
    k: int,
)
    requires
        event_matches(query, event, calendars, day),
        0 <= k < query.terms.len(),
    ensures
        ({
            let text = searchable(event@, calendar_title(calendars, event.calendar_id@));
            let word = query.terms[k];
            exists|i: int|
                0 <= i && i + word.len() <= text.len() && #[trigger] text.subrange(
                    i,
                    i + word.len(),
                ) == word
        }),
{
    let text = searchable(event@, calendar_title(calendars, event.calendar_id@));
    let word = query.terms[k];
    assert(occurs_in(text, word));
    let i = choose|i: int| occurs_at(text, word, i);
    assert(text.subrange(i, i + word.len()) == word);
}

/// One more word in a query leaves those of the events found in whose text it stands.
pub proof fn law_a_word_narrows(
    query: SearchQueryView,
    word: Seq<char>,
    event: Event,
    calendars: Seq<CalendarInfo>,
    day: Date,
)
    ensures
        ({
            let text = searchable(event@, calendar_title(calendars, event.calendar_id@));
            event_matches(
                (SearchQueryView { terms: query.terms.push(word), ..query }),
                event,
                calendars,
                day,
            ) <==> event_matches(query, event, calendars, day) && exists|i: int|
                0 <= i && i + word.len() <= text.len() && #[trigger] text.subrange(
                    i,
                    i + word.len(),
                ) == word
        }),
{
    let text = searchable(event@, calendar_title(calendars, event.calendar_id@));
    let more = SearchQueryView { terms: query.terms.push(word), ..query };
    assert(more.terms[query.terms.len() as int] == word);
    if event_matches(more, event, calendars, day) {
        law_every_word_is_in_the_text(more, event, calendars, day, query.terms.len() as int);
        assert forall|i: int| 0 <= i < query.terms.len() implies occurs_in(
            text,
            #[trigger] query.terms[i],
        ) by {
            assert(more.terms[i] == query.terms[i]);
        }
    }
    if event_matches(query, event, calendars, day) && (exists|i: int|
        0 <= i && i + word.len() <= text.len() && #[trigger] text.subrange(i, i + word.len())
            == word) {
        let i = choose|i: int|
            0 <= i && i + word.len() <= text.len() && #[trigger] text.subrange(i, i + word.len())
                == word;
        assert(occurs_at(text, word, i));
        assert forall|i: int| 0 <= i < more.terms.len() implies occurs_in(
            text,
            #[trigger] more.terms[i],
        ) by {
            if i < query.terms.len() {
                assert(more.terms[i] == query.terms[i]);
            }
        }
    }
}

/// The text in which words are looked for is all that an event says: its title, place, notes and
/// link, who was asked to it, and the title of its calendar.
pub proof fn law_the_text_holds_all_that_is_said(event: Event, calendar_title: Seq<char>)
    ensures
        searchable(event@, calendar_title) == normalized(
            joined(
                seq![
                    event.title@,
                    event.location@,
                    event.notes@,
                    event.url@,
                    joined(attendee_texts(event@), " "@),
                    calendar_title,
                ],
                " "@,
            ),
        ),
        forall|i: int|
            0 <= i < event.attendees@.len() ==> #[trigger] attendee_texts(event@)[i] == joined(
                seq![event.attendees@[i].name@, event.attendees@[i].email@],
                " "@,
            ),
{
    let people = joined(attendee_texts(event@), " "@);
    let all = seq![event.title@, event.location@, event.notes@, event.url@, people, calendar_title];
    reveal_with_fuel(joined, 7);
    assert(all.drop_last().drop_last().drop_last().drop_last().drop_last() =~= seq![event.title@]);
    assert(all.drop_last().drop_last().drop_last().drop_last() =~= seq![event.title@, event.location@]);
    assert(all.drop_last().drop_last().drop_last() =~= seq![event.title@, event.location@, event.notes@]);
    assert(all.drop_last().drop_last() =~= seq![event.title@, event.location@, event.notes@, event.url@]);
    assert(all.drop_last() =~= seq![event.title@, event.location@, event.notes@, event.url@, people]);
    assert(event@.title == event.title@);
    assert(joined(all, " "@) =~= event@.title + " "@ + event@.location + " "@ + event@.notes + " "@
        + event@.url + " "@ + people + " "@ + calendar_title);
    assert forall|i: int|
        0 <= i < event.attendees@.len() implies #[trigger] attendee_texts(event@)[i] == joined(
        seq![event.attendees@[i].name@, event.attendees@[i].email@],
        " "@,
    ) by {
        let pair = seq![event.attendees@[i].name@, event.attendees@[i].email@];
        assert(pair.drop_last() =~= seq![event.attendees@[i].name@]);
        assert(event@.attendees[i].name == event.attendees@[i].name@);
        assert(event@.attendees[i].email == event.attendees@[i].email@);
        assert(joined(pair, " "@) =~= event.attendees@[i].name@ + " "@ + event.attendees@[i].email@);
    }
}

spec fn words_hold(words: Seq<Seq<char>>, text: Seq<char>) -> bool {
    forall|i: int| 0 <= i < words.len() ==> occurs_in(text, #[trigger] words[i])
}

proof fn lemma_matches(
    query: SearchQueryView,
    event: Event,
    calendars: Seq<CalendarInfo>,
    day: Date,
)
    ensures
        event_matches(query, event, calendars, day) <==> (query.calendar matches Some(id)
            ==> event.calendar_id@ == id) && (query.location matches Some(part) ==> occurs_in(
            normalized(event.location@),
            part,
        )) && (query.recurring matches Some(value) ==> event.has_recurrence == value) && (
        query.all_day matches Some(value) ==> event.all_day == value) && on_dates(
            event.date_range(),
            query.from,
            query.to,
            day,
        ) && (query.attendee matches Some(part) ==> occurs_in(
            normalized(joined(attendee_texts(event@), " "@)),
            part,
        )) && words_hold(
            query.terms,
            searchable(event@, calendar_title(calendars, event.calendar_id@)),
        ),
{
}

/// Each filter of a query holds of what is found, and does nothing else. A query that asks for
/// nothing fits every event.
pub proof fn law_filters_narrow(
    query: SearchQueryView,
    event: Event,
    calendars: Seq<CalendarInfo>,
    day: Date,
    id: Seq<char>,
    part: Seq<char>,
    value: bool,
)
    ensures
        event_matches(SearchQueryView::nothing(), event, calendars, day),
        query.calendar is None ==> (event_matches(
            (SearchQueryView { calendar: Some(id), ..query }),
            event,
            calendars,
            day,
        ) <==> event_matches(query, event, calendars, day) && event.calendar_id@ == id),
        query.location is None ==> (event_matches(
            (SearchQueryView { location: Some(part), ..query }),
            event,
            calendars,
            day,
        ) <==> event_matches(query, event, calendars, day) && occurs_in(
            normalized(event.location@),
            part,
        )),
        query.attendee is None ==> (event_matches(
            (SearchQueryView { attendee: Some(part), ..query }),
            event,
            calendars,
            day,
        ) <==> event_matches(query, event, calendars, day) && occurs_in(
            normalized(joined(attendee_texts(event@), " "@)),
            part,
        )),
        query.recurring is None ==> (event_matches(
            (SearchQueryView { recurring: Some(value), ..query }),
            event,
            calendars,
            day,
        ) <==> event_matches(query, event, calendars, day) && event.has_recurrence == value),
        query.all_day is None ==> (event_matches(
            (SearchQueryView { all_day: Some(value), ..query }),
            event,
            calendars,
            day,
        ) <==> event_matches(query, event, calendars, day) && event.all_day == value),
{
    lemma_matches(query, event, calendars, day);
    lemma_matches(SearchQueryView { calendar: Some(id), ..query }, event, calendars, day);
    lemma_matches(SearchQueryView { location: Some(part), ..query }, event, calendars, day);
    lemma_matches(SearchQueryView { attendee: Some(part), ..query }, event, calendars, day);
    lemma_matches(SearchQueryView { recurring: Some(value), ..query }, event, calendars, day);
    lemma_matches(SearchQueryView { all_day: Some(value), ..query }, event, calendars, day);
}

/// A search between two dates finds a timed event where it starts on or after the first, and on or
/// before the second; an all-day event where one of its days is among the dates.
pub proof fn law_dates_narrow(
    query: SearchQueryView,
    event: Event,
    calendars: Seq<CalendarInfo>,
    day: Date,
)
    requires
        event_matches((SearchQueryView { from: None, to: None, ..query }), event, calendars, day),
        query.to matches Some(to) ==> to.day < MAX_DAY && to.valid(),
        query.from matches Some(from) ==> (query.to matches Some(to) ==> from.day <= to.day),
    ensures
        event.date_range() is None ==> (event_matches(query, event, calendars, day) <==> (
        query.from matches Some(from) ==> from.day <= day.day) && (query.to matches Some(to)
            ==> day.day <= to.day)),
        event.date_range() matches Some(dates) ==> (event_matches(query, event, calendars, day)
            <==> exists|d: int|
            dates.0.day <= d < dates.1.day && (query.from matches Some(from) ==> from.day <= d) && (
            query.to matches Some(to) ==> d <= to.day) && #[trigger] is_day(d)),
{
    lemma_matches(query, event, calendars, day);
    lemma_matches(SearchQueryView { from: None, to: None, ..query }, event, calendars, day);
    match event.date_range() {
        Some(dates) => {
            let low = if query.from is Some && query.from->0.day > dates.0.day {
                query.from->0.day as int
            } else {
                dates.0.day as int
            };
            assert(is_day(low));
        },
        None => {},
    }
}

/// Any day number.
pub open spec fn is_day(d: int) -> bool {
    true
}

/// A title that is just what is searched for comes before one that only begins with it, that before
/// one that holds it elsewhere, and that before one that does not hold it.
pub proof fn law_better_titles_come_first(
    query: SearchQueryView,
    events: Seq<Event>,
    calendars: Seq<CalendarInfo>,
    active_date: Date,
    days: Seq<Date>,
    i: int,
    j: int,
)
    requires
        days.len() == events.len(),
        0 <= i < j < found(query, events, calendars, active_date, days).len(),
        joined(query.terms, " "@).len() > 0,
    ensures
        ({
            let list = found(query, events, calendars, active_date, days);
            let text = joined(query.terms, " "@);
            let first = normalized(events[list[i]].title@);
            let second = normalized(events[list[j]].title@);
            &&& second == text ==> first == text
            &&& second.len() >= text.len() && second.subrange(0, text.len() as int) == text
                ==> first.len() >= text.len() && first.subrange(0, text.len() as int) == text
            &&& occurs_in(second, text) ==> occurs_in(first, text)
        }),
{
    law_search_is_ranked(query, events, calendars, active_date, days, i, j);
    let list = found(query, events, calendars, active_date, days);
    let text = joined(query.terms, " "@);
    let first = normalized(events[list[i]].title@);
    let second = normalized(events[list[j]].title@);
    let a = rank_key(query, events[list[i]], active_date, days[list[i]]);
    let b = rank_key(query, events[list[j]], active_date, days[list[j]]);
    assert(a[0] <= b[0]);
    if second == text {
        assert(second.take(text.len() as int) =~= second);
        assert(second.subrange(0, text.len() as int) =~= text);
    }
    if first == text {
        assert(first.subrange(0, text.len() as int) =~= text);
    }
    assert(first.len() >= text.len() ==> first.take(text.len() as int) =~= first.subrange(
        0,
        text.len() as int,
    ));
    assert(second.len() >= text.len() ==> second.take(text.len() as int) =~= second.subrange(
        0,
        text.len() as int,
    ));
    if first.len() >= text.len() && first.subrange(0, text.len() as int) == text {
        assert(occurs_at(first, text, 0));
    }
    if second.len() >= text.len() && second.subrange(0, text.len() as int) == text {
        assert(occurs_at(second, text, 0));
    }
}

/// Of titles that fit equally well, that of the event nearer to the active date comes first, and of
/// two as near, that of the earlier one.
pub proof fn law_nearer_events_come_first(
    query: SearchQueryView,
    events: Seq<Event>,
    calendars: Seq<CalendarInfo>,
    active_date: Date,
    days: Seq<Date>,
    i: int,
    j: int,
)
    requires
        days.len() == events.len(),
        0 <= i < j < found(query, events, calendars, active_date, days).len(),
        ({
            let list = found(query, events, calendars, active_date, days);
            events[list[i]].title@ == events[list[j]].title@
        }),
    ensures
        ({
            let list = found(query, events, calendars, active_date, days);
            let first = days[list[i]].day - active_date.day;
            let second = days[list[j]].day - active_date.day;
            let near = if first < 0 { -first } else { first };
            let far = if second < 0 { -second } else { second };
            near < far || (near == far && first <= second)
        }),
{
    law_search_is_ranked(query, events, calendars, active_date, days, i, j);
    let list = found(query, events, calendars, active_date, days);
    let a = rank_key(query, events[list[i]], active_date, days[list[i]]);
    let b = rank_key(query, events[list[j]], active_date, days[list[j]]);
    assert(a[0] == b[0]);
    reveal_with_fuel(key_less, 4);
    assert(b.drop_first()[0] == b[1] && a.drop_first()[0] == a[1]);
    assert(b.drop_first().drop_first()[0] == b[2] && a.drop_first().drop_first()[0] == a[2]);
}

/// What a search finds is what every event that matches is: all that do, each once, and nothing for
/// an empty query.
pub proof fn law_an_empty_query_finds_nothing(
    events: Seq<Event>,
    calendars: Seq<CalendarInfo>,
    active_date: Date,
    days: Seq<Date>,
)
    ensures
        found(SearchQueryView::nothing(), events, calendars, active_date, days).len() == 0,
{
}

/// A token that names a filter sets it to what follows the colon, and changes nothing else; any
/// other that begins with a slash is left out; the rest are words, in the form in which texts are
/// compared.
pub proof fn law_tokens_set_filters(query: SearchQueryView, token: Seq<char>, value: Seq<char>)
    requires
        value.len() > 0,
    ensures
        normalized(token) == "/calendar:"@ + value ==> query.with_token(token) == (
        SearchQueryView { calendar: Some(value), ..query }),
        normalized(token) == "/location:"@ + value ==> query.with_token(token) == (
        SearchQueryView { location: Some(value), ..query }),
        normalized(token) == "/attendee:"@ + value ==> query.with_token(token) == (
        SearchQueryView { attendee: Some(value), ..query }),
        normalized(token) == "/recurring:true"@ ==> query.with_token(token) == (
        SearchQueryView { recurring: Some(true), ..query }),
        normalized(token) == "/recurring:false"@ ==> query.with_token(token) == (
        SearchQueryView { recurring: Some(false), ..query }),
        normalized(token) == "/all-day:true"@ ==> query.with_token(token) == (
        SearchQueryView { all_day: Some(true), ..query }),
        normalized(token) == "/all-day:false"@ ==> query.with_token(token) == (
        SearchQueryView { all_day: Some(false), ..query }),
        token.len() > 0 && token[0] != '/' && (normalized(token).len() == 0 || normalized(token)[0]
            != '/') ==> query.with_token(token) == (SearchQueryView {
            terms: query.terms.push(normalized(token)),
            ..query
        }),
{
    reveal_strlit("/calendar:");
    reveal_strlit("/location:");
    reveal_strlit("/attendee:");
    reveal_strlit("/recurring:");
    reveal_strlit("/all-day:");
    reveal_strlit("/recurring:true");
    reveal_strlit("/recurring:false");
    reveal_strlit("/all-day:true");
    reveal_strlit("/all-day:false");
    reveal_strlit("true");
    reveal_strlit("false");
    reveal_strlit("/from:");
    reveal_strlit("/to:");
    reveal_strlit("/");
    let lower = normalized(token);
    let calendar = "/calendar:"@;
    let location = "/location:"@;
    let attendee = "/attendee:"@;
    let recurring = "/recurring:"@;
    let all_day = "/all-day:"@;
    if lower == calendar + value {
        assert(lower.take(calendar.len() as int) =~= calendar);
        assert(lower.skip(calendar.len() as int) =~= value);
    }
    if lower == location + value {
        assert(lower.take(location.len() as int) =~= location);
        assert(lower.skip(location.len() as int) =~= value);
        assert(lower.take(calendar.len() as int)[1] == 'l');
        assert(calendar[1] == 'c');
    }
    if lower == attendee + value {
        assert(lower.take(attendee.len() as int) =~= attendee);
        assert(lower.skip(attendee.len() as int) =~= value);
        assert(lower.take(calendar.len() as int)[1] == 'a');
        assert(lower.take(location.len() as int)[1] == 'a');
    }
    if lower == "/recurring:true"@ || lower == "/recurring:false"@ {
        assert(lower.take(recurring.len() as int) =~= recurring);
        assert(lower.take(calendar.len() as int)[1] == 'r');
        assert(lower.take(location.len() as int)[1] == 'r');
        assert(lower.take(attendee.len() as int)[1] == 'r');
    }
    if lower == "/recurring:true"@ {
        assert(lower.skip(recurring.len() as int) =~= "true"@);
    }
    if lower == "/recurring:false"@ {
        assert(lower.skip(recurring.len() as int) =~= "false"@);
        assert("false"@[0] == 'f' && "true"@[0] == 't');
    }
    if lower == "/all-day:true"@ || lower == "/all-day:false"@ {
        assert(lower.take(all_day.len() as int) =~= all_day);
        assert(lower.take(calendar.len() as int)[1] == 'a');
        assert(lower.take(location.len() as int)[1] == 'a');
        assert(lower.take(attendee.len() as int)[2] == 'l');
        assert(attendee[2] == 't');
        assert(lower.take(recurring.len() as int)[1] == 'a');
    }
    if lower == "/all-day:true"@ {
        assert(lower.skip(all_day.len() as int) =~= "true"@);
    }
    if lower == "/all-day:false"@ {
        assert(lower.skip(all_day.len() as int) =~= "false"@);
        assert("false"@[0] == 'f' && "true"@[0] == 't');
    }
    if token.len() > 0 && token[0] != '/' && (lower.len() == 0 || lower[0] != '/') {
        assert(lower.len() >= 10 ==> lower.take(10)[0] == lower[0]);
        assert(lower.len() >= 11 ==> lower.take(11)[0] == lower[0]);
        assert(lower.len() >= 9 ==> lower.take(9)[0] == lower[0]);
        assert(token.len() >= 6 ==> token.take(6)[0] == token[0]);
        assert(token.len() >= 4 ==> token.take(4)[0] == token[0]);
        assert(token.take(1)[0] == token[0]);
    }
}

/// Dates are searched for by `/from:` and `/to:`.
pub proof fn law_tokens_set_dates(query: SearchQueryView, value: Seq<char>)
    requires
        ({
            let from = normalized("/from:"@ + value);
            let to = normalized("/to:"@ + value);
            &&& from.len() > 1 && from[1] == 'f'
            &&& to.len() > 1 && to[1] == 't'
        }),
    ensures
        query.with_token("/from:"@ + value) == (SearchQueryView { from: iso_date(value), ..query }),
        query.with_token("/to:"@ + value) == (SearchQueryView { to: iso_date(value), ..query }),
{
    reveal_strlit("/calendar:");
    reveal_strlit("/location:");
    reveal_strlit("/attendee:");
    reveal_strlit("/recurring:");
    reveal_strlit("/all-day:");
    reveal_strlit("/from:");
    reveal_strlit("/to:");
    let from = "/from:"@ + value;
    let to = "/to:"@ + value;
    assert(from.take(6) =~= "/from:"@);
    assert(from.skip(6) =~= value);
    assert(to.take(4) =~= "/to:"@);
    assert(to.skip(4) =~= value);
    assert(to.len() >= 6 ==> to.take(6)[1] == 't');
    let a = normalized(from);
    let b = normalized(to);
    assert(a.len() >= 10 ==> a.take(10)[1] == a[1]);
    assert(a.len() >= 11 ==> a.take(11)[1] == a[1]);
    assert(a.len() >= 9 ==> a.take(9)[1] == a[1]);
    assert(b.len() >= 10 ==> b.take(10)[1] == b[1]);
    assert(b.len() >= 11 ==> b.take(11)[1] == b[1]);
    assert(b.len() >= 9 ==> b.take(9)[1] == b[1]);
}

/// White space outside quotes separates tokens: the tokens of two texts with a space between them
/// are those of the first and those of the second.
pub proof fn law_spaces_separate_tokens(a: Seq<char>, b: Seq<char>)
    requires
        !tokens_open(a).2,
    ensures
        tokens(a + seq![' '] + b) == tokens(a) + tokens(b),
{
    lemma_tokens_after(a, b);
}

proof fn lemma_tokens_after(a: Seq<char>, b: Seq<char>)
    requires
        !tokens_open(a).2,
    ensures
        tokens_open(a + seq![' '] + b).0 == tokens(a) + tokens_open(b).0,
        tokens_open(a + seq![' '] + b).1 == tokens_open(b).1,
        tokens_open(a + seq![' '] + b).2 == tokens_open(b).2,
        tokens(a + seq![' '] + b) == tokens(a) + tokens(b),
    decreases b.len(),
{
    let all = a + seq![' '] + b;
    if b.len() == 0 {
        assert(all.drop_last() =~= a);
        assert(all.last() == ' ');
        assert(is_white(' '));
        assert(tokens_open(all).0 =~= tokens(a) + tokens_open(b).0);
        assert(tokens(all) =~= tokens(a) + tokens(b));
    } else {
        lemma_tokens_after(a, b.drop_last());
        assert(all.drop_last() =~= a + seq![' '] + b.drop_last());
        assert(all.last() == b.last());
        assert(tokens_open(all).0 =~= tokens(a) + tokens_open(b).0);
        assert(tokens(all) =~= tokens(a) + tokens(b));
    }
}

/// A text without white space and quotes is one token; with quotes around it, so is one with white
/// space.
pub proof fn law_words_and_quotes_are_tokens(text: Seq<char>)
    requires
        text.len() > 0,
        forall|i: int| 0 <= i < text.len() ==> #[trigger] text[i] != '"',
    ensures
        (forall|i: int| 0 <= i < text.len() ==> !is_white(#[trigger] text[i])) ==> tokens(text)
            == seq![text],
        tokens(seq!['"'] + text + seq!['"']) == seq![text],
{
    lemma_bare(text);
    let quoted = seq!['"'] + text + seq!['"'];
    assert(quoted.drop_last() =~= seq!['"'] + text);
    lemma_quoted(text);
    assert(tokens(quoted) =~= seq![text]);
    if forall|i: int| 0 <= i < text.len() ==> !is_white(#[trigger] text[i]) {
        assert(tokens(text) =~= seq![text]);
    }
}

proof fn lemma_bare(text: Seq<char>)
    requires
        forall|i: int| 0 <= i < text.len() ==> #[trigger] text[i] != '"',
    ensures
        (forall|i: int| 0 <= i < text.len() ==> !is_white(#[trigger] text[i])) ==> tokens_open(text)
            == (Seq::<Seq<char>>::empty(), text, false),
    decreases text.len(),
{
    if text.len() > 0 {
        let t = text.drop_last();
        assert forall|i: int| 0 <= i < t.len() implies #[trigger] t[i] != '"' by {
            assert(t[i] == text[i]);
        }
        lemma_bare(t);
        if forall|i: int| 0 <= i < text.len() ==> !is_white(#[trigger] text[i]) {
            assert forall|i: int| 0 <= i < t.len() implies !is_white(#[trigger] t[i]) by {
                assert(t[i] == text[i]);
            }
            assert(text.last() == text[text.len() - 1]);
            assert(t.push(text.last()) =~= text);
        }
    } else {
        assert(text =~= Seq::<char>::empty());
    }
}

proof fn lemma_quoted(text: Seq<char>)
    requires
        forall|i: int| 0 <= i < text.len() ==> #[trigger] text[i] != '"',
    ensures
        tokens_open(seq!['"'] + text) == (Seq::<Seq<char>>::empty(), text, true),
    decreases text.len(),
{
    let all = seq!['"'] + text;
    if text.len() > 0 {
        let t = text.drop_last();
        assert forall|i: int| 0 <= i < t.len() implies #[trigger] t[i] != '"' by {
            assert(t[i] == text[i]);
        }
        lemma_quoted(t);
        assert(all.drop_last() =~= seq!['"'] + t);
        assert(all.last() == text[text.len() - 1]);
        assert(t.push(text.last()) =~= text);
    } else {
        assert(all.drop_last() =~= Seq::<char>::empty());
        assert(all.last() == '"');
        assert(text =~= Seq::<char>::empty());
        assert(tokens_open(all.drop_last()) == (Seq::<Seq<char>>::empty(), Seq::<char>::empty(), false));
    }
}

} // verus!
