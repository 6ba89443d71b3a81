//! What holds of texts, numbers and dates.

use crate::app::overlays::places_on;
use crate::app::App;
use crate::input::{KeyCode, KeyEvent};
use crate::search::EventDays;
use crate::text::{
    ascii_lower, decimal, digit_value, digits_value, is_white, lemma_decimal, occurs_at, occurs_in,
    parsed_signed, parsed_unsigned, signed_decimal, trim_end, trim_start, trimmed, unsigned_digits,
    words, words_open,
};
use crate::time::{
    first_instant, instant_or_utc, only_instant, Date, Timestamp, WallTime, MAX_DAY, MIN_DAY,
};
use vstd::prelude::*;

verus! {

proof fn lemma_trim_start_is(s: Seq<char>)
    ensures
        trim_start(s).len() <= s.len(),
        trim_start(s) == s.skip(s.len() - trim_start(s).len()),
        forall|i: int| 0 <= i < s.len() - trim_start(s).len() ==> is_white(#[trigger] s[i]),
        trim_start(s).len() > 0 ==> !is_white(trim_start(s)[0]),
    decreases s.len(),
{
    if s.len() > 0 && is_white(s[0]) {
        let rest = s.drop_first();
        lemma_trim_start_is(rest);
        assert(s.skip(s.len() - trim_start(s).len()) =~= rest.skip(
            rest.len() - trim_start(rest).len(),
        ));
        assert forall|i: int| 0 <= i < s.len() - trim_start(s).len() implies is_white(
            #[trigger] s[i],
        ) by {
            if i > 0 {
                assert(rest[i - 1] == s[i]);
            }
        }
    } else {
        assert(s.skip(0) =~= s);
    }
}

proof fn lemma_trim_end_is(s: Seq<char>)
    ensures
        trim_end(s).len() <= s.len(),
        trim_end(s) == s.take(trim_end(s).len() as int),
        forall|i: int| trim_end(s).len() <= i < s.len() ==> is_white(#[trigger] s[i]),
        trim_end(s).len() > 0 ==> !is_white(trim_end(s).last()),
    decreases s.len(),
{
    if s.len() > 0 && is_white(s.last()) {
        let rest = s.drop_last();
        lemma_trim_end_is(rest);
        assert(s.take(trim_end(s).len() as int) =~= rest.take(trim_end(rest).len() as int));
        assert forall|i: int| trim_end(s).len() <= i < s.len() implies is_white(
            #[trigger] s[i],
        ) by {
            if i < rest.len() {
                assert(rest[i] == s[i]);
            }
        }
    } else {
        assert(s.take(s.len() as int) =~= s);
    }
}

/// A trimmed text is what is left between the white space at both ends: it begins and ends with
/// another character, or is empty, and only white space is taken away.
pub proof fn law_trimmed_texts(s: Seq<char>)
    ensures
        exists|from: int|
            #![trigger s.skip(from)]
            0 <= from <= from + trimmed(s).len() <= s.len() && trimmed(s) == s.skip(from).take(
                trimmed(s).len() as int,
            ) && (forall|i: int| 0 <= i < from ==> is_white(#[trigger] s[i])) && forall|i: int|
                from + trimmed(s).len() <= i < s.len() ==> is_white(#[trigger] s[i]),
        trimmed(s).len() > 0 ==> !is_white(trimmed(s)[0]) && !is_white(trimmed(s).last()),
{
    let a = trim_start(s);
    lemma_trim_start_is(s);
    lemma_trim_end_is(a);
    let from = s.len() - a.len();
    assert(s.skip(from) == a);
    assert forall|i: int| from + trimmed(s).len() <= i < s.len() implies is_white(
        #[trigger] s[i],
    ) by {
        assert(a[i - from] == s[i]);
    }
    if trimmed(s).len() > 0 {
        assert(trimmed(s)[0] == a[0]);
    }
}

/// Lower case changes the letters from A to Z, each to its own small letter, and nothing else.
pub proof fn law_lower_case(s: Seq<char>, i: int)
    requires
        0 <= i < s.len(),
    ensures
        ascii_lower(s).len() == s.len(),
        'A' <= s[i] <= 'Z' ==> ascii_lower(s)[i] as int == s[i] as int + 32,
        !('A' <= s[i] <= 'Z') ==> ascii_lower(s)[i] == s[i],
{
}

/// A part occurs in a text wherever something stands before it and something after it, and only
/// then.
pub proof fn law_parts_occur(s: Seq<char>, before: Seq<char>, part: Seq<char>, after: Seq<char>)
    ensures
        occurs_in(before + part + after, part),
        occurs_in(s, part) ==> exists|a: Seq<char>, b: Seq<char>|
            s == #[trigger] (a + part + b),
{
    let whole = before + part + after;
    assert(whole.subrange(before.len() as int, (before.len() + part.len()) as int) =~= part);
    assert(occurs_at(whole, part, before.len() as int));
    if occurs_in(s, part) {
        let i = choose|i: int| occurs_at(s, part, i);
        let a = s.take(i);
        let b = s.skip(i + part.len());
        assert(s =~= a + part + b);
    }
}

/// Whether a text is not empty and holds no white space.
pub open spec fn is_word(s: Seq<char>) -> bool {
    s.len() > 0 && forall|i: int| 0 <= i < s.len() ==> !is_white(#[trigger] s[i])
}

proof fn lemma_words_open(s: Seq<char>)
    ensures
        forall|k: int| 0 <= k < words_open(s).0.len() ==> is_word(#[trigger] words_open(s).0[k]),
        words_open(s).1.len() > 0 ==> is_word(words_open(s).1),
    decreases s.len(),
{
    if s.len() > 0 {
        lemma_words_open(s.drop_last());
        let (done, word) = words_open(s.drop_last());
        assert forall|k: int| 0 <= k < words_open(s).0.len() implies is_word(
            #[trigger] words_open(s).0[k],
        ) by {
            if k < done.len() {
                assert(words_open(s).0[k] == done[k]);
            }
        }
        if !is_white(s.last()) {
            let longer = word.push(s.last());
            assert forall|i: int| 0 <= i < longer.len() implies !is_white(#[trigger] longer[i]) by {
                if i < word.len() {
                    assert(longer[i] == word[i]);
                }
            }
        }
    }
}

proof fn lemma_words_after(a: Seq<char>, b: Seq<char>)
    requires
        words_open(a).1.len() == 0,
    ensures
        words_open(a + b).0 == words_open(a).0 + words_open(b).0,
        words_open(a + b).1 == words_open(b).1,
    decreases b.len(),
{
    if b.len() == 0 {
        assert(a + b =~= a);
        assert(words_open(a).0 + words_open(b).0 =~= words_open(a).0);
        assert(words_open(b).1 =~= words_open(a).1);
    } else {
        lemma_words_after(a, b.drop_last());
        assert((a + b).drop_last() =~= a + b.drop_last());
        assert((a + b).last() == b.last());
        let (done, word) = words_open(b.drop_last());
        assert(words_open(a + b).0 =~= words_open(a).0 + words_open(b).0);
    }
}

/// The words of a text hold no white space and are not empty; a space between two texts parts their
/// words, and a text without white space is one word.
pub proof fn law_words(a: Seq<char>, b: Seq<char>, k: int)
    ensures
        0 <= k < words(a).len() ==> is_word(words(a)[k]),
        words(a.push(' ') + b) == words(a) + words(b),
        is_word(a) ==> words(a) == seq![a],
{
    lemma_words_open(a);
    let spaced = a.push(' ');
    assert(spaced.drop_last() =~= a);
    assert(words_open(spaced).1.len() == 0);
    assert(words_open(spaced).0 =~= words(a));
    lemma_words_after(spaced, b);
    assert(words(spaced + b) =~= words(a) + words(b));
    if is_word(a) {
        lemma_one_word(a);
        assert(words(a) =~= seq![a]);
    }
}

proof fn lemma_one_word(a: Seq<char>)
    requires
        forall|j: int| 0 <= j < a.len() ==> !is_white(#[trigger] a[j]),
    ensures
        words_open(a).0.len() == 0,
        words_open(a).1 == a,
    decreases a.len(),
{
    if a.len() > 0 {
        let less = a.drop_last();
        assert forall|j: int| 0 <= j < less.len() implies !is_white(#[trigger] less[j]) by {
            assert(less[j] == a[j]);
        }
        lemma_one_word(less);
        assert(a[a.len() - 1] == a.last());
        assert(less.push(a.last()) =~= a);
    }
}

/// A number that is written down reads back as itself, where it is in the range that is read.
pub proof fn law_numbers_read_back(n: nat, z: int, max: int)
    requires
        i64::MIN <= z <= i64::MAX,
    ensures
        parsed_unsigned(decimal(n), max) == (if n <= max {
            Some(n as int)
        } else {
            None
        }),
        parsed_signed(signed_decimal(z)) == Some(z),
{
    lemma_decimal(n);
    assert('0' <= decimal(n)[0] <= '9');
    assert(unsigned_digits(decimal(n)) == decimal(n));
    if z < 0 {
        let digits = decimal((-z) as nat);
        lemma_decimal((-z) as nat);
        let text = seq!['-'] + digits;
        assert(text.drop_first() =~= digits);
        assert(text[0] == '-');
    } else {
        lemma_decimal(z as nat);
        assert('0' <= decimal(z as nat)[0] <= '9');
    }
}

/// A text with anything but digits, behind a sign, is no number.
pub proof fn law_other_texts_are_no_numbers(s: Seq<char>, i: int, max: int)
    requires
        0 < i < s.len(),
        !('0' <= s[i] <= '9'),
    ensures
        parsed_unsigned(s, max) is None,
        parsed_signed(s) is None,
{
    lemma_no_digits(s, i);
    lemma_no_digits(s.drop_first(), i - 1);
}

proof fn lemma_no_digits(s: Seq<char>, i: int)
    requires
        0 <= i < s.len(),
        !('0' <= s[i] <= '9'),
    ensures
        digits_value(s) is None,
    decreases s.len(),
{
    if i == s.len() - 1 {
        assert(digit_value(s.last()) is None);
    } else {
        lemma_no_digits(s.drop_last(), i);
    }
}

/// The days of the week follow each other and come round after seven; the first day of the first
/// year was a Monday.
pub proof fn law_weekdays_follow(date: Date, next: Date, week: Date)
    requires
        next.day == date.day + 1,
        week.day == date.day + 7,
    ensures
        0 <= date.weekday() < 7,
        next.weekday() == (if date.weekday() == 6 {
            0
        } else {
            date.weekday() + 1
        }),
        week.weekday() == date.weekday(),
        date.day == 1 ==> date.weekday() == 0,
{
    lemma_round_seven(date.day - 1);
    assert(next.day - 1 == date.day - 1 + 1);
    assert(week.day - 1 == date.day - 1 + 7);
}

proof fn lemma_round_seven(x: int)
    ensures
        0 <= x % 7 < 7,
        (x + 1) % 7 == (if x % 7 == 6 {
            0
        } else {
            x % 7 + 1
        }),
        (x + 7) % 7 == x % 7,
{
}

/// A day is shifted by just as many days as are asked for, within the range of dates, and shifting
/// it back gives it again.
pub proof fn law_days_shift(date: Date, days: int)
    requires
        MIN_DAY <= date.day <= MAX_DAY,
        MIN_DAY <= date.day + days <= MAX_DAY,
    ensures
        date.clamped_shift(days).day == date.day + days,
        date.clamped_shift(days).clamped_shift(-days) == date,
        date.shifted(days) == Some(date.clamped_shift(days)),
{
}

/// An instant is shifted by just as many seconds as are asked for, and shifting it back gives it
/// again.
pub proof fn law_instants_shift(at: Timestamp, seconds: int)
    requires
        i128::MIN <= at.nanos + seconds * 1_000_000_000 <= i128::MAX,
    ensures
        at.shifted(seconds).nanos == at.nanos + seconds * 1_000_000_000,
        at.shifted(seconds).shifted(-seconds) == at,
{
    assert((-seconds) * 1_000_000_000 == -(seconds * 1_000_000_000)) by (nonlinear_arith);
}

/// A day begins in UTC at its own midnight, a day's seconds after the one before; the first of
/// January 1970 begins at the first instant.
pub proof fn law_midnights(date: Date, next: Date)
    requires
        MIN_DAY <= date.day < MAX_DAY,
        next.day == date.day + 1,
    ensures
        next.midnight().nanos - date.midnight().nanos == 86_400 * 1_000_000_000,
        date.day == 719_163 ==> date.midnight().nanos == 0,
{
}

/// The places of the events of a date are those of the events that take place on it, in order.
pub proof fn law_places_of_a_date(list: Seq<int>, days: Seq<EventDays>, date: Date, n: int, place: int)
    requires
        0 <= n <= list.len(),
    ensures
        places_on(list, days, date, n).contains(place) <==> 0 <= place < n
            && days[list[place]].first.day <= date.day <= days[list[place]].last.day,
    decreases n,
{
    if n > 0 {
        law_places_of_a_date(list, days, date, n - 1, place);
        let rest = places_on(list, days, date, n - 1);
        let all = places_on(list, days, date, n);
        if all.contains(place) {
            let i = choose|i: int| 0 <= i < all.len() && all[i] == place;
            if i < rest.len() {
                assert(rest[i] == place);
            }
        }
        if rest.contains(place) {
            let i = choose|i: int| 0 <= i < rest.len() && rest[i] == place;
            assert(all[i] == place);
        }
        if place == n - 1 && days[list[place]].hold(date) {
            assert(all[rest.len() as int] == place);
        }
    } else {
        assert(places_on(list, days, date, n).len() == 0);
    }
}

/// The help scrolls with the same keys as the details, Home goes to its first line, and Escape, `q`
/// and `?` leave it.
pub proof fn law_help_keys(app: App, key: KeyEvent, post: App)
    requires
        app.after_help_key(key, post),
    ensures
        (key.code == KeyCode::Down || key.code == KeyCode::Char('j')) && app.help_scroll < u16::MAX
            ==> post.help_scroll == app.help_scroll + 1,
        (key.code == KeyCode::Up || key.code == KeyCode::Char('k')) && app.help_scroll > 0
            ==> post.help_scroll == app.help_scroll - 1,
        key.code == KeyCode::PageDown && app.help_scroll + 8 <= u16::MAX ==> post.help_scroll
            == app.help_scroll + 8,
        key.code == KeyCode::PageUp && app.help_scroll >= 8 ==> post.help_scroll == app.help_scroll
            - 8,
        key.code == KeyCode::Home ==> post.help_scroll == 0,
        key.code == KeyCode::Esc || key.code == KeyCode::Char('q') || key.code == KeyCode::Char('?')
            ==> app.modal_left(post),
        post.snapshot == app.snapshot,
        post.active_date == app.active_date,
{
}

/// Of the seconds at which a clock shows a wall time the only one counts, where there is just one,
/// or the first, where any is asked for; where there is none, the wall time is read in UTC.
pub proof fn law_readings(
    seconds: Vec<i64>,
    at: WallTime,
    shown: Option<Timestamp>,
    only: Option<Timestamp>,
    first: Option<Timestamp>,
    read: Timestamp,
)
    requires
        call_ensures(only_instant, (&seconds,), only),
        call_ensures(first_instant, (&seconds,), first),
        call_ensures(instant_or_utc, (shown, at), read),
        at.second < 86_400,
    ensures
        only is Some <==> seconds@.len() == 1,
        only matches Some(instant) ==> instant.nanos == seconds@[0] * 1_000_000_000,
        first is Some <==> seconds@.len() > 0,
        first matches Some(instant) ==> instant.nanos == seconds@[0] * 1_000_000_000,
        shown matches Some(instant) ==> read == instant,
        shown is None ==> read.nanos == ((at.date.day - 719_163) * 86_400 + at.second)
            * 1_000_000_000,
{
}

/// The date in UTC of an instant is the one whose day it falls in.
pub proof fn law_utc_dates(at: Timestamp, date: Date)
    requires
        MIN_DAY < date.day < MAX_DAY,
        (date.day - 719_163) * 86_400_000_000_000 <= at.nanos < (date.day - 719_162)
            * 86_400_000_000_000,
    ensures
        at.utc_day() == date,
{
    let day = date.day - 719_163;
    let second = at.nanos as int / 1_000_000_000;
    assert(day * 86_400 <= second < (day + 1) * 86_400) by {
        assert(day * 86_400_000_000_000 == day * 86_400 * 1_000_000_000) by (nonlinear_arith);
        assert((day + 1) * 86_400_000_000_000 == (day + 1) * 86_400 * 1_000_000_000)
            by (nonlinear_arith);
    }
    assert(second / 86_400 == day);
    assert(at.whole_second() == second);
}

/// The minute of the day that a clock shows is the number of whole minutes since midnight.
pub proof fn law_minutes(at: WallTime, r: u32)
    requires
        call_ensures(WallTime::minute, (at,), r),
        at.second < 86_400,
    ensures
        0 <= r < 1_440,
        r * 60 <= at.second < r * 60 + 60,
{
}

} // verus!
