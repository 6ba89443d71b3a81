//! Dates, instants and wall clocks.
//!
//! A date is a day number and an instant a number of nanoseconds, so that the rules of the
//! calendar can be stated over integers. Reading and writing dates as text, months, and time
//! zones come from `chrono` and `chrono-tz`.

use crate::text::{digit_char, is_white, trimmed};
use chrono::{Datelike, TimeZone, Timelike};
use vstd::prelude::*;
use vstd::string::StringExecFns;

verus! {

/// The first day that a date can be.
pub const MIN_DAY: i32 = -95_746_129;

/// The last day that a date can be.
pub const MAX_DAY: i32 = 95_745_399;

/// The day number of 1 January 1970.
pub const EPOCH_DAY: i32 = 719_163;

pub const SECONDS_PER_DAY: i64 = 86_400;

pub const NANOS_PER_SECOND: i128 = 1_000_000_000;

/// The first second of the day after `MIN_DAY`, counted from 1970.
pub const MIN_SECOND: i64 = -8_334_601_142_400;

/// The first second of `MAX_DAY`, counted from 1970.
pub const MAX_SECOND: i64 = 8_210_266_790_400;

/// The largest distance of an instant from 1970 that arithmetic on instants accepts.
pub const NANOS_LIMIT: i128 = 1_000_000_000_000_000_000_000_000_000_000;

/// A calendar date, as the number of its day. Day 1 is 1 January of the year 1.
#[derive(Clone, Copy, Debug, PartialEq, Eq, PartialOrd, Ord, Hash, Structural)]
pub struct Date {
    pub day: i32,
}

/// An instant in UTC, in nanoseconds since the start of 1970.
#[derive(Clone, Copy, Debug, PartialEq, Eq, PartialOrd, Ord, Hash, Structural)]
pub struct Timestamp {
    pub nanos: i128,
}

/// What the clock on the wall shows: a date and the seconds since its midnight.
#[derive(Clone, Copy, Debug, PartialEq, Eq, Structural)]
pub struct WallTime {
    pub date: Date,
    pub second: u32,
}

/// The day nearest to a number of a day that is in the range of dates.
pub open spec fn clamped_day(day: int) -> Date {
    if day < MIN_DAY {
        Date { day: MIN_DAY }
    } else if day > MAX_DAY {
        Date { day: MAX_DAY }
    } else {
        Date { day: day as i32 }
    }
}

/// The instant nearest to a number of nanoseconds that can be written.
pub open spec fn clamped_nanos(nanos: int) -> Timestamp {
    if nanos < i128::MIN {
        Timestamp { nanos: i128::MIN }
    } else if nanos > i128::MAX {
        Timestamp { nanos: i128::MAX }
    } else {
        Timestamp { nanos: nanos as i128 }
    }
}

impl Date {
    /// Whether the day lies in the range that dates can have.
    pub open spec fn valid(self) -> bool {
        MIN_DAY <= self.day <= MAX_DAY
    }

    /// The date itself where it is in range, else the nearest that is.
    pub open spec fn clamped(self) -> Date {
        clamped_day(self.day as int)
    }

    /// The date `days` later, or the last one in range on the way there.
    pub open spec fn clamped_shift(self, days: int) -> Date {
        clamped_day(self.day + days)
    }

    /// The date itself where it is in range, else the nearest that is.
    pub fn nearest(self) -> (r: Date)
        ensures
            r == self.clamped(),
            r.valid(),
            self.valid() ==> r == self,
    {
        if self.day < MIN_DAY {
            Date { day: MIN_DAY }
        } else if self.day > MAX_DAY {
            Date { day: MAX_DAY }
        } else {
            self
        }
    }

    /// The date `days` later, or the last one in range on the way there.
    pub fn saturating_plus(self, days: i32) -> (r: Date)
        ensures
            r == self.clamped_shift(days as int),
            r.valid(),
    {
        let day: i64 = self.day as i64 + days as i64;
        if day < MIN_DAY as i64 {
            Date { day: MIN_DAY }
        } else if day > MAX_DAY as i64 {
            Date { day: MAX_DAY }
        } else {
            Date { day: day as i32 }
        }
    }

    /// The date `days` later, where it is in range.
    pub open spec fn shifted(self, days: int) -> Option<Date> {
        if MIN_DAY <= self.day + days <= MAX_DAY {
            Some(Date { day: (self.day + days) as i32 })
        } else {
            None
        }
    }

    /// The date `days` later, where it is in range.
    pub fn plus_days(self, days: i64) -> (r: Option<Date>)
        ensures
            r == self.shifted(days as int),
    {
        if days < -200_000_000 - (u32::MAX as i64) || days > 200_000_000 + (u32::MAX as i64) {
            return None;
        }
        let day: i64 = self.day as i64 + days;
        if MIN_DAY as i64 <= day && day <= MAX_DAY as i64 {
            Some(Date { day: day as i32 })
        } else {
            None
        }
    }

    /// The days since the last Monday: 0 on a Monday, 6 on a Sunday.
    pub open spec fn weekday(self) -> int {
        (self.day - 1) % 7
    }

    /// The days since the last Monday: 0 on a Monday, 6 on a Sunday.
    pub fn days_from_monday(self) -> (r: u32)
        ensures
            r == self.weekday(),
            r < 7,
    {
        let shifted: i64 = self.day as i64 - 1 + 7 * 1_000_000_000;
        proof {
            assert((self.day - 1 + 7 * 1_000_000_000) % 7 == (self.day - 1) % 7);
        }
        (shifted % 7) as u32
    }

    /// The instant at which the day starts in UTC.
    pub open spec fn midnight(self) -> Timestamp {
        Timestamp { nanos: ((self.day - EPOCH_DAY) * SECONDS_PER_DAY * NANOS_PER_SECOND) as i128 }
    }

    /// The instant at which the day starts in UTC.
    pub fn utc_midnight(self) -> (r: Timestamp)
        ensures
            r == self.midnight(),
            r.nanos == (self.day - EPOCH_DAY) * 86_400_000_000_000,
    {
        Timestamp { nanos: (self.day as i128 - EPOCH_DAY as i128) * 86_400_000_000_000 }
    }
}

impl Timestamp {
    /// Whether the instant is within the reach of arithmetic on instants.
    pub open spec fn in_reach(self) -> bool {
        -NANOS_LIMIT <= self.nanos <= NANOS_LIMIT
    }

    /// The whole seconds since 1970, kept a day inside the range of dates.
    pub open spec fn whole_second(self) -> int {
        let second = self.nanos as int / NANOS_PER_SECOND as int;
        if second < MIN_SECOND {
            MIN_SECOND as int
        } else if second > MAX_SECOND {
            MAX_SECOND as int
        } else {
            second
        }
    }

    /// The whole seconds since 1970, kept a day inside the range of dates.
    pub fn seconds(self) -> (r: i64)
        ensures
            r == self.whole_second(),
            MIN_SECOND <= r <= MAX_SECOND,
    {
        if self.nanos < MIN_SECOND as i128 * NANOS_PER_SECOND {
            return MIN_SECOND;
        }
        if self.nanos > MAX_SECOND as i128 * NANOS_PER_SECOND {
            return MAX_SECOND;
        }
        let shifted: i128 = self.nanos + 10_000_000_000_000 * NANOS_PER_SECOND;
        let second: i128 = shifted / NANOS_PER_SECOND - 10_000_000_000_000;
        proof {
            assert(shifted as int / 1_000_000_000 == self.nanos as int / 1_000_000_000
                + 10_000_000_000_000);
        }
        second as i64
    }

    /// The instant of a whole second.
    pub open spec fn of_second(second: int) -> Timestamp {
        Timestamp { nanos: (second * NANOS_PER_SECOND) as i128 }
    }

    /// The instant of a whole second.
    pub fn from_second(second: i64) -> (r: Timestamp)
        ensures
            r == Self::of_second(second as int),
            r.nanos == second * 1_000_000_000,
            r.in_reach(),
    {
        Timestamp { nanos: second as i128 * NANOS_PER_SECOND }
    }

    /// The date in UTC.
    pub open spec fn utc_day(self) -> Date {
        Date { day: (self.whole_second() / SECONDS_PER_DAY as int + EPOCH_DAY) as i32 }
    }

    /// The date in UTC.
    pub fn utc_date(self) -> (r: Date)
        ensures
            r == self.utc_day(),
            r.valid(),
    {
        let second: i64 = self.seconds();
        let shifted: i64 = second + 100_000_000 * SECONDS_PER_DAY;
        proof {
            assert(shifted as int / 86_400 == second as int / 86_400 + 100_000_000);
        }
        let day: i64 = shifted / SECONDS_PER_DAY - 100_000_000 + EPOCH_DAY as i64;
        Date { day: day as i32 }
    }

    /// The instant `nanos` later, or the last one that can be written on the way there.
    pub open spec fn clamped_shift(self, nanos: int) -> Timestamp {
        clamped_nanos(self.nanos + nanos)
    }

    /// The instant `nanos` later, or the last one that can be written on the way there.
    pub fn plus_nanos(self, nanos: i128) -> (r: Timestamp)
        ensures
            r == self.clamped_shift(nanos as int),
    {
        match self.nanos.checked_add(nanos) {
            Some(nanos) => Timestamp { nanos },
            None => if nanos < 0 {
                Timestamp { nanos: i128::MIN }
            } else {
                Timestamp { nanos: i128::MAX }
            },
        }
    }

    /// The instant `seconds` later.
    pub open spec fn shifted(self, seconds: int) -> Timestamp {
        self.clamped_shift(seconds * 1_000_000_000)
    }

    /// The instant `seconds` later.
    pub fn plus_seconds(self, seconds: i64) -> (r: Timestamp)
        ensures
            r == self.shifted(seconds as int),
    {
        self.plus_nanos(seconds as i128 * NANOS_PER_SECOND)
    }

    /// The nanoseconds from this instant to a later one, as far as they can be written.
    pub open spec fn nanos_until(self, later: Timestamp) -> int {
        clamped_nanos(later.nanos - self.nanos).nanos as int
    }

    /// The nanoseconds from this instant to a later one, as far as they can be written.
    pub fn until(self, later: Timestamp) -> (r: i128)
        ensures
            r == self.nanos_until(later),
    {
        match later.nanos.checked_sub(self.nanos) {
            Some(nanos) => nanos,
            None => if self.nanos > 0 {
                i128::MIN
            } else {
                i128::MAX
            },
        }
    }
}

impl WallTime {
    /// Whether the date is in range and the second within the day.
    pub open spec fn valid(self) -> bool {
        self.date.valid() && self.second < SECONDS_PER_DAY
    }

    /// The seconds from the start of 1970 to the time, taken as one in UTC.
    pub open spec fn utc_second(self) -> int {
        (self.date.day - EPOCH_DAY) * 86_400 + self.second
    }

    /// The minutes since midnight.
    pub open spec fn minute_of_day(self) -> int {
        self.second as int / 60
    }

    /// The minutes since midnight.
    pub fn minute(self) -> (r: u32)
        ensures
            r == self.minute_of_day(),
    {
        self.second / 60
    }
}

/// What `chrono` reads from a text as a date in the given format.
pub uninterp spec fn parsed_day(text: Seq<char>, format: Seq<char>) -> Option<i32>;

/// `NaiveDate::parse_from_str` reads a date in a `strftime` format. Which texts it accepts, and as
/// which day, is named, not spelled out. A day that it gives is in the range of dates.
#[verifier::external_body]
pub(crate) fn parse_day(text: &str, format: &str) -> (r: Option<i32>)
    ensures
        r == parsed_day(text@, format@),
        r matches Some(day) ==> MIN_DAY <= day <= MAX_DAY,
{
    match chrono::NaiveDate::parse_from_str(text, format) {
        Ok(date) => Some(date.num_days_from_ce()),
        Err(_) => None,
    }
}

/// The date that a text writes as year, month and day.
pub open spec fn iso_date(text: Seq<char>) -> Option<Date> {
    match parsed_day(text, "%Y-%m-%d"@) {
        Some(day) => Some(Date { day }),
        None => None,
    }
}

/// The date that a text writes as year, month and day.
pub fn parse_iso_date(text: &str) -> (r: Option<Date>)
    ensures
        r == iso_date(text@),
        r matches Some(date) ==> date.valid(),
{
    match parse_day(text, "%Y-%m-%d") {
        Some(day) => Some(Date { day }),
        None => None,
    }
}

/// What `chrono` reads from a text as a time of day in the given format.
pub uninterp spec fn parsed_second(text: Seq<char>, format: Seq<char>) -> Option<u32>;

/// `NaiveTime::parse_from_str` reads a time of day in a `strftime` format, here as seconds since
/// midnight. Which texts it accepts is named, not spelled out.
#[verifier::external_body]
pub(crate) fn parse_second(text: &str, format: &str) -> (r: Option<u32>)
    ensures
        r == parsed_second(text@, format@),
        r matches Some(second) ==> second < 86_400,
{
    match chrono::NaiveTime::parse_from_str(text, format) {
        Ok(time) => Some(time.num_seconds_from_midnight()),
        Err(_) => None,
    }
}

/// The time of day that a text writes as hours and minutes, in seconds since midnight.
pub open spec fn clock_time(text: Seq<char>) -> Option<u32> {
    parsed_second(text, "%H:%M"@)
}

/// The time of day that a text writes as hours and minutes, in seconds since midnight.
pub fn parse_clock_time(text: &str) -> (r: Option<u32>)
    ensures
        r == clock_time(text@),
        r matches Some(second) ==> second < 86_400,
{
    parse_second(text, "%H:%M")
}

/// What `chrono` reads from a text as a date and a time of day in the given format.
pub uninterp spec fn parsed_day_and_second(text: Seq<char>, format: Seq<char>) -> Option<
    (i32, u32),
>;

/// `NaiveDateTime::parse_from_str` reads a date and a time of day in a `strftime` format. Which
/// texts it accepts is named, not spelled out.
#[verifier::external_body]
pub(crate) fn parse_day_and_second(text: &str, format: &str) -> (r: Option<(i32, u32)>)
    ensures
        r == parsed_day_and_second(text@, format@),
        r matches Some(at) ==> MIN_DAY <= at.0 <= MAX_DAY && at.1 < 86_400,
{
    match chrono::NaiveDateTime::parse_from_str(text, format) {
        Ok(at) => Some((at.date().num_days_from_ce(), at.time().num_seconds_from_midnight())),
        Err(_) => None,
    }
}

/// The wall time that a text writes as year, month, day, hour and minute.
pub open spec fn wall_time(text: Seq<char>) -> Option<WallTime> {
    match parsed_day_and_second(text, "%Y-%m-%d %H:%M"@) {
        Some(at) => Some(WallTime { date: Date { day: at.0 }, second: at.1 }),
        None => None,
    }
}

/// The wall time that a text writes as year, month, day, hour and minute.
pub fn parse_wall_time(text: &str) -> (r: Option<WallTime>)
    ensures
        r == wall_time(text@),
        r matches Some(at) ==> at.valid(),
{
    match parse_day_and_second(text, "%Y-%m-%d %H:%M") {
        Some((day, second)) => Some(WallTime { date: Date { day }, second }),
        None => None,
    }
}

/// What `chrono` reads from a text in RFC 3339 form: seconds since 1970 and nanoseconds.
pub uninterp spec fn parsed_rfc3339(text: Seq<char>) -> Option<(i64, u32)>;

/// `DateTime::parse_from_rfc3339` reads an instant. Which texts it accepts is named, not spelled
/// out.
#[verifier::external_body]
pub(crate) fn parse_rfc3339(text: &str) -> (r: Option<(i64, u32)>)
    ensures
        r == parsed_rfc3339(text@),
{
    match chrono::DateTime::parse_from_rfc3339(text) {
        Ok(at) => Some((at.timestamp(), at.timestamp_subsec_nanos())),
        Err(_) => None,
    }
}

/// The instant that a text writes in RFC 3339 form. Instants are counted without leap seconds: a
/// leap second is the second that follows it.
pub open spec fn rfc3339_instant(text: Seq<char>) -> Option<Timestamp> {
    match parsed_rfc3339(text) {
        Some(at) => Some(Timestamp { nanos: (at.0 * NANOS_PER_SECOND + at.1) as i128 }),
        None => None,
    }
}

/// The instant that a text writes in RFC 3339 form.
pub fn parse_instant(text: &str) -> (r: Option<Timestamp>)
    ensures
        r == rfc3339_instant(text@),
{
    match parse_rfc3339(text) {
        Some((second, nanos)) => Some(
            Timestamp { nanos: second as i128 * NANOS_PER_SECOND + nanos as i128 },
        ),
        None => None,
    }
}

/// What `chrono` writes in RFC 3339 form for an instant in UTC, given as seconds since 1970 and
/// nanoseconds, with the zone as a `Z` or as an offset.
pub uninterp spec fn formatted_instant(second: i64, nanos: u32, use_z: bool) -> Seq<char>;

/// `DateTime::to_rfc3339_opts` writes an instant in UTC, with a `Z` for the zone where that is
/// wanted, and no more digits of a second than it takes. What it writes is named, not spelled out.
#[verifier::external_body]
pub(crate) fn format_rfc3339(second: i64, nanos: u32, use_z: bool) -> (r: String)
    requires
        MIN_SECOND <= second <= MAX_SECOND,
        nanos < 1_000_000_000,
    ensures
        r@ == formatted_instant(second, nanos, use_z),
{
    chrono::DateTime::from_timestamp(second, nanos).unwrap().to_rfc3339_opts(
        chrono::SecondsFormat::AutoSi,
        use_z,
    )
}

/// An instant in RFC 3339 form; one out of range as the nearest second in range.
pub open spec fn instant_text(at: Timestamp, use_z: bool) -> Seq<char> {
    let second = at.nanos as int / NANOS_PER_SECOND as int;
    if MIN_SECOND <= second <= MAX_SECOND {
        formatted_instant(second as i64, (at.nanos as int % NANOS_PER_SECOND as int) as u32, use_z)
    } else {
        formatted_instant(at.whole_second() as i64, 0, use_z)
    }
}

/// An instant in RFC 3339 form; one out of range as the nearest second in range.
pub fn rfc3339_text(at: Timestamp, use_z: bool) -> (r: String)
    ensures
        r@ == instant_text(at, use_z),
{
    let second: i64 = at.seconds();
    if at.nanos < MIN_SECOND as i128 * NANOS_PER_SECOND || at.nanos >= (MAX_SECOND as i128 + 1)
        * NANOS_PER_SECOND {
        return format_rfc3339(second, 0, use_z);
    }
    let nanos: i128 = at.nanos - second as i128 * NANOS_PER_SECOND;
    format_rfc3339(second, nanos as u32, use_z)
}

/// What `chrono` writes for a day in the given format.
pub uninterp spec fn formatted_day(day: i32, format: Seq<char>) -> Seq<char>;

/// `NaiveDate::format` writes a date in a `strftime` format. What it writes is named, not spelled
/// out. In the form year, month, day the text has no white space, and `NaiveDate::parse_from_str`
/// reads the day back from it.
#[verifier::external_body]
pub(crate) fn format_day(day: i32, format: &str) -> (r: String)
    requires
        MIN_DAY <= day <= MAX_DAY,
        format@ == "%Y-%m-%d"@ || format@ == "%-d %b %Y"@ || format@ == "%B %Y"@,
    ensures
        r@ == formatted_day(day, format@),
        format@ == "%Y-%m-%d"@ ==> parsed_day(r@, format@) == Some(day) && forall|i: int|
            0 <= i < r@.len() ==> !is_white(#[trigger] r@[i]),
{
    chrono::NaiveDate::from_num_days_from_ce_opt(day).unwrap().format(format).to_string()
}

/// A date as year, month and day.
pub open spec fn iso_text(date: Date) -> Seq<char> {
    formatted_day(date.clamped().day, "%Y-%m-%d"@)
}

/// A date as year, month and day; one out of range as the nearest in range. The text reads back as
/// the same date, also after trimming.
pub fn iso_date_text(date: Date) -> (r: String)
    ensures
        r@ == iso_text(date),
        iso_date(r@) == Some(date.clamped()),
        trimmed(r@) == r@,
{
    let r = format_day(date.nearest().day, "%Y-%m-%d");
    proof {
        if r@.len() > 0 {
            assert(!is_white(r@[0]));
            assert(!is_white(r@[r@.len() - 1]));
        }
    }
    r
}

/// Two digits of a number below 100.
pub open spec fn two_digits(n: int) -> Seq<char> {
    seq![digit_char(n / 10), digit_char(n % 10)]
}

/// Two digits of a number below 100.
pub fn two_digit_text(n: u32) -> (r: String)
    requires
        n < 100,
    ensures
        r@ == two_digits(n as int),
{
    let mut out = String::new();
    out.push((48 + (n / 10) as u8) as char);
    out.push((48 + (n % 10) as u8) as char);
    proof {
        assert(out@ =~= two_digits(n as int));
    }
    out
}

/// A time of day as hours and minutes.
pub open spec fn clock_text(second: int) -> Seq<char> {
    two_digits(second / 3600) + seq![':'] + two_digits(second / 60 % 60)
}

/// A time of day as hours and minutes.
pub fn clock_time_text(second: u32) -> (r: String)
    requires
        second < 86_400,
    ensures
        r@ == clock_text(second as int),
{
    let mut out = two_digit_text(second / 3600);
    out.push(':');
    out.append(two_digit_text(second / 60 % 60).as_str());
    proof {
        assert(out@ =~= clock_text(second as int));
    }
    out
}

/// A wall time as year, month, day, hour and minute.
pub open spec fn wall_text(at: WallTime) -> Seq<char> {
    iso_text(at.date) + seq![' '] + clock_text(at.second as int)
}

/// A wall time as year, month, day, hour and minute.
pub fn wall_time_text(at: WallTime) -> (r: String)
    requires
        at.second < SECONDS_PER_DAY,
    ensures
        r@ == wall_text(at),
{
    let mut out = iso_date_text(at.date);
    out.push(' ');
    out.append(clock_time_text(at.second).as_str());
    proof {
        assert(out@ =~= wall_text(at));
    }
    out
}

/// The first day of the month that a day lies in.
pub uninterp spec fn month_first_day(day: i32) -> i32;

/// `Datelike::with_day(1)` gives the first day of the month. Months have at most 31 days, and the
/// range of dates starts with a month.
#[verifier::external_body]
pub(crate) fn first_day_of_month(day: i32) -> (r: i32)
    requires
        MIN_DAY <= day <= MAX_DAY,
    ensures
        r == month_first_day(day),
        MIN_DAY <= r <= day < r + 31,
{
    chrono::NaiveDate::from_num_days_from_ce_opt(day).unwrap().with_day(1).unwrap()
        .num_days_from_ce()
}

/// The same day of the next month, or the last day of a shorter month.
pub uninterp spec fn next_month_day(day: i32) -> Option<i32>;

/// `NaiveDate::checked_add_months` with one month. There is no result beyond the range of dates.
#[verifier::external_body]
pub(crate) fn day_next_month(day: i32) -> (r: Option<i32>)
    requires
        MIN_DAY <= day <= MAX_DAY,
    ensures
        r == next_month_day(day),
        r matches Some(next) ==> day < next <= MAX_DAY && next <= day + 31,
{
    let date = chrono::NaiveDate::from_num_days_from_ce_opt(day).unwrap();
    match date.checked_add_months(chrono::Months::new(1)) {
        Some(next) => Some(next.num_days_from_ce()),
        None => None,
    }
}

/// The same day of the previous month, or the last day of a shorter month.
pub uninterp spec fn previous_month_day(day: i32) -> Option<i32>;

/// `NaiveDate::checked_sub_months` with one month. There is no result beyond the range of dates.
#[verifier::external_body]
pub(crate) fn day_previous_month(day: i32) -> (r: Option<i32>)
    requires
        MIN_DAY <= day <= MAX_DAY,
    ensures
        r == previous_month_day(day),
        r matches Some(previous) ==> MIN_DAY <= previous < day && day <= previous + 31,
{
    let date = chrono::NaiveDate::from_num_days_from_ce_opt(day).unwrap();
    match date.checked_sub_months(chrono::Months::new(1)) {
        Some(previous) => Some(previous.num_days_from_ce()),
        None => None,
    }
}

/// The year that a day lies in.
pub uninterp spec fn year_of_day(day: i32) -> i32;

/// `Datelike::year` gives the year of a date.
#[verifier::external_body]
pub(crate) fn day_year(day: i32) -> (r: i32)
    requires
        MIN_DAY <= day <= MAX_DAY,
    ensures
        r == year_of_day(day),
        -262_143 <= r <= 262_142,
{
    chrono::NaiveDate::from_num_days_from_ce_opt(day).unwrap().year()
}

/// Whether `chrono-tz` knows a time zone of this name.
pub uninterp spec fn zone_known(name: Seq<char>) -> bool;

/// Parsing a name as `chrono_tz::Tz` succeeds for the names of the zones that it holds.
#[verifier::external_body]
pub(crate) fn zone_is_known(name: &str) -> (r: bool)
    ensures
        r == zone_known(name@),
{
    name.parse::<chrono_tz::Tz>().is_ok()
}

/// The day and the second of the day that a known zone's clock shows at a second since 1970.
pub uninterp spec fn zone_day_and_second(name: Seq<char>, second: int) -> (i32, u32);

/// `DateTime::with_timezone` with a `chrono_tz::Tz` gives the zone's wall clock at an instant. What
/// it shows is named, not spelled out. The range of seconds keeps the date in range, as no zone is
/// a day away from UTC.
#[verifier::external_body]
pub(crate) fn zone_clock(name: &str, second: i64) -> (r: (i32, u32))
    requires
        zone_known(name@),
        MIN_SECOND <= second <= MAX_SECOND,
    ensures
        r == zone_day_and_second(name@, second as int),
        MIN_DAY <= r.0 <= MAX_DAY,
        r.1 < 86_400,
{
    let zone = name.parse::<chrono_tz::Tz>().unwrap();
    let at = chrono::DateTime::from_timestamp(second, 0).unwrap().with_timezone(&zone);
    (at.date_naive().num_days_from_ce(), at.time().num_seconds_from_midnight())
}

/// The seconds since 1970 at which a known zone's clock shows a time of a day: none in a gap, two
/// where the clock is set back, in the order in which `chrono` gives them.
pub uninterp spec fn zone_seconds(name: Seq<char>, day: i32, second: u32) -> Seq<i64>;

/// `TimeZone::from_local_datetime` of a `chrono_tz::Tz` gives the instants of a wall time.
#[verifier::external_body]
pub(crate) fn zone_instants(name: &str, day: i32, second: u32) -> (r: Vec<i64>)
    requires
        zone_known(name@),
        MIN_DAY <= day <= MAX_DAY,
        second < 86_400,
    ensures
        r@ == zone_seconds(name@, day, second),
        r@.len() <= 2,
{
    let zone = name.parse::<chrono_tz::Tz>().unwrap();
    let date = chrono::NaiveDate::from_num_days_from_ce_opt(day).unwrap();
    let time = chrono::NaiveTime::from_num_seconds_from_midnight_opt(second, 0).unwrap();
    match zone.from_local_datetime(&date.and_time(time)) {
        chrono::LocalResult::Single(at) => vec![at.timestamp()],
        chrono::LocalResult::Ambiguous(a, b) => vec![a.timestamp(), b.timestamp()],
        chrono::LocalResult::None => vec![],
    }
}

/// `DateTime::with_timezone` with `chrono::Local` gives the wall clock of the machine's time zone
/// at an instant. The machine decides what it shows; it is a date in range and a second of a day,
/// less than a day away from what a clock in UTC shows.
#[verifier::external_body]
pub(crate) fn local_clock(second: i64) -> (r: (i32, u32))
    requires
        MIN_SECOND <= second <= MAX_SECOND,
    ensures
        MIN_DAY <= r.0 <= MAX_DAY,
        r.1 < 86_400,
        second - 86_400 < (r.0 - EPOCH_DAY) * 86_400 + r.1 < second + 86_400,
{
    let at = chrono::DateTime::from_timestamp(second, 0).unwrap().with_timezone(&chrono::Local);
    (at.date_naive().num_days_from_ce(), at.time().num_seconds_from_midnight())
}

/// `TimeZone::from_local_datetime` of `chrono::Local` gives the instants of a wall time on this
/// machine: none, one or two. The machine's zone decides which; an offset from UTC is less than a
/// day.
#[verifier::external_body]
pub(crate) fn local_instants(day: i32, second: u32) -> (r: Vec<i64>)
    requires
        MIN_DAY <= day <= MAX_DAY,
        second < 86_400,
    ensures
        r@.len() <= 2,
        forall|i: int|
            0 <= i < r@.len() ==> (day - EPOCH_DAY - 1) * 86_400 + second < #[trigger] r@[i] < (day
                - EPOCH_DAY + 1) * 86_400 + second,
{
    let date = chrono::NaiveDate::from_num_days_from_ce_opt(day).unwrap();
    let time = chrono::NaiveTime::from_num_seconds_from_midnight_opt(second, 0).unwrap();
    match chrono::Local.from_local_datetime(&date.and_time(time)) {
        chrono::LocalResult::Single(at) => vec![at.timestamp()],
        chrono::LocalResult::Ambiguous(a, b) => vec![a.timestamp(), b.timestamp()],
        chrono::LocalResult::None => vec![],
    }
}

/// `Utc::now` gives the current instant, here as seconds since 1970 and nanoseconds. The clock
/// decides its value. It is not before 1970: a clock that says so is refused with a panic.
#[verifier::external_body]
pub(crate) fn utc_now() -> (r: (i64, u32))
    ensures
        r.0 >= 0,
{
    let now = chrono::Utc::now();
    (now.timestamp(), now.timestamp_subsec_nanos())
}

/// `iana_time_zone::get_timezone` gives the name of the machine's time zone, where it can be found.
/// The machine decides it.
#[verifier::external_body]
pub(crate) fn machine_zone() -> (r: Option<String>) {
    match iana_time_zone::get_timezone() {
        Ok(name) => Some(name),
        Err(_) => None,
    }
}

/// Whether some seconds are an answer of the machine's clock to the question at which instants it
/// shows a wall time. Only a call that asks for this very wall time gives one.
pub closed spec fn answered(at: WallTime, seconds: Seq<i64>) -> bool {
    exists|list: Vec<i64>|
        list@ == seconds && #[trigger] call_ensures(local_instants, (at.date.day, at.second), list)
}

/// Whether a wall time is an answer of the machine's clock to the question what it shows at an
/// instant. Only a call that asks for this very instant gives one.
pub closed spec fn showed(at: Timestamp, shown: WallTime) -> bool {
    exists|second: i64|
        second == at.whole_second() && #[trigger] call_ensures(
            local_clock,
            (second,),
            (shown.date.day, shown.second),
        )
}

/// Whether an instant is an answer of the machine's clock to the question which one it is.
pub closed spec fn was_now(at: Timestamp) -> bool {
    exists|read: (i64, u32)|
        at.nanos == read.0 * 1_000_000_000 + read.1 && #[trigger] call_ensures(utc_now, (), read)
}

/// Whether a name is an answer of the machine to the question for its time zone, or UTC where it
/// has answered with none.
pub closed spec fn was_zone(name: Seq<char>) -> bool {
    exists|found: Option<String>| #[trigger]
        call_ensures(machine_zone, (), found) && name == (match found {
            Some(found) => found@,
            None => "UTC"@,
        })
}

/// Calls a function of no argument. That the result is its own is kept in mind.
pub(crate) fn ask<T, F: Fn() -> T>(f: F) -> (r: T)
    requires
        call_requires(f, ()),
    ensures
        call_ensures(f, (), r),
{
    f()
}

/// Calls a function of one argument. That the result is its own, for this argument, is kept in
/// mind.
pub(crate) fn ask_of<A, T, F: Fn(A) -> T>(f: F, a: A) -> (r: T)
    requires
        call_requires(f, (a,)),
    ensures
        call_ensures(f, (a,), r),
{
    f(a)
}

fn ask_of_two<A, B, T, F: Fn(A, B) -> T>(f: F, a: A, b: B) -> (r: T)
    requires
        call_requires(f, (a, b)),
    ensures
        call_ensures(f, (a, b), r),
{
    f(a, b)
}

/// The name of a time zone, or UTC where it has none.
pub fn zone_or_utc(name: Option<String>) -> (r: String)
    ensures
        match name {
            Some(name) => r == name,
            None => r@ == "UTC"@,
        },
{
    match name {
        Some(name) => name,
        None => "UTC".to_owned(),
    }
}

/// The name of the machine's time zone, or UTC where it has none. The machine decides it.
pub fn local_zone_name() -> (r: String)
    ensures
        was_zone(r@),
{
    let found = ask(machine_zone);
    let ghost before = found;
    let name = zone_or_utc(found);
    proof {
        assert(call_ensures(machine_zone, (), before));
    }
    name
}

/// Whether a wall time may be read as an instant: taken as one in UTC, it is less than a day away.
pub open spec fn reads_near(at: WallTime, instant: Timestamp) -> bool {
    (at.utc_second() - 86_400) * 1_000_000_000 < instant.nanos < (at.utc_second() + 86_400)
        * 1_000_000_000
}

/// Whether the machine's clock shows a wall time at an instant: it has answered so. Taken as one in
/// UTC, the wall time is less than a day away.
pub open spec fn shows_near(at: Timestamp, shown: WallTime) -> bool {
    &&& showed(at, shown)
    &&& shown.valid()
    &&& at.whole_second() - 86_400 < shown.utc_second() < at.whole_second() + 86_400
}

/// Whether the machine's calendar shows a date at an instant: its clock has answered with a time of
/// that date.
pub open spec fn falls_near(at: Timestamp, date: Date) -> bool {
    &&& exists|shown: WallTime| #[trigger] showed(at, shown) && shown.date == date
    &&& at.whole_second() - 172_800 < (date.day - EPOCH_DAY) * 86_400 < at.whole_second() + 86_400
}

/// The date that a calendar shows for an instant that a wall time is read as is at most two days
/// from the wall time's.
pub proof fn lemma_read_and_shown(at: WallTime, instant: Timestamp, date: Date)
    requires
        at.valid(),
        reads_near(at, instant),
        falls_near(instant, date),
    ensures
        at.date.day - 2 <= date.day <= at.date.day + 2,
{
    let second = instant.nanos as int / 1_000_000_000;
    assert(at.utc_second() - 86_400 <= second < at.utc_second() + 86_400);
}

/// Whether a wall time is the current one: the machine's clock has answered with it for an instant
/// with which it has answered as the current one. Clocks start with 1970.
pub open spec fn is_current(clock: WallTime) -> bool {
    &&& exists|at: Timestamp| was_now(at) && #[trigger] showed(at, clock)
    &&& clock.valid()
    &&& clock.date.day >= EPOCH_DAY - 1
}

/// Whether a date is the current one: that of the current wall time.
pub open spec fn may_be_today(date: Date) -> bool {
    &&& exists|clock: WallTime| #[trigger] is_current(clock) && clock.date == date
    &&& date.valid()
    &&& date.day >= EPOCH_DAY - 1
}

/// The current instant.
pub fn now() -> (r: Timestamp)
    ensures
        was_now(r),
        r.in_reach(),
        r.nanos >= 0,
{
    let (second, nanos) = ask(utc_now);
    proof {
        assert(call_ensures(utc_now, (), (second, nanos)));
    }
    Timestamp { nanos: second as i128 * NANOS_PER_SECOND + nanos as i128 }
}

/// What the machine's wall clock shows at an instant.
pub fn local_wall_time(at: Timestamp) -> (r: WallTime)
    ensures
        r.valid(),
        shows_near(at, r),
        falls_near(at, r.date),
{
    let asked: i64 = at.seconds();
    let (day, second) = ask_of(local_clock, asked);
    let shown = WallTime { date: Date { day }, second };
    proof {
        assert(call_ensures(local_clock, (asked,), (shown.date.day, shown.second)));
        assert(showed(at, shown));
    }
    shown
}

/// The current time on the machine's wall clock.
pub fn local_now() -> (r: WallTime)
    ensures
        is_current(r),
{
    let at = now();
    let clock = local_wall_time(at);
    proof {
        assert(showed(at, clock));
    }
    clock
}

/// The current date on the machine's wall clock.
pub fn local_today() -> (r: Date)
    ensures
        may_be_today(r),
{
    let clock = local_now();
    proof {
        assert(is_current(clock));
    }
    clock.date
}

/// Whether a wall time may be shown at some instants: at most two, each less than a day from it.
pub open spec fn may_be_shown_at(at: WallTime, seconds: Seq<i64>) -> bool {
    &&& seconds.len() <= 2
    &&& forall|i: int|
        0 <= i < seconds.len() ==> at.utc_second() - 86_400 < #[trigger] seconds[i]
            < at.utc_second() + 86_400
}

/// The instant among those at which a wall time is shown, where it is shown once.
pub open spec fn single(seconds: Seq<i64>) -> Option<Timestamp> {
    if seconds.len() == 1 {
        Some(Timestamp::of_second(seconds[0] as int))
    } else {
        None
    }
}

/// The first of the instants at which a wall time is shown, where there is one.
pub open spec fn earliest(seconds: Seq<i64>) -> Option<Timestamp> {
    if seconds.len() > 0 {
        Some(Timestamp::of_second(seconds[0] as int))
    } else {
        None
    }
}

/// The instant among those at which a wall time is shown, where it is shown once: an ambiguous time
/// has none.
pub fn only_instant(seconds: &Vec<i64>) -> (r: Option<Timestamp>)
    ensures
        r == single(seconds@),
{
    if seconds.len() == 1 {
        Some(Timestamp::from_second(seconds[0]))
    } else {
        None
    }
}

/// The first of the instants at which a wall time is shown, where there is one.
pub fn first_instant(seconds: &Vec<i64>) -> (r: Option<Timestamp>)
    ensures
        r == earliest(seconds@),
{
    if seconds.len() > 0 {
        Some(Timestamp::from_second(seconds[0]))
    } else {
        None
    }
}

/// Whether an instant is the one at which the machine's clock shows a wall time, or none where it
/// shows it not at all, or twice: by its answer to that question.
pub open spec fn read_once(at: WallTime, r: Option<Timestamp>) -> bool {
    &&& exists|seconds: Seq<i64>| #[trigger]
        answered(at, seconds) && may_be_shown_at(at, seconds) && r == single(seconds)
    &&& r matches Some(instant) ==> instant.in_reach() && reads_near(at, instant)
}

/// Whether an instant is the first at which the machine's clock shows a wall time, or none where it
/// does not show it: by its answer to that question.
pub open spec fn read_first(at: WallTime, r: Option<Timestamp>) -> bool {
    &&& exists|seconds: Seq<i64>| #[trigger]
        answered(at, seconds) && may_be_shown_at(at, seconds) && r == earliest(seconds)
    &&& r matches Some(instant) ==> instant.in_reach() && reads_near(at, instant)
}

/// Whether an instant is the one at which the machine's clock shows a wall time, or, where it has no
/// such instant, that at which a clock in UTC does.
pub open spec fn read_as(at: WallTime, instant: Timestamp) -> bool {
    &&& exists|shown: Option<Timestamp>| #[trigger]
        read_once(at, shown) && instant == read_or_utc(shown, at)
    &&& reads_near(at, instant)
}

fn instants_of(at: WallTime) -> (r: Vec<i64>)
    requires
        at.valid(),
    ensures
        answered(at, r@),
        may_be_shown_at(at, r@),
{
    ask_of_two(local_instants, at.date.day, at.second)
}

/// The instant of a wall time on this machine, where there is exactly one.
pub fn local_single(at: WallTime) -> (r: Option<Timestamp>)
    requires
        at.valid(),
    ensures
        read_once(at, r),
        exists|seconds: Seq<i64>| #[trigger] may_be_shown_at(at, seconds) && r == single(seconds),
        r matches Some(instant) ==> instant.in_reach() && reads_near(at, instant),
{
    let seconds = instants_of(at);
    proof {
        assert(may_be_shown_at(at, seconds@));
        assert(answered(at, seconds@));
    }
    only_instant(&seconds)
}

/// The instant of a wall time on this machine, or, where there is not exactly one, that in UTC.
pub fn local_or_utc(at: WallTime) -> (r: Timestamp)
    requires
        at.valid(),
    ensures
        read_as(at, r),
{
    let shown = local_single(at);
    proof {
        assert(read_once(at, shown));
    }
    instant_or_utc(shown, at)
}

/// The instant at which a clock shows a wall time, or, where it has none, that at which a clock in
/// UTC does.
pub open spec fn read_or_utc(shown: Option<Timestamp>, at: WallTime) -> Timestamp {
    match shown {
        Some(instant) => instant,
        None => Timestamp::of_second(at.utc_second()),
    }
}

/// The instant at which a clock shows a wall time, or, where it has none, that at which a clock in
/// UTC does.
pub fn instant_or_utc(shown: Option<Timestamp>, at: WallTime) -> (r: Timestamp)
    requires
        at.valid(),
    ensures
        r == read_or_utc(shown, at),
        shown is None ==> reads_near(at, r),
{
    match shown {
        Some(instant) => instant,
        None => {
            let second: i64 = (at.date.day as i64 - EPOCH_DAY as i64) * SECONDS_PER_DAY
                + at.second as i64;
            Timestamp::from_second(second)
        },
    }
}

/// The first instant of a day on this machine, where the day starts at midnight.
pub fn local_midnight(date: Date) -> (r: Option<Timestamp>)
    requires
        date.valid(),
    ensures
        read_first(WallTime { date, second: 0 }, r),
        exists|seconds: Seq<i64>| #[trigger]
            may_be_shown_at(WallTime { date, second: 0 }, seconds) && r == earliest(seconds),
        r matches Some(instant) ==> instant.in_reach() && (date.day - EPOCH_DAY - 1)
            * 86_400_000_000_000 < instant.nanos < (date.day - EPOCH_DAY + 1) * 86_400_000_000_000,
{
    let midnight = WallTime { date, second: 0 };
    let seconds = instants_of(midnight);
    proof {
        assert(may_be_shown_at(midnight, seconds@));
        assert(answered(midnight, seconds@));
    }
    first_instant(&seconds)
}

} // verus!
