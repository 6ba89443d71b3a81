//! Alarms: reading them from text, editing them, and turning the edit into a change.

use crate::input::{KeyCode, KeyEvent};
use crate::model::{clone_alarms, Alarm, AlarmMutation, TimeZoneProvenance};
use crate::seqs::lemma_wrap;
use crate::text::{
    ascii_lower, chars_of, concat2, concat3, decimal, join, joined, lemma_decimal,
    lemma_split_whole, lemma_texts_push, lemma_trim_tight, parse_signed, parsed_signed, result_view,
    same_ignoring_case, same_text, split_at_char, split_on, text_of, texts, to_ascii_lower,
    to_decimal, trim, trimmed,
};
use crate::time::{
    clock_text, clock_time, clock_time_text, format_day, formatted_day, iso_date, iso_date_text,
    iso_text, parse_clock_time, parse_instant, parse_iso_date, rfc3339_instant, zone_clock,
    zone_day_and_second, zone_instants, zone_is_known, zone_known, zone_seconds, MAX_DAY, MIN_DAY,
    Date, Timestamp,
};
use vstd::prelude::*;
use vstd::string::StringExecFns;

verus! {

/// The text `label` followed by `item`.
pub open spec fn labelled(label: Seq<char>, item: Seq<char>) -> Seq<char> {
    label + item
}

/// The seconds in the unit that a text names by its letter.
pub open spec fn unit_seconds(unit: Seq<char>) -> Option<int> {
    if ascii_lower(unit) == "m"@ {
        Some(60)
    } else if ascii_lower(unit) == "h"@ {
        Some(3_600)
    } else if ascii_lower(unit) == "d"@ {
        Some(86_400)
    } else {
        None
    }
}

/// The alarm `seconds` away from an event's start.
pub open spec fn relative_alarm(seconds: int) -> Alarm {
    Alarm { relative_seconds: Some(seconds as i64), absolute_date: None, is_editable: true }
}

/// The alarm at an instant.
pub open spec fn absolute_alarm(at: Timestamp) -> Alarm {
    Alarm { relative_seconds: None, absolute_date: Some(at), is_editable: true }
}

/// The alarm that one item writes: an instant after `@`, or a number and the letter of a unit; or
/// what is wrong with the item.
pub open spec fn alarm_item(item: Seq<char>) -> Result<Alarm, Seq<char>> {
    if item.len() > 0 && item[0] == '@' {
        match rfc3339_instant(item.drop_first()) {
            Some(at) => Ok(absolute_alarm(at)),
            None => Err(labelled("Invalid absolute alert: "@, item)),
        }
    } else {
        let number = if item.len() > 0 {
            item.drop_last()
        } else {
            item
        };
        let unit = item.subrange(number.len() as int, item.len() as int);
        match parsed_signed(number) {
            None => Err(labelled("Invalid alert: "@, item)),
            Some(amount) => if amount < 0 {
                Err(labelled("Alert must be at or before the event: "@, item))
            } else {
                match unit_seconds(unit) {
                    None => Err(labelled("Alert unit must be m, h, or d: "@, item)),
                    Some(unit) => if amount * unit > i64::MAX {
                        Err(labelled("Alert is too large: "@, item))
                    } else {
                        Ok(relative_alarm(-(amount * unit)))
                    },
                }
            },
        }
    }
}

/// The alarms that items write, or what is wrong with the first item that writes none.
pub open spec fn alarm_items(items: Seq<Seq<char>>) -> Result<Seq<Alarm>, Seq<char>>
    decreases items.len(),
{
    if items.len() == 0 {
        Ok(Seq::empty())
    } else {
        match alarm_items(items.drop_last()) {
            Err(error) => Err(error),
            Ok(done) => match alarm_item(trimmed(items.last())) {
                Err(error) => Err(error),
                Ok(alarm) => Ok(done.push(alarm)),
            },
        }
    }
}

/// The alarms that a text lists, separated by commas; a blank text and `none` list none.
pub open spec fn listed_alarms(text: Seq<char>) -> Result<Seq<Alarm>, Seq<char>> {
    if trimmed(text).len() == 0 || ascii_lower(trimmed(text)) == ascii_lower("none"@) {
        Ok(Seq::empty())
    } else {
        alarm_items(split_at_char(text, ','))
    }
}

/// A list of alarms, or what is wrong.
pub open spec fn alarms_view(r: Result<Vec<Alarm>, String>) -> Result<Seq<Alarm>, Seq<char>> {
    match r {
        Ok(alarms) => Ok(alarms@),
        Err(error) => Err(error@),
    }
}

fn parse_alarm_item(item: &str) -> (r: Result<Alarm, String>)
    ensures
        result_view(r) == alarm_item(item@),
{
    let chars = chars_of(item);
    let n: usize = chars.len();
    if n > 0 && chars[0] == '@' {
        proof {
            assert(item@.drop_first() =~= chars@.subrange(1, n as int));
        }
        return match parse_instant(text_of(&chars, 1, n).as_str()) {
            Some(at) => Ok(
                Alarm { relative_seconds: None, absolute_date: Some(at), is_editable: true },
            ),
            None => Err(concat2("Invalid absolute alert: ", item)),
        };
    }
    let split: usize = if n > 0 {
        n - 1
    } else {
        0
    };
    let number = text_of(&chars, 0, split);
    let unit = text_of(&chars, split, n);
    proof {
        if n > 0 {
            assert(item@.drop_last() =~= number@);
        } else {
            assert(item@ =~= number@);
        }
    }
    let amount: i64 = match parse_signed(number.as_str()) {
        Some(amount) => amount,
        None => return Err(concat2("Invalid alert: ", item)),
    };
    if amount < 0 {
        return Err(concat2("Alert must be at or before the event: ", item));
    }
    let lower = to_ascii_lower(unit.as_str());
    let multiplier: i64 = if same_text(lower.as_str(), "m") {
        60
    } else if same_text(lower.as_str(), "h") {
        3_600
    } else if same_text(lower.as_str(), "d") {
        86_400
    } else {
        return Err(concat2("Alert unit must be m, h, or d: ", item));
    };
    match amount.checked_mul(multiplier) {
        Some(seconds) => Ok(
            Alarm { relative_seconds: Some(-seconds), absolute_date: None, is_editable: true },
        ),
        None => Err(concat2("Alert is too large: ", item)),
    }
}

/// Reads the alarms that a text lists, separated by commas.
pub fn parse_alarms(text: &str) -> (r: Result<Vec<Alarm>, String>)
    ensures
        alarms_view(r) == listed_alarms(text@),
{
    let whole = trim(text);
    if whole.as_str().is_empty() || same_ignoring_case(whole.as_str(), "none") {
        return Ok(Vec::new());
    }
    let items = split_on(text, ',');
    let mut alarms: Vec<Alarm> = Vec::new();
    let mut i: usize = 0;
    let ghost pieces = texts(items@);
    proof {
        assert(pieces.take(0) =~= Seq::<Seq<char>>::empty());
    }
    while i < items.len()
        invariant
            i <= items@.len(),
            pieces == texts(items@),
            pieces == split_at_char(text@, ','),
            listed_alarms(text@) == alarm_items(pieces),
            alarm_items(pieces.take(i as int)) == Ok::<Seq<Alarm>, Seq<char>>(alarms@),
        decreases items@.len() - i,
    {
        let item = trim(items[i].as_str());
        proof {
            assert(pieces.take(i + 1).drop_last() =~= pieces.take(i as int));
            assert(pieces.take(i + 1).last() == items@[i as int]@);
        }
        match parse_alarm_item(item.as_str()) {
            Ok(alarm) => {
                alarms.push(alarm);
            },
            Err(error) => {
                proof {
                    lemma_first_error(pieces, i + 1);
                }
                return Err(error);
            },
        }
        i += 1;
    }
    proof {
        assert(pieces.take(i as int) =~= pieces);
    }
    Ok(alarms)
}

proof fn lemma_first_error(items: Seq<Seq<char>>, n: int)
    requires
        0 <= n <= items.len(),
        alarm_items(items.take(n)) is Err,
    ensures
        alarm_items(items) == alarm_items(items.take(n)),
    decreases items.len() - n,
{
    if n == items.len() {
        assert(items.take(n) =~= items);
    } else {
        assert(items.take(n + 1).drop_last() =~= items.take(n));
        lemma_first_error(items, n + 1);
    }
}

/// An alarm that can be edited.
#[derive(Clone, Copy, Debug, PartialEq, Eq, Structural)]
pub enum EditableAlarm {
    /// An offset in seconds from the event's start: zero at the start, negative before it.
    Relative { relative_seconds: i64 },
    /// An instant.
    Absolute { date_time: Timestamp },
}

#[derive(Clone, Copy, Debug, PartialEq, Eq, Structural)]
pub enum AlarmValidationError {
    InvalidPayload,
    UnsupportedRelativeOffset,
    InvalidDate,
    InvalidTime,
    InvalidTimeZone,
    NonexistentLocalTime,
    AmbiguousLocalTime,
}

impl AlarmValidationError {
    /// What the error says.
    pub open spec fn text(self) -> Seq<char> {
        match self {
            AlarmValidationError::InvalidPayload => "Invalid alarm payload"@,
            AlarmValidationError::UnsupportedRelativeOffset =>
                "Relative alarms must be at or before the event"@,
            AlarmValidationError::InvalidDate => "Date must use YYYY-MM-DD"@,
            AlarmValidationError::InvalidTime => "Time must use HH:MM"@,
            AlarmValidationError::InvalidTimeZone => "Event time zone is invalid"@,
            AlarmValidationError::NonexistentLocalTime => "This local time does not exist"@,
            AlarmValidationError::AmbiguousLocalTime => "This local time is ambiguous"@,
        }
    }

    /// What the error says.
    pub fn message(self) -> (r: String)
        ensures
            r@ == self.text(),
    {
        match self {
            AlarmValidationError::InvalidPayload => "Invalid alarm payload".to_owned(),
            AlarmValidationError::UnsupportedRelativeOffset =>
                "Relative alarms must be at or before the event".to_owned(),
            AlarmValidationError::InvalidDate => "Date must use YYYY-MM-DD".to_owned(),
            AlarmValidationError::InvalidTime => "Time must use HH:MM".to_owned(),
            AlarmValidationError::InvalidTimeZone => "Event time zone is invalid".to_owned(),
            AlarmValidationError::NonexistentLocalTime =>
                "This local time does not exist".to_owned(),
            AlarmValidationError::AmbiguousLocalTime => "This local time is ambiguous".to_owned(),
        }
    }
}

/// The length of an offset in its largest whole unit.
pub open spec fn duration_text(seconds: int) -> Seq<char> {
    let length = if seconds < 0 {
        -seconds
    } else {
        seconds
    };
    if length == 0 {
        "0m"@
    } else if length % 86_400 == 0 {
        decimal((length / 86_400) as nat) + "d"@
    } else if length % 3_600 == 0 {
        decimal((length / 3_600) as nat) + "h"@
    } else {
        decimal((length / 60) as nat) + "m"@
    }
}

/// The length of an offset in its largest whole unit.
pub fn relative_duration_text(relative_seconds: i64) -> (r: String)
    ensures
        r@ == duration_text(relative_seconds as int),
{
    let length: u64 = if relative_seconds < 0 {
        (-(relative_seconds as i128)) as u64
    } else {
        relative_seconds as u64
    };
    if length == 0 {
        "0m".to_owned()
    } else if length % 86_400 == 0 {
        concat2(to_decimal(length / 86_400).as_str(), "d")
    } else if length % 3_600 == 0 {
        concat2(to_decimal(length / 3_600).as_str(), "h")
    } else {
        concat2(to_decimal(length / 60).as_str(), "m")
    }
}

/// How a relative alarm is shown.
pub open spec fn relative_label(seconds: int) -> Seq<char> {
    if seconds == 0 {
        "At event time"@
    } else {
        duration_text(seconds) + " before"@
    }
}

/// How a relative alarm is shown.
pub fn relative_alarm_label(relative_seconds: i64) -> (r: String)
    ensures
        r@ == relative_label(relative_seconds as int),
{
    if relative_seconds == 0 {
        "At event time".to_owned()
    } else {
        concat2(relative_duration_text(relative_seconds).as_str(), " before")
    }
}

/// A day and a second of the day, as day, month, year and time.
pub open spec fn long_text(day: i32, second: int) -> Seq<char> {
    formatted_day(day, "%-d %b %Y"@) + ", "@ + clock_text(second)
}

/// How an alarm at an instant is shown: in the event's zone where it is known, else in UTC.
pub open spec fn absolute_label(at: Timestamp, zone: Seq<char>) -> Seq<char> {
    if zone_known(zone) {
        let clock = zone_day_and_second(zone, at.whole_second());
        long_text(clock.0, clock.1 as int) + " (absolute)"@
    } else {
        long_text(at.utc_day().day, at.whole_second() % 86_400) + " UTC (absolute)"@
    }
}

fn long_time_text(day: i32, second: u32) -> (r: String)
    requires
        MIN_DAY <= day <= MAX_DAY,
        second < 86_400,
    ensures
        r@ == long_text(day, second as int),
{
    concat3(
        format_day(day, "%-d %b %Y").as_str(),
        ", ",
        clock_time_text(second).as_str(),
    )
}

/// How an alarm at an instant is shown: in the event's zone where it is known, else in UTC.
pub fn format_absolute_alarm(date_time: Timestamp, time_zone: &str) -> (r: String)
    ensures
        r@ == absolute_label(date_time, time_zone@),
{
    let at: i64 = date_time.seconds();
    if zone_is_known(time_zone) {
        let (day, second) = zone_clock(time_zone, at);
        concat2(long_time_text(day, second).as_str(), " (absolute)")
    } else {
        let shifted: i64 = at + 100_000_000 * 86_400;
        proof {
            assert(shifted as int % 86_400 == at as int % 86_400);
        }
        let second: u32 = (shifted % 86_400) as u32;
        concat2(long_time_text(date_time.utc_date().day, second).as_str(), " UTC (absolute)")
    }
}

impl EditableAlarm {
    /// The alarm in editable form, or why it has none: only relative alarms by whole minutes at or
    /// before the event and alarms at an instant can be edited.
    pub open spec fn of_alarm(alarm: Alarm) -> Result<EditableAlarm, AlarmValidationError> {
        if !alarm.is_editable {
            Err(AlarmValidationError::InvalidPayload)
        } else {
            match (alarm.relative_seconds, alarm.absolute_date) {
                (Some(relative_seconds), None) => if relative_seconds <= 0 && relative_seconds % 60
                    == 0 {
                    Ok(EditableAlarm::Relative { relative_seconds })
                } else {
                    Err(AlarmValidationError::UnsupportedRelativeOffset)
                },
                (None, Some(date_time)) => Ok(EditableAlarm::Absolute { date_time }),
                _ => Err(AlarmValidationError::InvalidPayload),
            }
        }
    }

    /// The alarm in editable form, or why it has none.
    pub fn from_alarm(alarm: &Alarm) -> (r: Result<EditableAlarm, AlarmValidationError>)
        ensures
            r == Self::of_alarm(*alarm),
    {
        if !alarm.is_editable {
            return Err(AlarmValidationError::InvalidPayload);
        }
        match (alarm.relative_seconds, alarm.absolute_date) {
            (Some(relative_seconds), None) => {
                if relative_seconds > 0 {
                    return Err(AlarmValidationError::UnsupportedRelativeOffset);
                }
                let length: i128 = -(relative_seconds as i128);
                proof {
                    assert((length as int % 60 == 0) == (relative_seconds as int % 60 == 0));
                }
                if length % 60 == 0 {
                    Ok(EditableAlarm::Relative { relative_seconds })
                } else {
                    Err(AlarmValidationError::UnsupportedRelativeOffset)
                }
            },
            (None, Some(date_time)) => Ok(EditableAlarm::Absolute { date_time }),
            _ => Err(AlarmValidationError::InvalidPayload),
        }
    }

    /// The alarm that the edited form stands for; there is none after the event's start.
    pub open spec fn alarm(self) -> Result<Alarm, AlarmValidationError> {
        match self {
            EditableAlarm::Relative { relative_seconds } => if relative_seconds <= 0 {
                Ok(relative_alarm(relative_seconds as int))
            } else {
                Err(AlarmValidationError::UnsupportedRelativeOffset)
            },
            EditableAlarm::Absolute { date_time } => Ok(absolute_alarm(date_time)),
        }
    }

    /// The alarm that the edited form stands for; there is none after the event's start.
    pub fn to_alarm(&self) -> (r: Result<Alarm, AlarmValidationError>)
        ensures
            r == self.alarm(),
    {
        match *self {
            EditableAlarm::Relative { relative_seconds } => if relative_seconds <= 0 {
                Ok(
                    Alarm {
                        relative_seconds: Some(relative_seconds),
                        absolute_date: None,
                        is_editable: true,
                    },
                )
            } else {
                Err(AlarmValidationError::UnsupportedRelativeOffset)
            },
            EditableAlarm::Absolute { date_time } => Ok(
                Alarm { relative_seconds: None, absolute_date: Some(date_time), is_editable: true },
            ),
        }
    }

    /// How the alarm is shown.
    pub open spec fn shown(self, zone: Seq<char>) -> Seq<char> {
        match self {
            EditableAlarm::Relative { relative_seconds } => relative_label(relative_seconds as int),
            EditableAlarm::Absolute { date_time } => absolute_label(date_time, zone),
        }
    }

    /// How the alarm is shown.
    pub fn display_in_timezone(&self, time_zone: &str) -> (r: String)
        ensures
            r@ == self.shown(time_zone@),
    {
        match *self {
            EditableAlarm::Relative { relative_seconds } => relative_alarm_label(relative_seconds),
            EditableAlarm::Absolute { date_time } => format_absolute_alarm(date_time, time_zone),
        }
    }
}

/// The instants of a wall time: one, or two where the clock is set back.
#[derive(Clone, Copy, Debug, PartialEq, Eq, Structural)]
pub enum AbsoluteResolution {
    Single(Timestamp),
    Ambiguous(Timestamp, Timestamp),
}

/// The instants that a date and a time name in a zone, or why they name none.
pub open spec fn absolute_resolution(
    date: Seq<char>,
    time: Seq<char>,
    zone: Seq<char>,
) -> Result<AbsoluteResolution, AlarmValidationError> {
    match (iso_date(trimmed(date)), clock_time(trimmed(time))) {
        (None, _) => Err(AlarmValidationError::InvalidDate),
        (Some(_), None) => Err(AlarmValidationError::InvalidTime),
        (Some(date), Some(second)) => if !zone_known(zone) {
            Err(AlarmValidationError::InvalidTimeZone)
        } else {
            resolution_of(zone_seconds(zone, date.day, second))
        },
    }
}

/// What a list of instants says about a wall time.
pub open spec fn resolution_of(seconds: Seq<i64>) -> Result<
    AbsoluteResolution,
    AlarmValidationError,
> {
    if seconds.len() == 0 {
        Err(AlarmValidationError::NonexistentLocalTime)
    } else if seconds.len() == 1 {
        Ok(AbsoluteResolution::Single(Timestamp::of_second(seconds[0] as int)))
    } else {
        Ok(
            AbsoluteResolution::Ambiguous(
                Timestamp::of_second(seconds[0] as int),
                Timestamp::of_second(seconds[1] as int),
            ),
        )
    }
}

/// What a list of instants says about a wall time.
pub fn resolve_instants(seconds: &Vec<i64>) -> (r: Result<
    AbsoluteResolution,
    AlarmValidationError,
>)
    ensures
        r == resolution_of(seconds@),
{
    if seconds.len() == 0 {
        Err(AlarmValidationError::NonexistentLocalTime)
    } else if seconds.len() == 1 {
        Ok(AbsoluteResolution::Single(Timestamp::from_second(seconds[0])))
    } else {
        Ok(
            AbsoluteResolution::Ambiguous(
                Timestamp::from_second(seconds[0]),
                Timestamp::from_second(seconds[1]),
            ),
        )
    }
}

/// The instants that a date and a time name in a zone, or why they name none.
pub fn resolve_absolute_alarm(date_buffer: &str, time_buffer: &str, time_zone: &str) -> (r: Result<
    AbsoluteResolution,
    AlarmValidationError,
>)
    ensures
        r == absolute_resolution(date_buffer@, time_buffer@, time_zone@),
{
    let date = match parse_iso_date(trim(date_buffer).as_str()) {
        Some(date) => date,
        None => return Err(AlarmValidationError::InvalidDate),
    };
    let second: u32 = match parse_clock_time(trim(time_buffer).as_str()) {
        Some(second) => second,
        None => return Err(AlarmValidationError::InvalidTime),
    };
    if !zone_is_known(time_zone) {
        return Err(AlarmValidationError::InvalidTimeZone);
    }
    resolve_instants(&zone_instants(time_zone, date.day, second))
}

/// The date and the time of an instant in a zone, as they are put before the user to edit.
pub open spec fn edit_buffers(at: Timestamp, zone: Seq<char>) -> Result<
    (Seq<char>, Seq<char>),
    AlarmValidationError,
> {
    if !zone_known(zone) {
        Err(AlarmValidationError::InvalidTimeZone)
    } else {
        let clock = zone_day_and_second(zone, at.whole_second());
        Ok((iso_text(Date { day: clock.0 }), clock_text(clock.1 as int)))
    }
}

/// The date and the time of an instant in a zone, as they are put before the user to edit.
pub fn absolute_edit_buffers(date_time: Timestamp, time_zone: &str) -> (r: Result<
    (String, String),
    AlarmValidationError,
>)
    ensures
        match r {
            Ok(buffers) => edit_buffers(date_time, time_zone@) == Ok::<
                (Seq<char>, Seq<char>),
                AlarmValidationError,
            >((buffers.0@, buffers.1@)),
            Err(error) => edit_buffers(date_time, time_zone@) == Err::<
                (Seq<char>, Seq<char>),
                AlarmValidationError,
            >(error),
        },
{
    if !zone_is_known(time_zone) {
        return Err(AlarmValidationError::InvalidTimeZone);
    }
    let (day, second) = zone_clock(time_zone, date_time.seconds());
    Ok((iso_date_text(Date { day }), clock_time_text(second)))
}

/// The offset of the one relative alarm that a text lists.
pub open spec fn typed_offset(text: Seq<char>) -> Result<i64, Seq<char>> {
    match listed_alarms(text) {
        Err(error) => Err(error),
        Ok(alarms) => if alarms.len() == 1 && alarms[0].relative_seconds is Some
            && alarms[0].absolute_date is None && alarms[0].relative_seconds->0 <= 0 {
            Ok(alarms[0].relative_seconds->0)
        } else {
            Err("Custom alarm must be one relative duration such as 5m, 2h, or 1d"@)
        },
    }
}

/// The offset of the one relative alarm that a text lists.
pub fn parse_relative_alarm_duration(text: &str) -> (r: Result<i64, String>)
    ensures
        result_view(r) == typed_offset(text@),
{
    match parse_alarms(text) {
        Err(error) => Err(error),
        Ok(alarms) => {
            if alarms.len() == 1 {
                match (alarms[0].relative_seconds, alarms[0].absolute_date) {
                    (Some(seconds), None) => {
                        if seconds <= 0 {
                            return Ok(seconds);
                        }
                    },
                    _ => {},
                }
            }
            Err("Custom alarm must be one relative duration such as 5m, 2h, or 1d".to_owned())
        },
    }
}

#[derive(Clone, Copy, Debug, PartialEq, Eq, Structural)]
pub enum AbsoluteAlarmField {
    Date,
    Time,
}

/// What the user is doing in the list of alarms.
#[derive(Debug, PartialEq, Eq)]
pub enum AlarmInteraction {
    Browse,
    Preset { selected: usize },
    Custom { buffer: String },
    Edit { buffer: String },
    AbsoluteEdit { date_buffer: String, time_buffer: String, field: AbsoluteAlarmField },
    AbsoluteAmbiguous { first: Timestamp, second: Timestamp },
}

/// What the user is doing in the list of alarms, with texts as sequences.
pub ghost enum AlarmInteractionView {
    Browse,
    Preset { selected: int },
    Custom { buffer: Seq<char> },
    Edit { buffer: Seq<char> },
    AbsoluteEdit { date_buffer: Seq<char>, time_buffer: Seq<char>, field: AbsoluteAlarmField },
    AbsoluteAmbiguous { first: Timestamp, second: Timestamp },
}

impl View for AlarmInteraction {
    type V = AlarmInteractionView;

    open spec fn view(&self) -> AlarmInteractionView {
        match self {
            AlarmInteraction::Browse => AlarmInteractionView::Browse,
            AlarmInteraction::Preset { selected } => AlarmInteractionView::Preset {
                selected: *selected as int,
            },
            AlarmInteraction::Custom { buffer } => AlarmInteractionView::Custom { buffer: buffer@ },
            AlarmInteraction::Edit { buffer } => AlarmInteractionView::Edit { buffer: buffer@ },
            AlarmInteraction::AbsoluteEdit { date_buffer, time_buffer, field } =>
                AlarmInteractionView::AbsoluteEdit {
                date_buffer: date_buffer@,
                time_buffer: time_buffer@,
                field: *field,
            },
            AlarmInteraction::AbsoluteAmbiguous { first, second } =>
                AlarmInteractionView::AbsoluteAmbiguous { first: *first, second: *second },
        }
    }
}

/// The alarms under edit, and the alarms that the edit started from.
#[derive(Debug, PartialEq, Eq)]
pub struct EditableAlarmData {
    pub original: Vec<Alarm>,
    pub alarms: Vec<EditableAlarm>,
    pub selected: usize,
    pub interaction: AlarmInteraction,
}

/// The alarms under edit, as values of mathematics.
#[verifier::ext_equal]
pub ghost struct EditableAlarmDataView {
    pub original: Seq<Alarm>,
    pub alarms: Seq<EditableAlarm>,
    pub selected: int,
    pub interaction: AlarmInteractionView,
}

impl View for EditableAlarmData {
    type V = EditableAlarmDataView;

    open spec fn view(&self) -> EditableAlarmDataView {
        EditableAlarmDataView {
            original: self.original@,
            alarms: self.alarms@,
            selected: self.selected as int,
            interaction: self.interaction@,
        }
    }
}

/// The number of presets.
pub const PRESET_COUNT: usize = 9;

/// The offset that a preset stands for; the last one lets the user type it.
pub open spec fn preset_offset(index: int) -> Option<i64> {
    if index == 0 {
        Some(0)
    } else if index == 1 {
        Some((-300i64) as i64)
    } else if index == 2 {
        Some((-600i64) as i64)
    } else if index == 3 {
        Some((-900i64) as i64)
    } else if index == 4 {
        Some((-1_800i64) as i64)
    } else if index == 5 {
        Some((-3_600i64) as i64)
    } else if index == 6 {
        Some((-7_200i64) as i64)
    } else if index == 7 {
        Some((-86_400i64) as i64)
    } else {
        None
    }
}

fn alarm_preset(index: usize) -> (r: Option<i64>)
    ensures
        r == preset_offset(index as int),
{
    if index == 0 {
        Some(0)
    } else if index == 1 {
        Some(-300)
    } else if index == 2 {
        Some(-600)
    } else if index == 3 {
        Some(-900)
    } else if index == 4 {
        Some(-1_800)
    } else if index == 5 {
        Some(-3_600)
    } else if index == 6 {
        Some(-7_200)
    } else if index == 7 {
        Some(-86_400)
    } else {
        None
    }
}

/// How a preset is shown.
pub open spec fn preset_label(index: int) -> Seq<char> {
    if index == 0 {
        "At event time"@
    } else if index == 1 {
        "5 minutes before"@
    } else if index == 2 {
        "10 minutes before"@
    } else if index == 3 {
        "15 minutes before"@
    } else if index == 4 {
        "30 minutes before"@
    } else if index == 5 {
        "1 hour before"@
    } else if index == 6 {
        "2 hours before"@
    } else if index == 7 {
        "1 day before"@
    } else {
        "Custom"@
    }
}

fn alarm_preset_label(index: usize) -> (r: &'static str)
    ensures
        r@ == preset_label(index as int),
{
    if index == 0 {
        "At event time"
    } else if index == 1 {
        "5 minutes before"
    } else if index == 2 {
        "10 minutes before"
    } else if index == 3 {
        "15 minutes before"
    } else if index == 4 {
        "30 minutes before"
    } else if index == 5 {
        "1 hour before"
    } else if index == 6 {
        "2 hours before"
    } else if index == 7 {
        "1 day before"
    } else {
        "Custom"
    }
}

/// What a key did: nothing where it is not for the list of alarms; else whether it changed the
/// form, or an error to show.
pub type AlarmKeyOutcome = Option<Result<bool, Seq<char>>>;

pub open spec fn outcome_view(r: Option<Result<bool, String>>) -> AlarmKeyOutcome {
    match r {
        None => None,
        Some(Ok(changed)) => Some(Ok(changed)),
        Some(Err(error)) => Some(Err(error@)),
    }
}

/// The text with its last character removed, where it has one.
pub open spec fn popped(s: Seq<char>) -> Seq<char> {
    if s.len() > 0 {
        s.drop_last()
    } else {
        s
    }
}

impl EditableAlarmDataView {
    /// The selection is on an alarm where there is one, an edit is of an alarm, and the preset is
    /// one of the list.
    pub open spec fn wf(self) -> bool {
        &&& 0 <= self.selected
        &&& self.alarms.len() > 0 ==> self.selected < self.alarms.len()
        &&& match self.interaction {
            AlarmInteractionView::Preset { selected } => 0 <= selected < PRESET_COUNT,
            AlarmInteractionView::Edit { .. } => self.alarms.len() > 0,
            AlarmInteractionView::AbsoluteEdit { .. } => self.alarms.len() > 0,
            AlarmInteractionView::AbsoluteAmbiguous { .. } => self.alarms.len() > 0,
            _ => true,
        }
    }

    pub open spec fn with_interaction(self, interaction: AlarmInteractionView) -> Self {
        EditableAlarmDataView { interaction, ..self }
    }

    /// The list with `alarm` added and selected.
    pub open spec fn added(self, alarm: EditableAlarm) -> Self {
        EditableAlarmDataView {
            alarms: self.alarms.push(alarm),
            selected: self.alarms.len() as int,
            interaction: AlarmInteractionView::Browse,
            ..self
        }
    }

    /// The list with the selected alarm replaced.
    pub open spec fn replaced(self, alarm: EditableAlarm) -> Self {
        EditableAlarmDataView {
            alarms: self.alarms.update(self.selected, alarm),
            interaction: AlarmInteractionView::Browse,
            ..self
        }
    }

    /// The list with the selected alarm removed, and the selection on an alarm that is left.
    pub open spec fn removed(self) -> Self {
        let left = self.alarms.len() - 1;
        EditableAlarmDataView {
            alarms: self.alarms.remove(self.selected),
            selected: if self.selected < left {
                self.selected
            } else if left > 0 {
                left - 1
            } else {
                0
            },
            ..self
        }
    }

    pub open spec fn after_browse_key(self, code: KeyCode, zone: Seq<char>) -> (
        Self,
        AlarmKeyOutcome,
    ) {
        if code == KeyCode::Char('a') {
            (
                self.with_interaction(AlarmInteractionView::Preset { selected: 0 }),
                Some(Ok(false)),
            )
        } else if self.alarms.len() == 0 {
            (self, None)
        } else if code == KeyCode::Char('d') {
            (self.removed(), Some(Ok(true)))
        } else if code == KeyCode::Enter {
            match self.alarms[self.selected] {
                EditableAlarm::Relative { relative_seconds } => (
                    self.with_interaction(
                        AlarmInteractionView::Edit {
                            buffer: duration_text(relative_seconds as int),
                        },
                    ),
                    Some(Ok(false)),
                ),
                EditableAlarm::Absolute { date_time } => match edit_buffers(date_time, zone) {
                    Ok(buffers) => (
                        self.with_interaction(
                            AlarmInteractionView::AbsoluteEdit {
                                date_buffer: buffers.0,
                                time_buffer: buffers.1,
                                field: AbsoluteAlarmField::Date,
                            },
                        ),
                        Some(Ok(false)),
                    ),
                    Err(error) => (self, Some(Err(error.text()))),
                },
            }
        } else if code == KeyCode::Char('j') || code == KeyCode::Down {
            (
                EditableAlarmDataView {
                    selected: (self.selected + 1) % self.alarms.len() as int,
                    ..self
                },
                Some(Ok(false)),
            )
        } else if code == KeyCode::Char('k') || code == KeyCode::Up {
            (
                EditableAlarmDataView {
                    selected: (self.selected + self.alarms.len() - 1) % self.alarms.len() as int,
                    ..self
                },
                Some(Ok(false)),
            )
        } else {
            (self, None)
        }
    }

    pub open spec fn after_preset_key(self, code: KeyCode, selected: int) -> (
        Self,
        AlarmKeyOutcome,
    ) {
        if code == KeyCode::Esc {
            (self.with_interaction(AlarmInteractionView::Browse), Some(Ok(false)))
        } else if code == KeyCode::Char('j') || code == KeyCode::Down {
            (
                self.with_interaction(
                    AlarmInteractionView::Preset { selected: (selected + 1) % 9 },
                ),
                Some(Ok(false)),
            )
        } else if code == KeyCode::Char('k') || code == KeyCode::Up {
            (
                self.with_interaction(
                    AlarmInteractionView::Preset { selected: (selected + 8) % 9 },
                ),
                Some(Ok(false)),
            )
        } else if code == KeyCode::Enter {
            match preset_offset(selected) {
                Some(relative_seconds) => (
                    self.added(EditableAlarm::Relative { relative_seconds }),
                    Some(Ok(true)),
                ),
                None => (
                    self.with_interaction(AlarmInteractionView::Custom { buffer: Seq::empty() }),
                    Some(Ok(false)),
                ),
            }
        } else {
            (self, Some(Ok(false)))
        }
    }

    /// The same kind of typing with another text.
    pub open spec fn with_buffer(self, editing: bool, buffer: Seq<char>) -> Self {
        self.with_interaction(
            if editing {
                AlarmInteractionView::Edit { buffer }
            } else {
                AlarmInteractionView::Custom { buffer }
            },
        )
    }

    pub open spec fn after_typing_key(self, key: KeyEvent, editing: bool, buffer: Seq<char>) -> (
        Self,
        AlarmKeyOutcome,
    ) {
        match key.code {
            KeyCode::Esc => (
                self.with_interaction(AlarmInteractionView::Browse),
                Some(Ok(false)),
            ),
            KeyCode::Backspace => (
                self.with_buffer(editing, popped(buffer)),
                Some(Ok(buffer.len() > 0)),
            ),
            KeyCode::Char(character) => if key.modifiers.control {
                (self, Some(Ok(false)))
            } else {
                (self.with_buffer(editing, buffer.push(character)), Some(Ok(true)))
            },
            KeyCode::Enter => match typed_offset(buffer) {
                Err(error) => (self, Some(Err(error))),
                Ok(relative_seconds) => if editing {
                    (self.replaced(EditableAlarm::Relative { relative_seconds }), Some(Ok(true)))
                } else {
                    (self.added(EditableAlarm::Relative { relative_seconds }), Some(Ok(true)))
                },
            },
            _ => (self, Some(Ok(false))),
        }
    }

    pub open spec fn with_absolute(
        self,
        date_buffer: Seq<char>,
        time_buffer: Seq<char>,
        field: AbsoluteAlarmField,
    ) -> Self {
        self.with_interaction(
            AlarmInteractionView::AbsoluteEdit { date_buffer, time_buffer, field },
        )
    }

    pub open spec fn after_absolute_key(
        self,
        key: KeyEvent,
        date: Seq<char>,
        time: Seq<char>,
        field: AbsoluteAlarmField,
        zone: Seq<char>,
    ) -> (Self, AlarmKeyOutcome) {
        match key.code {
            KeyCode::Esc => (
                self.with_interaction(AlarmInteractionView::Browse),
                Some(Ok(false)),
            ),
            KeyCode::Tab => (
                self.with_absolute(
                    date,
                    time,
                    if field == AbsoluteAlarmField::Date {
                        AbsoluteAlarmField::Time
                    } else {
                        AbsoluteAlarmField::Date
                    },
                ),
                Some(Ok(false)),
            ),
            KeyCode::Backspace => if field == AbsoluteAlarmField::Date {
                (self.with_absolute(popped(date), time, field), Some(Ok(date.len() > 0)))
            } else {
                (self.with_absolute(date, popped(time), field), Some(Ok(time.len() > 0)))
            },
            KeyCode::Char(character) => if key.modifiers.control {
                (self, Some(Ok(false)))
            } else if field == AbsoluteAlarmField::Date {
                (self.with_absolute(date.push(character), time, field), Some(Ok(true)))
            } else {
                (self.with_absolute(date, time.push(character), field), Some(Ok(true)))
            },
            KeyCode::Enter => match absolute_resolution(date, time, zone) {
                Ok(AbsoluteResolution::Single(date_time)) => (
                    self.replaced(EditableAlarm::Absolute { date_time }),
                    Some(Ok(true)),
                ),
                Ok(AbsoluteResolution::Ambiguous(first, second)) => (
                    self.with_interaction(
                        AlarmInteractionView::AbsoluteAmbiguous { first, second },
                    ),
                    Some(Ok(false)),
                ),
                Err(error) => (self, Some(Err(error.text()))),
            },
            _ => (self, Some(Ok(false))),
        }
    }

    pub open spec fn after_ambiguous_key(
        self,
        code: KeyCode,
        first: Timestamp,
        second: Timestamp,
    ) -> (Self, AlarmKeyOutcome) {
        if code == KeyCode::Esc {
            (self.with_interaction(AlarmInteractionView::Browse), Some(Ok(false)))
        } else if code == KeyCode::Char('1') {
            (self.replaced(EditableAlarm::Absolute { date_time: first }), Some(Ok(true)))
        } else if code == KeyCode::Char('2') {
            (self.replaced(EditableAlarm::Absolute { date_time: second }), Some(Ok(true)))
        } else {
            (self, Some(Ok(false)))
        }
    }

    /// The list after a key, and what the key did.
    pub open spec fn after_key(self, key: KeyEvent, zone: Seq<char>) -> (Self, AlarmKeyOutcome) {
        match self.interaction {
            AlarmInteractionView::Browse => self.after_browse_key(key.code, zone),
            AlarmInteractionView::Preset { selected } => self.after_preset_key(key.code, selected),
            AlarmInteractionView::Custom { buffer } => self.after_typing_key(key, false, buffer),
            AlarmInteractionView::Edit { buffer } => self.after_typing_key(key, true, buffer),
            AlarmInteractionView::AbsoluteEdit { date_buffer, time_buffer, field } =>
                self.after_absolute_key(key, date_buffer, time_buffer, field, zone),
            AlarmInteractionView::AbsoluteAmbiguous { first, second } => self.after_ambiguous_key(
                key.code,
                first,
                second,
            ),
        }
    }
}

impl EditableAlarmData {
    fn browse_key(&mut self, code: KeyCode, time_zone: &str) -> (r: Option<Result<bool, String>>)
        requires
            old(self)@.wf(),
            old(self).interaction is Browse,
        ensures
            (final(self)@, outcome_view(r)) == old(self)@.after_browse_key(code, time_zone@),
            r is None ==> *final(self) == *old(self),
    {
        if code == KeyCode::Char('a') {
            self.interaction = AlarmInteraction::Preset { selected: 0 };
            return Some(Ok(false));
        }
        let count: usize = self.alarms.len();
        if count == 0 {
            return None;
        }
        if code == KeyCode::Char('d') {
            let _ = self.alarms.remove(self.selected);
            let left: usize = count - 1;
            let last: usize = if left > 0 {
                left - 1
            } else {
                0
            };
            if self.selected > last {
                self.selected = last;
            }
            return Some(Ok(true));
        }
        if code == KeyCode::Enter {
            match self.alarms[self.selected] {
                EditableAlarm::Relative { relative_seconds } => {
                    self.interaction = AlarmInteraction::Edit {
                        buffer: relative_duration_text(relative_seconds),
                    };
                    return Some(Ok(false));
                },
                EditableAlarm::Absolute { date_time } => {
                    match absolute_edit_buffers(date_time, time_zone) {
                        Ok((date_buffer, time_buffer)) => {
                            self.interaction = AlarmInteraction::AbsoluteEdit {
                                date_buffer,
                                time_buffer,
                                field: AbsoluteAlarmField::Date,
                            };
                            return Some(Ok(false));
                        },
                        Err(error) => {
                            return Some(Err(error.message()));
                        },
                    }
                },
            }
        }
        proof {
            lemma_wrap(self.selected as int, count as int);
        }
        if code == KeyCode::Char('j') || code == KeyCode::Down {
            self.selected = if self.selected + 1 == count {
                0
            } else {
                self.selected + 1
            };
            return Some(Ok(false));
        }
        if code == KeyCode::Char('k') || code == KeyCode::Up {
            self.selected = if self.selected == 0 {
                count - 1
            } else {
                self.selected - 1
            };
            return Some(Ok(false));
        }
        None
    }

    fn preset_key(&mut self, code: KeyCode, selected: usize) -> (r: Option<Result<bool, String>>)
        requires
            old(self)@.wf(),
            old(self)@.interaction == (AlarmInteractionView::Preset { selected: selected as int }),
        ensures
            (final(self)@, outcome_view(r)) == old(self)@.after_preset_key(code, selected as int),
            r is Some,
    {
        if code == KeyCode::Esc {
            self.interaction = AlarmInteraction::Browse;
            return Some(Ok(false));
        }
        if code == KeyCode::Char('j') || code == KeyCode::Down {
            self.interaction = AlarmInteraction::Preset {
                selected: (selected + 1) % PRESET_COUNT,
            };
            return Some(Ok(false));
        }
        if code == KeyCode::Char('k') || code == KeyCode::Up {
            self.interaction = AlarmInteraction::Preset {
                selected: (selected + PRESET_COUNT - 1) % PRESET_COUNT,
            };
            return Some(Ok(false));
        }
        if code == KeyCode::Enter {
            match alarm_preset(selected) {
                Some(relative_seconds) => {
                    self.alarms.push(EditableAlarm::Relative { relative_seconds });
                    self.selected = self.alarms.len() - 1;
                    self.interaction = AlarmInteraction::Browse;
                    return Some(Ok(true));
                },
                None => {
                    self.interaction = AlarmInteraction::Custom { buffer: String::new() };
                    return Some(Ok(false));
                },
            }
        }
        Some(Ok(false))
    }

    fn typing_key(&mut self, key: KeyEvent, editing: bool, buffer: String) -> (r: Option<
        Result<bool, String>,
    >)
        requires
            old(self)@.wf(),
            old(self)@ == old(self)@.with_buffer(editing, buffer@),
        ensures
            (final(self)@, outcome_view(r)) == old(self)@.after_typing_key(key, editing, buffer@),
            r is Some,
    {
        let mut buffer = buffer;
        match key.code {
            KeyCode::Esc => {
                self.interaction = AlarmInteraction::Browse;
                Some(Ok(false))
            },
            KeyCode::Backspace => {
                let popped = buffer.pop();
                self.interaction = if editing {
                    AlarmInteraction::Edit { buffer }
                } else {
                    AlarmInteraction::Custom { buffer }
                };
                Some(Ok(popped.is_some()))
            },
            KeyCode::Char(character) => {
                if key.modifiers.control {
                    return Some(Ok(false));
                }
                buffer.push(character);
                self.interaction = if editing {
                    AlarmInteraction::Edit { buffer }
                } else {
                    AlarmInteraction::Custom { buffer }
                };
                Some(Ok(true))
            },
            KeyCode::Enter => {
                let relative_seconds: i64 = match parse_relative_alarm_duration(buffer.as_str()) {
                    Ok(seconds) => seconds,
                    Err(error) => return Some(Err(error)),
                };
                if editing {
                    self.alarms.set(self.selected, EditableAlarm::Relative { relative_seconds });
                } else {
                    self.alarms.push(EditableAlarm::Relative { relative_seconds });
                    self.selected = self.alarms.len() - 1;
                }
                self.interaction = AlarmInteraction::Browse;
                Some(Ok(true))
            },
            _ => Some(Ok(false)),
        }
    }

    fn absolute_key(
        &mut self,
        key: KeyEvent,
        date: String,
        time: String,
        field: AbsoluteAlarmField,
        time_zone: &str,
    ) -> (r: Option<Result<bool, String>>)
        requires
            old(self)@.wf(),
            old(self)@ == old(self)@.with_absolute(date@, time@, field),
        ensures
            (final(self)@, outcome_view(r)) == old(self)@.after_absolute_key(
                key,
                date@,
                time@,
                field,
                time_zone@,
            ),
            r is Some,
    {
        let mut date_buffer = date;
        let mut time_buffer = time;
        match key.code {
            KeyCode::Esc => {
                self.interaction = AlarmInteraction::Browse;
                Some(Ok(false))
            },
            KeyCode::Tab => {
                let field = match field {
                    AbsoluteAlarmField::Date => AbsoluteAlarmField::Time,
                    AbsoluteAlarmField::Time => AbsoluteAlarmField::Date,
                };
                self.interaction = AlarmInteraction::AbsoluteEdit {
                    date_buffer,
                    time_buffer,
                    field,
                };
                Some(Ok(false))
            },
            KeyCode::Backspace => {
                let popped = match field {
                    AbsoluteAlarmField::Date => date_buffer.pop(),
                    AbsoluteAlarmField::Time => time_buffer.pop(),
                };
                self.interaction = AlarmInteraction::AbsoluteEdit {
                    date_buffer,
                    time_buffer,
                    field,
                };
                Some(Ok(popped.is_some()))
            },
            KeyCode::Char(character) => {
                if key.modifiers.control {
                    return Some(Ok(false));
                }
                match field {
                    AbsoluteAlarmField::Date => date_buffer.push(character),
                    AbsoluteAlarmField::Time => time_buffer.push(character),
                }
                self.interaction = AlarmInteraction::AbsoluteEdit {
                    date_buffer,
                    time_buffer,
                    field,
                };
                Some(Ok(true))
            },
            KeyCode::Enter => {
                match resolve_absolute_alarm(date_buffer.as_str(), time_buffer.as_str(), time_zone) {
                    Ok(AbsoluteResolution::Single(date_time)) => {
                        self.alarms.set(self.selected, EditableAlarm::Absolute { date_time });
                        self.interaction = AlarmInteraction::Browse;
                        Some(Ok(true))
                    },
                    Ok(AbsoluteResolution::Ambiguous(first, second)) => {
                        self.interaction = AlarmInteraction::AbsoluteAmbiguous { first, second };
                        Some(Ok(false))
                    },
                    Err(error) => Some(Err(error.message())),
                }
            },
            _ => Some(Ok(false)),
        }
    }

    fn ambiguous_key(&mut self, code: KeyCode, first: Timestamp, second: Timestamp) -> (r: Option<
        Result<bool, String>,
    >)
        requires
            old(self)@.wf(),
            old(self)@.interaction == (AlarmInteractionView::AbsoluteAmbiguous { first, second }),
        ensures
            (final(self)@, outcome_view(r)) == old(self)@.after_ambiguous_key(code, first, second),
            r is Some,
    {
        if code == KeyCode::Esc {
            self.interaction = AlarmInteraction::Browse;
            return Some(Ok(false));
        }
        if code == KeyCode::Char('1') {
            self.alarms.set(self.selected, EditableAlarm::Absolute { date_time: first });
            self.interaction = AlarmInteraction::Browse;
            return Some(Ok(true));
        }
        if code == KeyCode::Char('2') {
            self.alarms.set(self.selected, EditableAlarm::Absolute { date_time: second });
            self.interaction = AlarmInteraction::Browse;
            return Some(Ok(true));
        }
        Some(Ok(false))
    }

    /// Handles a key in the list of alarms.
    pub fn handle_key(&mut self, key: KeyEvent, time_zone: &str) -> (r: Option<
        Result<bool, String>,
    >)
        requires
            old(self)@.wf(),
        ensures
            (final(self)@, outcome_view(r)) == old(self)@.after_key(key, time_zone@),
            final(self)@.wf(),
            r is None ==> *final(self) == *old(self),
    {
        match &self.interaction {
            AlarmInteraction::Browse => self.browse_key(key.code, time_zone),
            AlarmInteraction::Preset { selected } => {
                let selected: usize = *selected;
                self.preset_key(key.code, selected)
            },
            AlarmInteraction::Custom { buffer } => {
                let buffer = buffer.clone();
                self.typing_key(key, false, buffer)
            },
            AlarmInteraction::Edit { buffer } => {
                let buffer = buffer.clone();
                self.typing_key(key, true, buffer)
            },
            AlarmInteraction::AbsoluteEdit { date_buffer, time_buffer, field } => {
                let date = date_buffer.clone();
                let time = time_buffer.clone();
                let field = *field;
                self.absolute_key(key, date, time, field, time_zone)
            },
            AlarmInteraction::AbsoluteAmbiguous { first, second } => {
                let first = *first;
                let second = *second;
                self.ambiguous_key(key.code, first, second)
            },
        }
    }
}

impl Clone for AlarmInteraction {
    fn clone(&self) -> (r: Self)
        ensures
            r == *self,
    {
        match self {
            AlarmInteraction::Browse => AlarmInteraction::Browse,
            AlarmInteraction::Preset { selected } => AlarmInteraction::Preset {
                selected: *selected,
            },
            AlarmInteraction::Custom { buffer } => AlarmInteraction::Custom {
                buffer: buffer.clone(),
            },
            AlarmInteraction::Edit { buffer } => AlarmInteraction::Edit { buffer: buffer.clone() },
            AlarmInteraction::AbsoluteEdit { date_buffer, time_buffer, field } =>
                AlarmInteraction::AbsoluteEdit {
                date_buffer: date_buffer.clone(),
                time_buffer: time_buffer.clone(),
                field: *field,
            },
            AlarmInteraction::AbsoluteAmbiguous { first, second } =>
                AlarmInteraction::AbsoluteAmbiguous { first: *first, second: *second },
        }
    }
}

impl Clone for EditableAlarmData {
    fn clone(&self) -> (r: Self)
        ensures
            r@ == self@,
    {
        let alarms = self.alarms.clone();
        proof {
            assert(alarms@ =~= self.alarms@);
        }
        EditableAlarmData {
            original: clone_alarms(&self.original),
            alarms,
            selected: self.selected,
            interaction: self.interaction.clone(),
        }
    }
}

/// The alarms that edited alarms stand for; there are none if one of them comes after the event's
/// start.
pub open spec fn alarms_of(edited: Seq<EditableAlarm>) -> Result<Seq<Alarm>, AlarmValidationError> {
    if forall|i: int| 0 <= i < edited.len() ==> (#[trigger] edited[i]).alarm() is Ok {
        Ok(edited.map_values(|e: EditableAlarm| e.alarm()->Ok_0))
    } else {
        Err(AlarmValidationError::UnsupportedRelativeOffset)
    }
}

/// How a list of alarms is shown while it is browsed: in order, the selected one marked.
pub open spec fn browse_entries(
    alarms: Seq<EditableAlarm>,
    selected: int,
    zone: Seq<char>,
) -> Seq<Seq<char>> {
    Seq::new(
        alarms.len(),
        |i: int|
            (if i == selected {
                "> "@
            } else {
                ""@
            }) + alarms[i].shown(zone),
    )
}

impl EditableAlarmDataView {
    /// How the list of alarms is shown.
    pub open spec fn shown(self, zone: Seq<char>) -> Seq<char> {
        match self.interaction {
            AlarmInteractionView::Browse => if self.alarms.len() == 0 {
                "None · a add alarm"@
            } else {
                joined(browse_entries(self.alarms, self.selected, zone), " · "@)
            },
            AlarmInteractionView::Preset { selected } => "Add: "@ + preset_label(selected)
                + " (j/k choose · Enter select · Esc cancel)"@,
            AlarmInteractionView::Custom { buffer } => "Custom: "@ + buffer
                + " (5m, 2h, 1d · Enter add · Esc cancel)"@,
            AlarmInteractionView::Edit { buffer } => "Edit: "@ + buffer
                + " (5m, 2h, 1d · Enter save · Esc cancel)"@,
            AlarmInteractionView::AbsoluteEdit { date_buffer, time_buffer, field } => (if field
                == AbsoluteAlarmField::Date {
                "Absolute date: "@
            } else {
                "Absolute time: "@
            }) + date_buffer + " "@ + time_buffer + " (Tab field · Enter save · Esc cancel)"@,
            AlarmInteractionView::AbsoluteAmbiguous { .. } =>
                "Ambiguous local time: 1 +0000 · 2 +0000 · Esc cancel"@,
        }
    }
}

impl EditableAlarmData {
    /// The alarms that the edited alarms stand for.
    pub fn to_alarms(&self) -> (r: Result<Vec<Alarm>, AlarmValidationError>)
        ensures
            match r {
                Ok(alarms) => alarms_of(self.alarms@) == Ok::<Seq<Alarm>, AlarmValidationError>(
                    alarms@,
                ),
                Err(error) => alarms_of(self.alarms@) == Err::<Seq<Alarm>, AlarmValidationError>(
                    error,
                ),
            },
    {
        let mut alarms: Vec<Alarm> = Vec::new();
        let mut i: usize = 0;
        while i < self.alarms.len()
            invariant
                i <= self.alarms@.len(),
                alarms@.len() == i,
                forall|j: int|
                    0 <= j < i ==> (#[trigger] self.alarms@[j]).alarm() == Ok::<
                        Alarm,
                        AlarmValidationError,
                    >(alarms@[j]),
            decreases self.alarms@.len() - i,
        {
            match self.alarms[i].to_alarm() {
                Ok(alarm) => alarms.push(alarm),
                Err(error) => {
                    proof {
                        assert(self.alarms@[i as int].alarm() is Err);
                    }
                    return Err(error);
                },
            }
            i += 1;
        }
        proof {
            assert(alarms@ =~= self.alarms@.map_values(|e: EditableAlarm| e.alarm()->Ok_0));
        }
        Ok(alarms)
    }

    /// How the list of alarms is shown.
    pub fn display(&self, time_zone: &str) -> (r: String)
        ensures
            r@ == self@.shown(time_zone@),
    {
        match &self.interaction {
            AlarmInteraction::Browse => {
                if self.alarms.len() == 0 {
                    return "None · a add alarm".to_owned();
                }
                let mut entries: Vec<String> = Vec::new();
                let mut i: usize = 0;
                let ghost all = browse_entries(self.alarms@, self.selected as int, time_zone@);
                proof {
                    assert(texts(entries@) =~= all.take(0));
                }
                while i < self.alarms.len()
                    invariant
                        i <= self.alarms@.len(),
                        all == browse_entries(self.alarms@, self.selected as int, time_zone@),
                        texts(entries@) == all.take(i as int),
                    decreases self.alarms@.len() - i,
                {
                    let mark = if i == self.selected {
                        "> "
                    } else {
                        ""
                    };
                    let entry = concat2(
                        mark,
                        self.alarms[i].display_in_timezone(time_zone).as_str(),
                    );
                    proof {
                        lemma_texts_push(entries@, entry);
                        assert(all.take(i + 1) =~= all.take(i as int).push(entry@));
                    }
                    entries.push(entry);
                    i += 1;
                }
                proof {
                    assert(all.take(i as int) =~= all);
                }
                join(&entries, " · ")
            },
            AlarmInteraction::Preset { selected } => concat3(
                "Add: ",
                alarm_preset_label(*selected),
                " (j/k choose · Enter select · Esc cancel)",
            ),
            AlarmInteraction::Custom { buffer } => concat3(
                "Custom: ",
                buffer.as_str(),
                " (5m, 2h, 1d · Enter add · Esc cancel)",
            ),
            AlarmInteraction::Edit { buffer } => concat3(
                "Edit: ",
                buffer.as_str(),
                " (5m, 2h, 1d · Enter save · Esc cancel)",
            ),
            AlarmInteraction::AbsoluteEdit { date_buffer, time_buffer, field } => {
                let start = match field {
                    AbsoluteAlarmField::Date => "Absolute date: ",
                    AbsoluteAlarmField::Time => "Absolute time: ",
                };
                let mut out = concat3(start, date_buffer.as_str(), " ");
                out.append(time_buffer.as_str());
                out.append(" (Tab field · Enter save · Esc cancel)");
                out
            },
            AlarmInteraction::AbsoluteAmbiguous { .. } =>
                "Ambiguous local time: 1 +0000 · 2 +0000 · Esc cancel".to_owned(),
        }
    }
}

/// Whether an alarm is at an offset or at an instant, and not both.
pub open spec fn is_replacement(alarm: Alarm) -> bool {
    alarm.relative_seconds is Some <==> alarm.absolute_date is None
}

/// Checks that each alarm is at an offset or at an instant, and not both.
pub fn validate_replacement_alarms(alarms: &Vec<Alarm>) -> (r: Result<(), String>)
    ensures
        r is Ok <==> forall|i: int| 0 <= i < alarms@.len() ==> is_replacement(#[trigger] alarms@[i]),
        r matches Err(error) ==> error@ == "Invalid alarm payload"@,
{
    let mut i: usize = 0;
    while i < alarms.len()
        invariant
            i <= alarms@.len(),
            forall|j: int| 0 <= j < i ==> is_replacement(#[trigger] alarms@[j]),
        decreases alarms@.len() - i,
    {
        let alarm = alarms[i];
        if alarm.relative_seconds.is_some() == alarm.absolute_date.is_some() {
            proof {
                assert(!is_replacement(alarms@[i as int]));
            }
            return Err("Invalid alarm payload".to_owned());
        }
        i += 1;
    }
    Ok(())
}

/// Whether two lists of alarms are equal.
pub fn same_alarms(a: &Vec<Alarm>, b: &Vec<Alarm>) -> (r: bool)
    ensures
        r == (a@ == b@),
{
    if a.len() != b.len() {
        return false;
    }
    let mut i: usize = 0;
    while i < a.len()
        invariant
            i <= a@.len(),
            a@.len() == b@.len(),
            forall|j: int| 0 <= j < i ==> a@[j] == b@[j],
        decreases a@.len() - i,
    {
        if a[i].relative_seconds != b[i].relative_seconds || a[i].is_editable != b[i].is_editable
            || !same_instants(a[i].absolute_date, b[i].absolute_date) {
            return false;
        }
        i += 1;
    }
    proof {
        assert(a@ =~= b@);
    }
    true
}

fn same_instants(a: Option<Timestamp>, b: Option<Timestamp>) -> (r: bool)
    ensures
        r == (a == b),
{
    match (a, b) {
        (Some(a), Some(b)) => a.nanos == b.nanos,
        (None, None) => true,
        _ => false,
    }
}

/// The alarms of a form. Alarms that the editor cannot show are protected: they can be kept, not
/// changed or copied.
#[derive(Debug, PartialEq, Eq)]
pub enum AlarmEditorState {
    NoAlarms { data: EditableAlarmData },
    EditableBasic { data: EditableAlarmData },
    ProtectedExisting,
}

/// The alarms of a form, as values of mathematics.
pub ghost enum AlarmEditorView {
    NoAlarms { data: EditableAlarmDataView },
    EditableBasic { data: EditableAlarmDataView },
    ProtectedExisting,
}

impl View for AlarmEditorState {
    type V = AlarmEditorView;

    open spec fn view(&self) -> AlarmEditorView {
        match self {
            AlarmEditorState::NoAlarms { data } => AlarmEditorView::NoAlarms { data: data@ },
            AlarmEditorState::EditableBasic { data } => AlarmEditorView::EditableBasic {
                data: data@,
            },
            AlarmEditorState::ProtectedExisting => AlarmEditorView::ProtectedExisting,
        }
    }
}

impl Clone for AlarmEditorState {
    fn clone(&self) -> (r: Self)
        ensures
            r@ == self@,
    {
        match self {
            AlarmEditorState::NoAlarms { data } => AlarmEditorState::NoAlarms {
                data: data.clone(),
            },
            AlarmEditorState::EditableBasic { data } => AlarmEditorState::EditableBasic {
                data: data.clone(),
            },
            AlarmEditorState::ProtectedExisting => AlarmEditorState::ProtectedExisting,
        }
    }
}

/// Alarms that are browsed, starting from `original`.
pub open spec fn browsing(
    original: Seq<Alarm>,
    alarms: Seq<EditableAlarm>,
) -> EditableAlarmDataView {
    EditableAlarmDataView {
        original,
        alarms,
        selected: 0,
        interaction: AlarmInteractionView::Browse,
    }
}

/// Whether each alarm can be edited.
pub open spec fn all_editable(alarms: Seq<Alarm>) -> bool {
    forall|i: int| 0 <= i < alarms.len() ==> EditableAlarm::of_alarm(#[trigger] alarms[i]) is Ok
}

/// The editable forms of alarms that all have one.
pub open spec fn editable_forms(alarms: Seq<Alarm>) -> Seq<EditableAlarm> {
    alarms.map_values(|a: Alarm| EditableAlarm::of_alarm(a)->Ok_0)
}

impl AlarmEditorView {
    /// Whether the edited alarms are well formed.
    pub open spec fn wf(self) -> bool {
        match self {
            AlarmEditorView::NoAlarms { data } => data.wf(),
            AlarmEditorView::EditableBasic { data } => data.wf(),
            AlarmEditorView::ProtectedExisting => true,
        }
    }

    /// The editor of an event's alarms.
    pub open spec fn of_existing(alarms: Seq<Alarm>) -> AlarmEditorView {
        if alarms.len() == 0 {
            AlarmEditorView::NoAlarms { data: browsing(Seq::empty(), Seq::empty()) }
        } else if all_editable(alarms) {
            AlarmEditorView::EditableBasic { data: browsing(alarms, editable_forms(alarms)) }
        } else {
            AlarmEditorView::ProtectedExisting
        }
    }

    /// The editor of an event's alarms. On an all-day event relative alarms are protected, and so
    /// are alarms at an instant unless the event's time zone is its own.
    pub open spec fn of_event(
        alarms: Seq<Alarm>,
        all_day: bool,
        provenance: TimeZoneProvenance,
    ) -> AlarmEditorView {
        let relative = exists|i: int|
            0 <= i < alarms.len() && (#[trigger] alarms[i]).relative_seconds is Some;
        let absolute = exists|i: int|
            0 <= i < alarms.len() && (#[trigger] alarms[i]).absolute_date is Some;
        if all_day && (relative || (absolute && provenance != TimeZoneProvenance::ExplicitEvent)) {
            AlarmEditorView::ProtectedExisting
        } else {
            Self::of_existing(alarms)
        }
    }

    /// How the alarms are shown.
    pub open spec fn shown(self, zone: Seq<char>) -> Seq<char> {
        match self {
            AlarmEditorView::NoAlarms { data } => data.shown(zone),
            AlarmEditorView::EditableBasic { data } => data.shown(zone),
            AlarmEditorView::ProtectedExisting => "Custom / protected alarm"@,
        }
    }

    /// The alarms after a key, and what the key did.
    pub open spec fn after_key(self, key: KeyEvent, zone: Seq<char>) -> (Self, AlarmKeyOutcome) {
        match self {
            AlarmEditorView::NoAlarms { data } => {
                let (data, outcome) = data.after_key(key, zone);
                (AlarmEditorView::NoAlarms { data }, outcome)
            },
            AlarmEditorView::EditableBasic { data } => {
                let (data, outcome) = data.after_key(key, zone);
                (AlarmEditorView::EditableBasic { data }, outcome)
            },
            AlarmEditorView::ProtectedExisting => (self, None),
        }
    }

    /// The alarms of the draft, and what an update does to the event's alarms: nothing where they
    /// are protected or as they were.
    pub open spec fn drafted(self, updating: bool) -> Result<
        (Seq<Alarm>, Option<Seq<Alarm>>),
        Seq<char>,
    > {
        match self {
            AlarmEditorView::ProtectedExisting => if updating {
                Ok((Seq::empty(), None))
            } else {
                Err("Custom / protected alarms cannot be duplicated"@)
            },
            AlarmEditorView::NoAlarms { data } => Self::drafted_data(data, updating),
            AlarmEditorView::EditableBasic { data } => Self::drafted_data(data, updating),
        }
    }

    pub open spec fn drafted_data(data: EditableAlarmDataView, updating: bool) -> Result<
        (Seq<Alarm>, Option<Seq<Alarm>>),
        Seq<char>,
    > {
        if data.interaction != AlarmInteractionView::Browse {
            Err("Finish or cancel alarm editing before saving"@)
        } else {
            match alarms_of(data.alarms) {
                Err(error) => Err(error.text()),
                Ok(alarms) => Ok(
                    (
                        alarms,
                        if updating && alarms == data.original {
                            None
                        } else {
                            Some(alarms)
                        },
                    ),
                ),
            }
        }
    }

    /// Whether there are alarms and all of them are at instants, so that an all-day event can have
    /// them edited.
    pub open spec fn only_absolute(self) -> bool {
        match self {
            AlarmEditorView::EditableBasic { data } => data.alarms.len() > 0 && forall|i: int|
                0 <= i < data.alarms.len() ==> (#[trigger] data.alarms[i]) is Absolute,
            _ => false,
        }
    }
}

impl AlarmEditorState {
    /// The alarms of a new event: one, a quarter of an hour before it.
    pub fn new_event() -> (r: Self)
        ensures
            r@ == (AlarmEditorView::EditableBasic {
                data: browsing(
                    Seq::empty(),
                    seq![EditableAlarm::Relative { relative_seconds: (-900) as i64 }],
                ),
            }),
            r@.wf(),
    {
        let mut alarms: Vec<EditableAlarm> = Vec::new();
        alarms.push(EditableAlarm::Relative { relative_seconds: -900 });
        proof {
            assert(alarms@ =~= seq![EditableAlarm::Relative { relative_seconds: (-900) as i64 }]);
        }
        AlarmEditorState::EditableBasic {
            data: EditableAlarmData {
                original: Vec::new(),
                alarms,
                selected: 0,
                interaction: AlarmInteraction::Browse,
            },
        }
    }

    /// The editor of an event's alarms.
    pub fn from_existing(alarms: &Vec<Alarm>) -> (r: Self)
        ensures
            r@ == AlarmEditorView::of_existing(alarms@),
            r@.wf(),
    {
        if alarms.len() == 0 {
            return AlarmEditorState::NoAlarms {
                data: EditableAlarmData {
                    original: Vec::new(),
                    alarms: Vec::new(),
                    selected: 0,
                    interaction: AlarmInteraction::Browse,
                },
            };
        }
        let mut entries: Vec<EditableAlarm> = Vec::new();
        let mut i: usize = 0;
        while i < alarms.len()
            invariant
                i <= alarms@.len(),
                alarms@.len() > 0,
                entries@.len() == i,
                forall|j: int|
                    0 <= j < i ==> EditableAlarm::of_alarm(#[trigger] alarms@[j]) == Ok::<
                        EditableAlarm,
                        AlarmValidationError,
                    >(entries@[j]),
            decreases alarms@.len() - i,
        {
            match EditableAlarm::from_alarm(&alarms[i]) {
                Ok(entry) => entries.push(entry),
                Err(_) => {
                    proof {
                        assert(EditableAlarm::of_alarm(alarms@[i as int]) is Err);
                    }
                    return AlarmEditorState::ProtectedExisting;
                },
            }
            i += 1;
        }
        proof {
            assert(entries@ =~= editable_forms(alarms@));
        }
        AlarmEditorState::EditableBasic {
            data: EditableAlarmData {
                original: clone_alarms(alarms),
                alarms: entries,
                selected: 0,
                interaction: AlarmInteraction::Browse,
            },
        }
    }

    /// The editor of an event's alarms, which protects more of them on an all-day event.
    pub fn from_event_alarms(
        alarms: &Vec<Alarm>,
        all_day: bool,
        provenance: TimeZoneProvenance,
    ) -> (r: Self)
        ensures
            r@ == AlarmEditorView::of_event(alarms@, all_day, provenance),
            r@.wf(),
    {
        let mut relative = false;
        let mut absolute = false;
        let mut i: usize = 0;
        while i < alarms.len()
            invariant
                i <= alarms@.len(),
                relative <==> exists|j: int|
                    0 <= j < i && (#[trigger] alarms@[j]).relative_seconds is Some,
                absolute <==> exists|j: int|
                    0 <= j < i && (#[trigger] alarms@[j]).absolute_date is Some,
            decreases alarms@.len() - i,
        {
            if alarms[i].relative_seconds.is_some() {
                relative = true;
            }
            if alarms[i].absolute_date.is_some() {
                absolute = true;
            }
            i += 1;
        }
        if all_day && (relative || (absolute && provenance != TimeZoneProvenance::ExplicitEvent)) {
            AlarmEditorState::ProtectedExisting
        } else {
            Self::from_existing(alarms)
        }
    }

    /// How the alarms are shown.
    pub fn display_in_timezone(&self, time_zone: &str) -> (r: String)
        ensures
            r@ == self@.shown(time_zone@),
    {
        match self {
            AlarmEditorState::NoAlarms { data } => data.display(time_zone),
            AlarmEditorState::EditableBasic { data } => data.display(time_zone),
            AlarmEditorState::ProtectedExisting => "Custom / protected alarm".to_owned(),
        }
    }

    /// Handles a key that is for the alarms; for any other there is no outcome, and the form keeps
    /// its own rules for it.
    pub fn handle_key(&mut self, key: KeyEvent, time_zone: &str) -> (r: Option<
        Result<bool, String>,
    >)
        requires
            old(self)@.wf(),
        ensures
            (final(self)@, outcome_view(r)) == old(self)@.after_key(key, time_zone@),
            final(self)@.wf(),
            r is None ==> *final(self) == *old(self),
    {
        match self {
            AlarmEditorState::NoAlarms { data } => data.handle_key(key, time_zone),
            AlarmEditorState::EditableBasic { data } => data.handle_key(key, time_zone),
            AlarmEditorState::ProtectedExisting => None,
        }
    }

    fn draft_data(data: &EditableAlarmData, updating: bool) -> (r: Result<
        (Vec<Alarm>, AlarmMutation),
        String,
    >)
        ensures
            match r {
                Ok(drafted) => AlarmEditorView::drafted_data(data@, updating) == Ok::<
                    (Seq<Alarm>, Option<Seq<Alarm>>),
                    Seq<char>,
                >((drafted.0@, drafted.1@)),
                Err(error) => AlarmEditorView::drafted_data(data@, updating) == Err::<
                    (Seq<Alarm>, Option<Seq<Alarm>>),
                    Seq<char>,
                >(error@),
            },
    {
        match &data.interaction {
            AlarmInteraction::Browse => {},
            _ => return Err("Finish or cancel alarm editing before saving".to_owned()),
        }
        let alarms = match data.to_alarms() {
            Ok(alarms) => alarms,
            Err(error) => return Err(error.message()),
        };
        proof {
            assert forall|i: int| 0 <= i < alarms@.len() implies is_replacement(
                #[trigger] alarms@[i],
            ) by {
                assert(data.alarms@[i].alarm() is Ok);
            }
        }
        match validate_replacement_alarms(&alarms) {
            Ok(()) => {},
            Err(error) => return Err(error),
        }
        let draft = clone_alarms(&alarms);
        if updating && same_alarms(&alarms, &data.original) {
            Ok((draft, AlarmMutation::Preserve))
        } else {
            Ok((draft, AlarmMutation::Replace(alarms)))
        }
    }

    /// The alarms of the draft, and what an update does to the event's alarms.
    pub fn draft_alarms_and_mutation(&self, updating: bool) -> (r: Result<
        (Vec<Alarm>, AlarmMutation),
        String,
    >)
        ensures
            match r {
                Ok(drafted) => self@.drafted(updating) == Ok::<
                    (Seq<Alarm>, Option<Seq<Alarm>>),
                    Seq<char>,
                >((drafted.0@, drafted.1@)),
                Err(error) => self@.drafted(updating) == Err::<
                    (Seq<Alarm>, Option<Seq<Alarm>>),
                    Seq<char>,
                >(error@),
            },
    {
        match self {
            AlarmEditorState::ProtectedExisting => {
                if updating {
                    Ok((Vec::new(), AlarmMutation::Preserve))
                } else {
                    Err("Custom / protected alarms cannot be duplicated".to_owned())
                }
            },
            AlarmEditorState::NoAlarms { data } => Self::draft_data(data, updating),
            AlarmEditorState::EditableBasic { data } => Self::draft_data(data, updating),
        }
    }

    /// Whether the alarms are protected.
    pub fn is_protected(&self) -> (r: bool)
        ensures
            r == (self@ is ProtectedExisting),
    {
        match self {
            AlarmEditorState::ProtectedExisting => true,
            _ => false,
        }
    }

    /// Whether there are alarms and all of them are at instants.
    pub fn allows_all_day_actions(&self) -> (r: bool)
        ensures
            r == self@.only_absolute(),
    {
        match self {
            AlarmEditorState::EditableBasic { data } => {
                let mut i: usize = 0;
                while i < data.alarms.len()
                    invariant
                        i <= data.alarms@.len(),
                        self@ == (AlarmEditorView::EditableBasic { data: data@ }),
                        forall|j: int| 0 <= j < i ==> (#[trigger] data.alarms@[j]) is Absolute,
                    decreases data.alarms@.len() - i,
                {
                    match data.alarms[i] {
                        EditableAlarm::Absolute { .. } => {},
                        EditableAlarm::Relative { .. } => {
                            proof {
                                assert(!(data@.alarms[i as int] is Absolute));
                            }
                            return false;
                        },
                    }
                    i += 1;
                }
                data.alarms.len() > 0
            },
            _ => false,
        }
    }
}

/// An alarm that can be edited is the same alarm after its edited form is turned back.
pub proof fn law_editable_alarm_round_trip(alarm: Alarm)
    requires
        EditableAlarm::of_alarm(alarm) is Ok,
    ensures
        EditableAlarm::of_alarm(alarm)->Ok_0.alarm() == Ok::<Alarm, AlarmValidationError>(alarm),
{
}

/// An edited alarm by whole minutes at or before the event, or at an instant, comes back from the
/// alarm that it stands for.
pub proof fn law_edited_alarm_round_trip(edited: EditableAlarm)
    requires
        edited matches EditableAlarm::Relative { relative_seconds } ==> relative_seconds <= 0
            && relative_seconds % 60 == 0,
    ensures
        edited.alarm() is Ok,
        EditableAlarm::of_alarm(edited.alarm()->Ok_0) == Ok::<EditableAlarm, AlarmValidationError>(
            edited,
        ),
{
}

/// Saving an event whose alarms were not touched keeps them, whether or not they can be edited;
/// where they can, the draft holds the same alarms.
pub proof fn law_untouched_alarms_are_preserved(
    alarms: Seq<Alarm>,
    all_day: bool,
    provenance: TimeZoneProvenance,
)
    ensures
        AlarmEditorView::of_event(alarms, all_day, provenance).drafted(true) is Ok,
        AlarmEditorView::of_event(alarms, all_day, provenance).drafted(true)->Ok_0.1 is None,
        !(AlarmEditorView::of_event(alarms, all_day, provenance) is ProtectedExisting)
            ==> AlarmEditorView::of_event(alarms, all_day, provenance).drafted(true)->Ok_0.0
            == alarms,
{
    if alarms.len() == 0 {
        assert(alarms =~= Seq::<Alarm>::empty());
        assert(alarms_of(Seq::empty())->Ok_0 =~= Seq::<Alarm>::empty());
    } else if all_editable(alarms) {
        let forms = editable_forms(alarms);
        assert forall|i: int| 0 <= i < forms.len() implies (#[trigger] forms[i]).alarm() == Ok::<
            Alarm,
            AlarmValidationError,
        >(alarms[i]) by {
            assert(EditableAlarm::of_alarm(alarms[i]) is Ok);
        }
        assert(alarms_of(forms)->Ok_0 =~= alarms);
    }
}

/// Protected alarms can be kept by an update, and nothing else: no key changes them, and an event
/// that has them cannot be duplicated.
pub proof fn law_protected_alarms_stay(key: KeyEvent, zone: Seq<char>)
    ensures
        AlarmEditorView::ProtectedExisting.after_key(key, zone) == (
            AlarmEditorView::ProtectedExisting,
            None::<Result<bool, Seq<char>>>,
        ),
        AlarmEditorView::ProtectedExisting.drafted(true) == Ok::<
            (Seq<Alarm>, Option<Seq<Alarm>>),
            Seq<char>,
        >((Seq::empty(), None)),
        AlarmEditorView::ProtectedExisting.drafted(false) is Err,
{
}

/// Escape leaves whatever was begun in the list of alarms, and the alarms as they are.
pub proof fn law_escape_keeps_alarms(data: EditableAlarmDataView, key: KeyEvent, zone: Seq<char>)
    requires
        data.wf(),
        key.code == KeyCode::Esc,
        data.interaction != AlarmInteractionView::Browse,
    ensures
        data.after_key(key, zone).0 == data.with_interaction(AlarmInteractionView::Browse),
        data.after_key(key, zone).1 == Some(Ok::<bool, Seq<char>>(false)),
{
}

/// Every key keeps the selection on an alarm and an edit on an alarm that exists.
pub proof fn law_alarm_keys_keep_the_selection(
    data: EditableAlarmDataView,
    key: KeyEvent,
    zone: Seq<char>,
)
    requires
        data.wf(),
    ensures
        data.after_key(key, zone).0.wf(),
{
    if data.alarms.len() > 0 {
        lemma_wrap(data.selected, data.alarms.len() as int);
    }
}

/// The text that an offset by whole minutes is shown as for editing reads back as the offset.
pub proof fn law_duration_text_reads_back(seconds: i64)
    requires
        seconds <= 0,
        seconds % 60 == 0,
    ensures
        typed_offset(duration_text(seconds as int)) == Ok::<i64, Seq<char>>(seconds),
{
    reveal_strlit("0m");
    reveal_strlit("m");
    reveal_strlit("h");
    reveal_strlit("d");
    reveal_strlit("none");
    let length = -(seconds as int);
    let text = duration_text(seconds as int);
    let (amount, unit, scale) = if length == 0 {
        (0int, "m"@, 60int)
    } else if length % 86_400 == 0 {
        (length / 86_400, "d"@, 86_400int)
    } else if length % 3_600 == 0 {
        (length / 3_600, "h"@, 3_600int)
    } else {
        (length / 60, "m"@, 60int)
    };
    lemma_decimal(amount as nat);
    let number = decimal(amount as nat);
    assert(text =~= number + unit);
    assert(amount * scale == length);
    assert(unit.len() == 1);
    assert(text[0] == number[0]);
    assert(text.last() == unit[0]);
    assert(text.drop_last() =~= number);
    assert(text.subrange(number.len() as int, text.len() as int) =~= unit);
    lemma_trim_tight(text);
    assert(ascii_lower(text)[0] == text[0]);
    assert(ascii_lower("none"@)[0] == 'n');
    assert forall|i: int| 0 <= i < text.len() implies #[trigger] text[i] != ',' by {
        if i < number.len() {
            assert(text[i] == number[i]);
        }
    }
    lemma_split_whole(text, ',');
    let pieces = split_at_char(text, ',');
    assert(ascii_lower(unit) =~= unit);
    assert("m"@ != "h"@ && "m"@ != "d"@ && "h"@ != "d"@) by {
        assert("m"@[0] != "h"@[0]);
        assert("m"@[0] != "d"@[0]);
        assert("h"@[0] != "d"@[0]);
    }
    assert(parsed_signed(number) == Some(amount));
    assert(unit_seconds(unit) == Some(scale));
    assert(alarm_item(text) == Ok::<Alarm, Seq<char>>(relative_alarm(-length)));
    assert(pieces.drop_last() =~= Seq::<Seq<char>>::empty());
    assert(alarm_items(pieces.drop_last()) == Ok::<Seq<Alarm>, Seq<char>>(Seq::empty()));
    assert(alarm_items(pieces) == Ok::<Seq<Alarm>, Seq<char>>(
        Seq::<Alarm>::empty().push(relative_alarm(-length)),
    ));
}

/// Opening the selected relative alarm for editing and confirming it at once leaves the alarms as
/// they are.
pub proof fn law_confirming_an_unchanged_alarm(data: EditableAlarmDataView, zone: Seq<char>, enter: KeyEvent)
    requires
        data.wf(),
        data.interaction == AlarmInteractionView::Browse,
        data.alarms.len() > 0,
        data.alarms[data.selected] matches EditableAlarm::Relative { relative_seconds }
            && relative_seconds <= 0 && relative_seconds % 60 == 0,
        enter.code == KeyCode::Enter,
    ensures
        data.after_key(enter, zone).0.after_key(enter, zone).0 == data,
{
    let seconds = data.alarms[data.selected]->relative_seconds;
    law_duration_text_reads_back(seconds);
    let edited = data.after_key(enter, zone).0;
    assert(edited.alarms.update(
        edited.selected,
        EditableAlarm::Relative { relative_seconds: seconds },
    ) =~= data.alarms);
}

} // verus!
