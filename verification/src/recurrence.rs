//! Repetition: reading and describing rules, and editing them.

use crate::model::{
    clone_rules, rule_views, RecurrenceFrequency, RecurrenceRule, RecurrenceRuleView,
};
use crate::seqs::step_round;
use crate::text::{
    ascii_lower, ascii_upper, concat2, concat3, decimal, is_white, join, joined, lemma_decimal,
    lemma_joined_without, lemma_split_append, lemma_split_joined, lemma_split_whole,
    lemma_texts_push, lemma_trim_tight, parse_unsigned, parsed_unsigned, same_ignoring_case,
    same_text, split_at_char, split_on, texts, to_ascii_lower, to_ascii_upper, to_decimal, trim,
    trimmed, unsigned_digits,
};
use crate::time::{
    format_day, formatted_day, iso_date, iso_date_text, iso_text, parse_iso_date, Date,
};
use vstd::prelude::*;
use vstd::string::StringExecFns;

verus! {

/// A day of the week.
#[derive(Clone, Copy, Debug, PartialEq, Eq, PartialOrd, Ord, Structural)]
pub enum WeekdayCursor {
    Monday,
    Tuesday,
    Wednesday,
    Thursday,
    Friday,
    Saturday,
    Sunday,
}

impl WeekdayCursor {
    /// The days since Monday.
    pub open spec fn position(self) -> int {
        match self {
            WeekdayCursor::Monday => 0,
            WeekdayCursor::Tuesday => 1,
            WeekdayCursor::Wednesday => 2,
            WeekdayCursor::Thursday => 3,
            WeekdayCursor::Friday => 4,
            WeekdayCursor::Saturday => 5,
            WeekdayCursor::Sunday => 6,
        }
    }

    /// The day that is a number of days after Monday.
    pub open spec fn at_position(position: int) -> WeekdayCursor {
        if position == 0 {
            WeekdayCursor::Monday
        } else if position == 1 {
            WeekdayCursor::Tuesday
        } else if position == 2 {
            WeekdayCursor::Wednesday
        } else if position == 3 {
            WeekdayCursor::Thursday
        } else if position == 4 {
            WeekdayCursor::Friday
        } else if position == 5 {
            WeekdayCursor::Saturday
        } else {
            WeekdayCursor::Sunday
        }
    }

    /// The days since Monday.
    pub fn index(self) -> (r: u32)
        ensures
            r == self.position(),
            r < 7,
    {
        match self {
            WeekdayCursor::Monday => 0,
            WeekdayCursor::Tuesday => 1,
            WeekdayCursor::Wednesday => 2,
            WeekdayCursor::Thursday => 3,
            WeekdayCursor::Friday => 4,
            WeekdayCursor::Saturday => 5,
            WeekdayCursor::Sunday => 6,
        }
    }

    /// The day that is a number of days after Monday.
    pub fn from_index(index: u32) -> (r: Self)
        requires
            index < 7,
        ensures
            r == Self::at_position(index as int),
            r.position() == index,
    {
        if index == 0 {
            WeekdayCursor::Monday
        } else if index == 1 {
            WeekdayCursor::Tuesday
        } else if index == 2 {
            WeekdayCursor::Wednesday
        } else if index == 3 {
            WeekdayCursor::Thursday
        } else if index == 4 {
            WeekdayCursor::Friday
        } else if index == 5 {
            WeekdayCursor::Saturday
        } else {
            WeekdayCursor::Sunday
        }
    }

    /// The two letters of the day.
    pub open spec fn letters(self) -> Seq<char> {
        match self {
            WeekdayCursor::Monday => "MO"@,
            WeekdayCursor::Tuesday => "TU"@,
            WeekdayCursor::Wednesday => "WE"@,
            WeekdayCursor::Thursday => "TH"@,
            WeekdayCursor::Friday => "FR"@,
            WeekdayCursor::Saturday => "SA"@,
            WeekdayCursor::Sunday => "SU"@,
        }
    }

    /// The two letters of the day.
    pub fn code(self) -> (r: &'static str)
        ensures
            r@ == self.letters(),
    {
        match self {
            WeekdayCursor::Monday => "MO",
            WeekdayCursor::Tuesday => "TU",
            WeekdayCursor::Wednesday => "WE",
            WeekdayCursor::Thursday => "TH",
            WeekdayCursor::Friday => "FR",
            WeekdayCursor::Saturday => "SA",
            WeekdayCursor::Sunday => "SU",
        }
    }

    /// The day that two letters stand for.
    pub open spec fn of_letters(value: Seq<char>) -> Option<WeekdayCursor> {
        if value == "MO"@ {
            Some(WeekdayCursor::Monday)
        } else if value == "TU"@ {
            Some(WeekdayCursor::Tuesday)
        } else if value == "WE"@ {
            Some(WeekdayCursor::Wednesday)
        } else if value == "TH"@ {
            Some(WeekdayCursor::Thursday)
        } else if value == "FR"@ {
            Some(WeekdayCursor::Friday)
        } else if value == "SA"@ {
            Some(WeekdayCursor::Saturday)
        } else if value == "SU"@ {
            Some(WeekdayCursor::Sunday)
        } else {
            None
        }
    }

    /// The day that two letters stand for.
    pub fn from_code(value: &str) -> (r: Option<Self>)
        ensures
            r == Self::of_letters(value@),
    {
        if same_text(value, "MO") {
            Some(WeekdayCursor::Monday)
        } else if same_text(value, "TU") {
            Some(WeekdayCursor::Tuesday)
        } else if same_text(value, "WE") {
            Some(WeekdayCursor::Wednesday)
        } else if same_text(value, "TH") {
            Some(WeekdayCursor::Thursday)
        } else if same_text(value, "FR") {
            Some(WeekdayCursor::Friday)
        } else if same_text(value, "SA") {
            Some(WeekdayCursor::Saturday)
        } else if same_text(value, "SU") {
            Some(WeekdayCursor::Sunday)
        } else {
            None
        }
    }

    /// The day `direction` days on, round the week.
    pub open spec fn moved(self, direction: int) -> WeekdayCursor {
        Self::at_position((self.position() + direction) % 7)
    }

    /// The day `direction` days on, round the week.
    pub fn move_by(self, direction: i32) -> (r: Self)
        ensures
            r == self.moved(direction as int),
    {
        Self::from_index(step_round(self.index(), direction, 7))
    }
}

/// The days of the week that are chosen.
#[derive(Clone, Copy, Debug, PartialEq, Eq, Structural)]
pub struct WeekdaySet {
    pub monday: bool,
    pub tuesday: bool,
    pub wednesday: bool,
    pub thursday: bool,
    pub friday: bool,
    pub saturday: bool,
    pub sunday: bool,
}

impl WeekdaySet {
    /// Whether a day is chosen.
    pub open spec fn holds(self, day: WeekdayCursor) -> bool {
        match day {
            WeekdayCursor::Monday => self.monday,
            WeekdayCursor::Tuesday => self.tuesday,
            WeekdayCursor::Wednesday => self.wednesday,
            WeekdayCursor::Thursday => self.thursday,
            WeekdayCursor::Friday => self.friday,
            WeekdayCursor::Saturday => self.saturday,
            WeekdayCursor::Sunday => self.sunday,
        }
    }

    /// No day chosen.
    pub open spec fn none() -> WeekdaySet {
        WeekdaySet {
            monday: false,
            tuesday: false,
            wednesday: false,
            thursday: false,
            friday: false,
            saturday: false,
            sunday: false,
        }
    }

    /// No day chosen.
    pub fn new() -> (r: Self)
        ensures
            r == Self::none(),
            forall|day: WeekdayCursor| !r.holds(day),
    {
        WeekdaySet {
            monday: false,
            tuesday: false,
            wednesday: false,
            thursday: false,
            friday: false,
            saturday: false,
            sunday: false,
        }
    }

    /// Whether a day is chosen.
    pub fn contains(&self, day: WeekdayCursor) -> (r: bool)
        ensures
            r == self.holds(day),
    {
        match day {
            WeekdayCursor::Monday => self.monday,
            WeekdayCursor::Tuesday => self.tuesday,
            WeekdayCursor::Wednesday => self.wednesday,
            WeekdayCursor::Thursday => self.thursday,
            WeekdayCursor::Friday => self.friday,
            WeekdayCursor::Saturday => self.saturday,
            WeekdayCursor::Sunday => self.sunday,
        }
    }

    /// The same days, with `day` chosen or not.
    pub open spec fn with(self, day: WeekdayCursor, chosen: bool) -> WeekdaySet {
        match day {
            WeekdayCursor::Monday => WeekdaySet { monday: chosen, ..self },
            WeekdayCursor::Tuesday => WeekdaySet { tuesday: chosen, ..self },
            WeekdayCursor::Wednesday => WeekdaySet { wednesday: chosen, ..self },
            WeekdayCursor::Thursday => WeekdaySet { thursday: chosen, ..self },
            WeekdayCursor::Friday => WeekdaySet { friday: chosen, ..self },
            WeekdayCursor::Saturday => WeekdaySet { saturday: chosen, ..self },
            WeekdayCursor::Sunday => WeekdaySet { sunday: chosen, ..self },
        }
    }

    /// Chooses a day, or not.
    pub fn set(&mut self, day: WeekdayCursor, chosen: bool)
        ensures
            *final(self) == old(self).with(day, chosen),
    {
        match day {
            WeekdayCursor::Monday => self.monday = chosen,
            WeekdayCursor::Tuesday => self.tuesday = chosen,
            WeekdayCursor::Wednesday => self.wednesday = chosen,
            WeekdayCursor::Thursday => self.thursday = chosen,
            WeekdayCursor::Friday => self.friday = chosen,
            WeekdayCursor::Saturday => self.saturday = chosen,
            WeekdayCursor::Sunday => self.sunday = chosen,
        }
    }

    /// The letters of the chosen days before a position of the week, in the week's order.
    pub open spec fn letters_before(self, position: int) -> Seq<Seq<char>>
        decreases position,
    {
        if position <= 0 {
            Seq::empty()
        } else {
            let day = WeekdayCursor::at_position(position - 1);
            if self.holds(day) {
                self.letters_before(position - 1).push(day.letters())
            } else {
                self.letters_before(position - 1)
            }
        }
    }

    /// The letters of the chosen days, in the week's order.
    pub open spec fn letters(self) -> Seq<Seq<char>> {
        self.letters_before(7)
    }

    /// The letters of the chosen days, in the week's order.
    pub fn codes(&self) -> (r: Vec<String>)
        ensures
            texts(r@) == self.letters(),
    {
        let mut out: Vec<String> = Vec::new();
        let mut i: u32 = 0;
        proof {
            assert(texts(out@) =~= self.letters_before(0));
        }
        while i < 7
            invariant
                i <= 7,
                texts(out@) == self.letters_before(i as int),
            decreases 7 - i,
        {
            let day = WeekdayCursor::from_index(i);
            if self.contains(day) {
                let code = day.code().to_owned();
                proof {
                    lemma_texts_push(out@, code);
                }
                out.push(code);
            }
            i += 1;
        }
        out
    }

    /// The first chosen day at or after a position of the week.
    pub open spec fn first_from(self, position: int) -> Option<WeekdayCursor>
        decreases 7 - position,
    {
        if position >= 7 {
            None
        } else if self.holds(WeekdayCursor::at_position(position)) {
            Some(WeekdayCursor::at_position(position))
        } else {
            self.first_from(position + 1)
        }
    }

    /// The first chosen day of the week.
    pub fn first(&self) -> (r: Option<WeekdayCursor>)
        ensures
            r == self.first_from(0),
    {
        let mut i: u32 = 0;
        while i < 7
            invariant
                i <= 7,
                self.first_from(0) == self.first_from(i as int),
            decreases 7 - i,
        {
            let day = WeekdayCursor::from_index(i);
            if self.contains(day) {
                return Some(day);
            }
            i += 1;
        }
        None
    }

    /// The days that a list of letters names.
    pub open spec fn of_codes(codes: Seq<Seq<char>>) -> WeekdaySet
        decreases codes.len(),
    {
        if codes.len() == 0 {
            Self::none()
        } else {
            let days = Self::of_codes(codes.drop_last());
            match WeekdayCursor::of_letters(codes.last()) {
                Some(day) => days.with(day, true),
                None => days,
            }
        }
    }

    /// The days that a list of letters names.
    pub fn from_codes(codes: &Vec<String>) -> (r: Self)
        ensures
            r == Self::of_codes(texts(codes@)),
    {
        let mut days = WeekdaySet::new();
        let mut i: usize = 0;
        let ghost all = texts(codes@);
        proof {
            assert(all.take(0) =~= Seq::<Seq<char>>::empty());
        }
        while i < codes.len()
            invariant
                i <= codes@.len(),
                all == texts(codes@),
                days == Self::of_codes(all.take(i as int)),
            decreases codes@.len() - i,
        {
            proof {
                assert(all.take(i + 1).drop_last() =~= all.take(i as int));
                assert(all.take(i + 1).last() == codes@[i as int]@);
            }
            match WeekdayCursor::from_code(codes[i].as_str()) {
                Some(day) => days.set(day, true),
                None => {},
            }
            i += 1;
        }
        proof {
            assert(all.take(i as int) =~= all);
        }
        days
    }
}

/// The unit of repetition that a word names.
pub open spec fn frequency_of(word: Seq<char>) -> Option<RecurrenceFrequency> {
    if ascii_lower(word) == "daily"@ {
        Some(RecurrenceFrequency::Daily)
    } else if ascii_lower(word) == "weekly"@ {
        Some(RecurrenceFrequency::Weekly)
    } else if ascii_lower(word) == "monthly"@ {
        Some(RecurrenceFrequency::Monthly)
    } else if ascii_lower(word) == "yearly"@ {
        Some(RecurrenceFrequency::Yearly)
    } else {
        None
    }
}

fn parse_frequency(word: &str) -> (r: Option<RecurrenceFrequency>)
    ensures
        r == frequency_of(word@),
{
    let lower = to_ascii_lower(word);
    if same_text(lower.as_str(), "daily") {
        Some(RecurrenceFrequency::Daily)
    } else if same_text(lower.as_str(), "weekly") {
        Some(RecurrenceFrequency::Weekly)
    } else if same_text(lower.as_str(), "monthly") {
        Some(RecurrenceFrequency::Monthly)
    } else if same_text(lower.as_str(), "yearly") {
        Some(RecurrenceFrequency::Yearly)
    } else {
        None
    }
}

/// The letters that a list of days names, in upper case; empty items are left out.
pub open spec fn listed_days(items: Seq<Seq<char>>) -> Seq<Seq<char>>
    decreases items.len(),
{
    if items.len() == 0 {
        Seq::empty()
    } else if items.last().len() == 0 {
        listed_days(items.drop_last())
    } else {
        listed_days(items.drop_last()).push(ascii_upper(items.last()))
    }
}

/// The rules that a text writes: none for a blank text and `none`; else one, as a unit, an
/// interval and days, separated by colons; or what is wrong with the text.
pub open spec fn written_rules(text: Seq<char>) -> Result<Seq<RecurrenceRuleView>, Seq<char>> {
    let whole = trimmed(text);
    let parts = split_at_char(whole, ':');
    if whole.len() == 0 || ascii_lower(whole) == ascii_lower("none"@) {
        Ok(Seq::empty())
    } else {
        match frequency_of(parts[0]) {
            None => Err("Repeat must be none, daily, weekly, monthly, or yearly"@),
            Some(frequency) => {
                let interval = if parts.len() > 1 && parts[1].len() > 0 {
                    parsed_unsigned(parts[1], u32::MAX as int)
                } else {
                    Some(1int)
                };
                match interval {
                    None => Err("Repeat interval must be a number"@),
                    Some(interval) => if interval == 0 {
                        Err("Repeat interval must be at least 1"@)
                    } else {
                        Ok(
                            seq![
                                RecurrenceRuleView {
                                    frequency,
                                    interval: interval as u32,
                                    days_of_week: if parts.len() > 2 {
                                        listed_days(split_at_char(parts[2], ','))
                                    } else {
                                        Seq::empty()
                                    },
                                    occurrence_count: None,
                                    end_date: None,
                                },
                            ],
                        )
                    },
                }
            },
        }
    }
}

/// A list of rules, or what is wrong.
pub open spec fn rules_view(r: Result<Vec<RecurrenceRule>, String>) -> Result<
    Seq<RecurrenceRuleView>,
    Seq<char>,
> {
    match r {
        Ok(rules) => Ok(rule_views(rules@)),
        Err(error) => Err(error@),
    }
}

fn parse_days(days: &str) -> (r: Vec<String>)
    ensures
        texts(r@) == listed_days(split_at_char(days@, ',')),
{
    let items = split_on(days, ',');
    let ghost all = texts(items@);
    let mut out: Vec<String> = Vec::new();
    let mut i: usize = 0;
    proof {
        assert(all.take(0) =~= Seq::<Seq<char>>::empty());
        assert(texts(out@) =~= Seq::<Seq<char>>::empty());
    }
    while i < items.len()
        invariant
            i <= items@.len(),
            all == texts(items@),
            texts(out@) == listed_days(all.take(i as int)),
        decreases items@.len() - i,
    {
        proof {
            assert(all.take(i + 1).drop_last() =~= all.take(i as int));
            assert(all.take(i + 1).last() == items@[i as int]@);
        }
        if !items[i].as_str().is_empty() {
            let day = to_ascii_upper(items[i].as_str());
            proof {
                lemma_texts_push(out@, day);
            }
            out.push(day);
        }
        i += 1;
    }
    proof {
        assert(all.take(i as int) =~= all);
    }
    out
}

/// Reads the rules that a text writes.
pub fn parse_recurrence(text: &str) -> (r: Result<Vec<RecurrenceRule>, String>)
    ensures
        rules_view(r) == written_rules(text@),
{
    let whole = trim(text);
    if whole.as_str().is_empty() || same_ignoring_case(whole.as_str(), "none") {
        let none: Vec<RecurrenceRule> = Vec::new();
        proof {
            assert(rule_views(none@) =~= Seq::<RecurrenceRuleView>::empty());
        }
        return Ok(none);
    }
    let parts = split_on(whole.as_str(), ':');
    let ghost all = texts(parts@);
    let frequency = match parse_frequency(parts[0].as_str()) {
        Some(frequency) => frequency,
        None => return Err("Repeat must be none, daily, weekly, monthly, or yearly".to_owned()),
    };
    proof {
        assert(all[0] == parts@[0]@);
        if parts@.len() > 1 {
            assert(all[1] == parts@[1]@);
        }
        if parts@.len() > 2 {
            assert(all[2] == parts@[2]@);
        }
    }
    let interval: u64 = if parts.len() > 1 && !parts[1].as_str().is_empty() {
        match parse_unsigned(parts[1].as_str(), u32::MAX as u64) {
            Some(interval) => interval,
            None => return Err("Repeat interval must be a number".to_owned()),
        }
    } else {
        1
    };
    if interval == 0 {
        return Err("Repeat interval must be at least 1".to_owned());
    }
    let days_of_week = if parts.len() > 2 {
        parse_days(parts[2].as_str())
    } else {
        let none: Vec<String> = Vec::new();
        proof {
            assert(texts(none@) =~= Seq::<Seq<char>>::empty());
        }
        none
    };
    let rule = RecurrenceRule {
        frequency,
        interval: interval as u32,
        days_of_week,
        occurrence_count: None,
        end_date: None,
    };
    let mut rules: Vec<RecurrenceRule> = Vec::new();
    rules.push(rule);
    proof {
        assert(rule_views(rules@) =~= seq![rule@]);
    }
    Ok(rules)
}

/// The name of the day that letters stand for; other letters stand for themselves.
pub open spec fn day_name(code: Seq<char>) -> Seq<char> {
    if code == "MO"@ {
        "Monday"@
    } else if code == "TU"@ {
        "Tuesday"@
    } else if code == "WE"@ {
        "Wednesday"@
    } else if code == "TH"@ {
        "Thursday"@
    } else if code == "FR"@ {
        "Friday"@
    } else if code == "SA"@ {
        "Saturday"@
    } else if code == "SU"@ {
        "Sunday"@
    } else {
        code
    }
}

fn day_name_text(code: &str) -> (r: String)
    ensures
        r@ == day_name(code@),
{
    if same_text(code, "MO") {
        "Monday".to_owned()
    } else if same_text(code, "TU") {
        "Tuesday".to_owned()
    } else if same_text(code, "WE") {
        "Wednesday".to_owned()
    } else if same_text(code, "TH") {
        "Thursday".to_owned()
    } else if same_text(code, "FR") {
        "Friday".to_owned()
    } else if same_text(code, "SA") {
        "Saturday".to_owned()
    } else if same_text(code, "SU") {
        "Sunday".to_owned()
    } else {
        code.to_owned()
    }
}

/// The name of a unit of repetition.
pub open spec fn unit_name(frequency: RecurrenceFrequency) -> Seq<char> {
    match frequency {
        RecurrenceFrequency::Daily => "day"@,
        RecurrenceFrequency::Weekly => "week"@,
        RecurrenceFrequency::Monthly => "month"@,
        RecurrenceFrequency::Yearly => "year"@,
    }
}

/// How often a rule repeats, in words.
pub open spec fn every_text(frequency: RecurrenceFrequency, interval: int) -> Seq<char> {
    if interval <= 1 {
        "Repeats every "@ + unit_name(frequency)
    } else {
        "Repeats every "@ + decimal(interval as nat) + " "@ + unit_name(frequency) + "s"@
    }
}

/// The names of days.
pub open spec fn day_names(codes: Seq<Seq<char>>) -> Seq<Seq<char>> {
    codes.map_values(|code: Seq<char>| day_name(code))
}

/// What the first of the rules says, in words. The days are named for weekly rules alone.
pub open spec fn description(rules: Seq<RecurrenceRuleView>) -> Seq<char> {
    if rules.len() == 0 {
        "Does not repeat"@
    } else {
        let rule = rules[0];
        let every = every_text(rule.frequency, rule.interval as int);
        if rule.frequency == RecurrenceFrequency::Weekly && rule.days_of_week.len() > 0 {
            every + " on "@ + joined(day_names(rule.days_of_week), ", "@)
        } else {
            every
        }
    }
}

/// What one rule says, in words.
pub fn describe_rule(rule: &RecurrenceRule) -> (r: String)
    ensures
        r@ == description(seq![rule@]),
{
    let unit = match rule.frequency {
        RecurrenceFrequency::Daily => "day",
        RecurrenceFrequency::Weekly => "week",
        RecurrenceFrequency::Monthly => "month",
        RecurrenceFrequency::Yearly => "year",
    };
    let mut out = "Repeats every ".to_owned();
    if rule.interval <= 1 {
        out.append(unit);
    } else {
        out.append(to_decimal(rule.interval as u64).as_str());
        out.append(" ");
        out.append(unit);
        out.append("s");
    }
    proof {
        assert(out@ =~= every_text(rule.frequency, rule.interval as int));
        assert(texts(rule.days_of_week@).len() == rule.days_of_week@.len());
    }
    if rule.frequency == RecurrenceFrequency::Weekly && rule.days_of_week.len() > 0 {
        let mut names: Vec<String> = Vec::new();
        let mut i: usize = 0;
        let ghost all = day_names(texts(rule.days_of_week@));
        proof {
            assert(texts(names@) =~= all.take(0));
        }
        while i < rule.days_of_week.len()
            invariant
                i <= rule.days_of_week@.len(),
                all == day_names(texts(rule.days_of_week@)),
                texts(names@) == all.take(i as int),
            decreases rule.days_of_week@.len() - i,
        {
            let name = day_name_text(rule.days_of_week[i].as_str());
            proof {
                lemma_texts_push(names@, name);
                assert(all.take(i + 1) =~= all.take(i as int).push(name@));
            }
            names.push(name);
            i += 1;
        }
        proof {
            assert(all.take(i as int) =~= all);
        }
        out.append(" on ");
        out.append(join(&names, ", ").as_str());
    }
    out
}

/// What the first of the rules says, in words.
pub fn humanize_recurrence(rules: &Vec<RecurrenceRule>) -> (r: String)
    ensures
        r@ == description(rule_views(rules@)),
{
    if rules.len() == 0 {
        return "Does not repeat".to_owned();
    }
    describe_rule(&rules[0])
}

/// The word for a unit of repetition.
pub open spec fn frequency_word(frequency: RecurrenceFrequency) -> Seq<char> {
    match frequency {
        RecurrenceFrequency::Daily => "daily"@,
        RecurrenceFrequency::Weekly => "weekly"@,
        RecurrenceFrequency::Monthly => "monthly"@,
        RecurrenceFrequency::Yearly => "yearly"@,
    }
}

/// The first of the rules, as a unit, an interval and days, separated by colons.
pub open spec fn rules_text(rules: Seq<RecurrenceRuleView>) -> Seq<char> {
    if rules.len() == 0 {
        "none"@
    } else {
        let rule = rules[0];
        let start = frequency_word(rule.frequency) + ":"@ + decimal(rule.interval as nat);
        if rule.days_of_week.len() == 0 {
            start
        } else {
            start + ":"@ + joined(rule.days_of_week, ","@)
        }
    }
}

/// The first of the rules, as a unit, an interval and days, separated by colons.
pub fn format_recurrence(rules: &Vec<RecurrenceRule>) -> (r: String)
    ensures
        r@ == rules_text(rule_views(rules@)),
{
    if rules.len() == 0 {
        return "none".to_owned();
    }
    let rule = &rules[0];
    let word = match rule.frequency {
        RecurrenceFrequency::Daily => "daily",
        RecurrenceFrequency::Weekly => "weekly",
        RecurrenceFrequency::Monthly => "monthly",
        RecurrenceFrequency::Yearly => "yearly",
    };
    let mut out = concat3(word, ":", to_decimal(rule.interval as u64).as_str());
    proof {
        assert(texts(rule.days_of_week@).len() == rule.days_of_week@.len());
    }
    if rule.days_of_week.len() > 0 {
        out.append(":");
        out.append(join(&rule.days_of_week, ",").as_str());
    }
    out
}

#[derive(Clone, Copy, Debug, PartialEq, Eq, Structural)]
pub enum RecurrenceEndMode {
    Never,
    OnDate,
    AfterOccurrences,
    InvalidExisting,
}

#[derive(Clone, Copy, Debug, PartialEq, Eq, Structural)]
pub enum RecurrenceValidationError {
    InvalidInterval,
    MissingWeeklyDay,
    InvalidEndDate,
    EndDateBeforeStart,
    InvalidOccurrenceCount,
    InvalidExistingEndCondition,
}

impl RecurrenceValidationError {
    /// What the error says.
    pub open spec fn text(self) -> Seq<char> {
        match self {
            RecurrenceValidationError::InvalidInterval => "Repeat interval must be at least 1"@,
            RecurrenceValidationError::MissingWeeklyDay =>
                "Select at least one weekday for weekly repeats"@,
            RecurrenceValidationError::InvalidEndDate => "Repeat end date must use YYYY-MM-DD"@,
            RecurrenceValidationError::EndDateBeforeStart =>
                "Repeat end date must be on or after the event start date"@,
            RecurrenceValidationError::InvalidOccurrenceCount =>
                "Repeat occurrence count must be a positive integer"@,
            RecurrenceValidationError::InvalidExistingEndCondition =>
                "Resolve the existing recurrence end condition before saving"@,
        }
    }

    /// What the error says.
    pub fn message(self) -> (r: String)
        ensures
            r@ == self.text(),
    {
        match self {
            RecurrenceValidationError::InvalidInterval =>
                "Repeat interval must be at least 1".to_owned(),
            RecurrenceValidationError::MissingWeeklyDay =>
                "Select at least one weekday for weekly repeats".to_owned(),
            RecurrenceValidationError::InvalidEndDate =>
                "Repeat end date must use YYYY-MM-DD".to_owned(),
            RecurrenceValidationError::EndDateBeforeStart =>
                "Repeat end date must be on or after the event start date".to_owned(),
            RecurrenceValidationError::InvalidOccurrenceCount =>
                "Repeat occurrence count must be a positive integer".to_owned(),
            RecurrenceValidationError::InvalidExistingEndCondition =>
                "Resolve the existing recurrence end condition before saving".to_owned(),
        }
    }
}

/// A rule under edit. The end that is typed is kept beside the rule and enters it on saving.
#[derive(Debug, PartialEq, Eq)]
pub struct RecurrenceEditorData {
    pub rule: RecurrenceRule,
    pub end_mode: RecurrenceEndMode,
    pub end_date_buffer: String,
    /// The date that the buffer holds, where it is a valid end.
    pub validated_end_date: Option<Date>,
    pub occurrence_count_buffer: String,
    /// The number that the buffer holds, where it is a valid count.
    pub validated_occurrence_count: Option<u32>,
}

/// A rule under edit, as values of mathematics.
#[verifier::ext_equal]
pub ghost struct RecurrenceEditorDataView {
    pub rule: RecurrenceRuleView,
    pub end_mode: RecurrenceEndMode,
    pub end_date_buffer: Seq<char>,
    pub validated_end_date: Option<Date>,
    pub occurrence_count_buffer: Seq<char>,
    pub validated_occurrence_count: Option<u32>,
}

impl View for RecurrenceEditorData {
    type V = RecurrenceEditorDataView;

    open spec fn view(&self) -> RecurrenceEditorDataView {
        RecurrenceEditorDataView {
            rule: self.rule@,
            end_mode: self.end_mode,
            end_date_buffer: self.end_date_buffer@,
            validated_end_date: self.validated_end_date,
            occurrence_count_buffer: self.occurrence_count_buffer@,
            validated_occurrence_count: self.validated_occurrence_count,
        }
    }
}

impl Clone for RecurrenceEditorData {
    fn clone(&self) -> (r: Self)
        ensures
            r@ == self@,
    {
        RecurrenceEditorData {
            rule: self.rule.clone(),
            end_mode: self.end_mode,
            end_date_buffer: self.end_date_buffer.clone(),
            validated_end_date: self.validated_end_date,
            occurrence_count_buffer: self.occurrence_count_buffer.clone(),
            validated_occurrence_count: self.validated_occurrence_count,
        }
    }
}

/// Nothing, or what is held where it is at least one.
pub open spec fn positive(count: Option<u32>) -> Option<u32> {
    match count {
        Some(count) => if count > 0 {
            Some(count)
        } else {
            None
        },
        None => None,
    }
}

/// The number that a text writes, where it is at least one and fits.
pub open spec fn typed_count(text: Seq<char>) -> Option<u32> {
    match parsed_unsigned(text, u32::MAX as int) {
        Some(count) => if count > 0 {
            Some(count as u32)
        } else {
            None
        },
        None => None,
    }
}

fn parse_count(text: &str) -> (r: Option<u32>)
    ensures
        r == typed_count(text@),
{
    match parse_unsigned(text, u32::MAX as u64) {
        Some(count) => if count > 0 {
            Some(count as u32)
        } else {
            None
        },
        None => None,
    }
}

/// Reads the date on which a repetition ends.
pub fn parse_recurrence_end_date(text: &str) -> (r: Result<Date, String>)
    ensures
        match r {
            Ok(date) => iso_date(trimmed(text@)) == Some(date) && date.valid(),
            Err(error) => iso_date(trimmed(text@)) is None && error@
                == "Repeat end date must use YYYY-MM-DD"@,
        },
{
    match parse_iso_date(trim(text).as_str()) {
        Some(date) => Ok(date),
        None => Err("Repeat end date must use YYYY-MM-DD".to_owned()),
    }
}

impl RecurrenceEditorDataView {
    /// The editor of a rule: its end in the mode that the rule has, and as text.
    pub open spec fn of_rule(rule: RecurrenceRuleView) -> RecurrenceEditorDataView {
        RecurrenceEditorDataView {
            rule,
            end_mode: match (rule.end_date, rule.occurrence_count) {
                (None, None) => RecurrenceEndMode::Never,
                (Some(_), None) => RecurrenceEndMode::OnDate,
                (None, Some(_)) => RecurrenceEndMode::AfterOccurrences,
                (Some(_), Some(_)) => RecurrenceEndMode::InvalidExisting,
            },
            end_date_buffer: match rule.end_date {
                Some(date) => iso_text(date.utc_day()),
                None => Seq::empty(),
            },
            validated_end_date: match rule.end_date {
                Some(date) => Some(date.utc_day()),
                None => None,
            },
            occurrence_count_buffer: match rule.occurrence_count {
                Some(count) => decimal(count as nat),
                None => Seq::empty(),
            },
            validated_occurrence_count: positive(rule.occurrence_count),
        }
    }

    /// The rule that saving makes, with the end that was typed in the mode that was chosen; or why
    /// there is none.
    pub open spec fn saved(self, event_start: Date) -> Result<
        RecurrenceRuleView,
        RecurrenceValidationError,
    > {
        if self.rule.interval == 0 {
            Err(RecurrenceValidationError::InvalidInterval)
        } else if self.rule.frequency == RecurrenceFrequency::Weekly && self.rule.days_of_week.len()
            == 0 {
            Err(RecurrenceValidationError::MissingWeeklyDay)
        } else {
            match self.end_mode {
                RecurrenceEndMode::Never => Ok(
                    RecurrenceRuleView { end_date: None, occurrence_count: None, ..self.rule },
                ),
                RecurrenceEndMode::OnDate => match iso_date(trimmed(self.end_date_buffer)) {
                    None => Err(RecurrenceValidationError::InvalidEndDate),
                    Some(date) => if date.day < event_start.day {
                        Err(RecurrenceValidationError::EndDateBeforeStart)
                    } else {
                        Ok(
                            RecurrenceRuleView {
                                end_date: Some(date.midnight()),
                                occurrence_count: None,
                                ..self.rule
                            },
                        )
                    },
                },
                RecurrenceEndMode::AfterOccurrences => match typed_count(
                    self.occurrence_count_buffer,
                ) {
                    None => Err(RecurrenceValidationError::InvalidOccurrenceCount),
                    Some(count) => Ok(
                        RecurrenceRuleView {
                            end_date: None,
                            occurrence_count: Some(count),
                            ..self.rule
                        },
                    ),
                },
                RecurrenceEndMode::InvalidExisting => Err(
                    RecurrenceValidationError::InvalidExistingEndCondition,
                ),
            }
        }
    }

    /// The number of an end mode in the order in which modes are stepped through. An end that is
    /// both a date and a count stands so that the first step leaves it.
    pub open spec fn mode_position(self, direction: int) -> int {
        match self.end_mode {
            RecurrenceEndMode::Never => 0,
            RecurrenceEndMode::OnDate => 1,
            RecurrenceEndMode::AfterOccurrences => 2,
            RecurrenceEndMode::InvalidExisting => if direction < 0 {
                0
            } else {
                2
            },
        }
    }

    /// The same edit with the end mode `direction` steps on.
    pub open spec fn with_next_end_mode(self, direction: int) -> RecurrenceEditorDataView {
        let position = (self.mode_position(direction) + direction) % 3;
        RecurrenceEditorDataView {
            end_mode: if position == 0 {
                RecurrenceEndMode::Never
            } else if position == 1 {
                RecurrenceEndMode::OnDate
            } else {
                RecurrenceEndMode::AfterOccurrences
            },
            ..self
        }
    }

    /// The same edit with the typed date read anew.
    pub open spec fn with_end_date_read(self, event_start: Date) -> RecurrenceEditorDataView {
        RecurrenceEditorDataView {
            validated_end_date: if self.end_mode == RecurrenceEndMode::OnDate {
                match iso_date(trimmed(self.end_date_buffer)) {
                    Some(date) => if date.day >= event_start.day {
                        Some(date)
                    } else {
                        None
                    },
                    None => None,
                }
            } else {
                None
            },
            ..self
        }
    }

    /// The same edit with the typed count read anew.
    pub open spec fn with_count_read(self) -> RecurrenceEditorDataView {
        RecurrenceEditorDataView {
            validated_occurrence_count: if self.end_mode == RecurrenceEndMode::AfterOccurrences {
                typed_count(trimmed(self.occurrence_count_buffer))
            } else {
                None
            },
            ..self
        }
    }
}

/// Whether a rule can be edited and saved unchanged for an event that starts on `start`: it has an
/// interval, days where it is weekly, and at most one end, which is a positive count or the midnight
/// of a day on or after `start`.
pub open spec fn is_settled(rule: RecurrenceRuleView, start: Date) -> bool {
    &&& rule.interval > 0
    &&& rule.frequency == RecurrenceFrequency::Weekly ==> rule.days_of_week.len() > 0
    &&& rule.end_date is None || rule.occurrence_count is None
    &&& rule.occurrence_count matches Some(count) ==> count > 0
    &&& rule.end_date matches Some(end) ==> end == end.utc_day().midnight() && start.day
        <= end.utc_day().day
}

proof fn lemma_count_reads_back(count: u32)
    requires
        count > 0,
    ensures
        typed_count(decimal(count as nat)) == Some(count),
{
    lemma_decimal(count as nat);
    let s = decimal(count as nat);
    assert(s[0] != '+');
}

impl RecurrenceEditorData {
    /// The editor of a rule. Saving it untouched gives the rule back.
    pub fn from_rule(rule: RecurrenceRule) -> (r: Self)
        ensures
            r@ == RecurrenceEditorDataView::of_rule(rule@),
            forall|start: Date| #[trigger]
                is_settled(rule@, start) ==> r@.saved(start) == Ok::<
                    RecurrenceRuleView,
                    RecurrenceValidationError,
                >(rule@),
    {
        proof {
            if rule.occurrence_count matches Some(count) && count > 0 {
                lemma_count_reads_back(rule.occurrence_count->0);
            }
        }
        let end_mode = match (rule.end_date, rule.occurrence_count) {
            (None, None) => RecurrenceEndMode::Never,
            (Some(_), None) => RecurrenceEndMode::OnDate,
            (None, Some(_)) => RecurrenceEndMode::AfterOccurrences,
            (Some(_), Some(_)) => RecurrenceEndMode::InvalidExisting,
        };
        let (end_date_buffer, validated_end_date) = match rule.end_date {
            Some(date) => {
                let day = date.utc_date();
                (iso_date_text(day), Some(day))
            },
            None => (String::new(), None),
        };
        let (occurrence_count_buffer, validated_occurrence_count) = match rule.occurrence_count {
            Some(count) => {
                let validated: Option<u32> = if count > 0 {
                    Some(count)
                } else {
                    None
                };
                (to_decimal(count as u64), validated)
            },
            None => (String::new(), None),
        };
        RecurrenceEditorData {
            rule,
            end_mode,
            end_date_buffer,
            validated_end_date,
            occurrence_count_buffer,
            validated_occurrence_count,
        }
    }

    /// The rule that saving makes, or why there is none.
    pub fn to_rule(&self, event_start: Date) -> (r: Result<
        RecurrenceRule,
        RecurrenceValidationError,
    >)
        ensures
            match r {
                Ok(rule) => self@.saved(event_start) == Ok::<
                    RecurrenceRuleView,
                    RecurrenceValidationError,
                >(rule@),
                Err(error) => self@.saved(event_start) == Err::<
                    RecurrenceRuleView,
                    RecurrenceValidationError,
                >(error),
            },
    {
        if self.rule.interval == 0 {
            return Err(RecurrenceValidationError::InvalidInterval);
        }
        proof {
            assert(texts(self.rule.days_of_week@).len() == self.rule.days_of_week@.len());
        }
        if self.rule.frequency == RecurrenceFrequency::Weekly && self.rule.days_of_week.len() == 0 {
            return Err(RecurrenceValidationError::MissingWeeklyDay);
        }
        let mut rule = self.rule.clone();
        match self.end_mode {
            RecurrenceEndMode::Never => {
                rule.end_date = None;
                rule.occurrence_count = None;
            },
            RecurrenceEndMode::OnDate => {
                let date = match parse_recurrence_end_date(self.end_date_buffer.as_str()) {
                    Ok(date) => date,
                    Err(_) => return Err(RecurrenceValidationError::InvalidEndDate),
                };
                if date.day < event_start.day {
                    return Err(RecurrenceValidationError::EndDateBeforeStart);
                }
                rule.end_date = Some(date.utc_midnight());
                rule.occurrence_count = None;
            },
            RecurrenceEndMode::AfterOccurrences => {
                match parse_count(self.occurrence_count_buffer.as_str()) {
                    Some(count) => {
                        rule.occurrence_count = Some(count);
                        rule.end_date = None;
                    },
                    None => return Err(RecurrenceValidationError::InvalidOccurrenceCount),
                }
            },
            RecurrenceEndMode::InvalidExisting => {
                return Err(RecurrenceValidationError::InvalidExistingEndCondition);
            },
        }
        Ok(rule)
    }

    /// Steps the end mode. The rule and what was typed stay, so that a step loses no input.
    pub fn cycle_end_mode(&mut self, direction: i32)
        ensures
            final(self)@ == old(self)@.with_next_end_mode(direction as int),
            final(self).rule == old(self).rule,
    {
        let current: u32 = match self.end_mode {
            RecurrenceEndMode::Never => 0,
            RecurrenceEndMode::OnDate => 1,
            RecurrenceEndMode::AfterOccurrences => 2,
            RecurrenceEndMode::InvalidExisting => if direction < 0 {
                0
            } else {
                2
            },
        };
        let position: u32 = step_round(current, direction, 3);
        self.end_mode = if position == 0 {
            RecurrenceEndMode::Never
        } else if position == 1 {
            RecurrenceEndMode::OnDate
        } else {
            RecurrenceEndMode::AfterOccurrences
        };
    }

    /// Reads the typed date anew.
    pub fn refresh_end_date_validation(&mut self, event_start: Date)
        ensures
            final(self)@ == old(self)@.with_end_date_read(event_start),
            final(self).rule == old(self).rule,
    {
        self.validated_end_date = None;
        if self.end_mode == RecurrenceEndMode::OnDate {
            match parse_recurrence_end_date(self.end_date_buffer.as_str()) {
                Ok(date) => {
                    if date.day >= event_start.day {
                        self.validated_end_date = Some(date);
                    }
                },
                Err(_) => {},
            }
        }
    }

    /// Reads the typed count anew.
    pub fn refresh_occurrence_count_validation(&mut self)
        ensures
            final(self)@ == old(self)@.with_count_read(),
            final(self).rule == old(self).rule,
    {
        self.validated_occurrence_count = if self.end_mode == RecurrenceEndMode::AfterOccurrences {
            parse_count(trim(self.occurrence_count_buffer.as_str()).as_str())
        } else {
            None
        };
    }
}

/// How an event repeats, under edit. Rules that the editor cannot show are kept as they are, so
/// that opening and saving an event does not simplify them.
#[derive(Debug, PartialEq, Eq)]
pub enum RecurrenceEditorState {
    Never,
    Structured(RecurrenceEditorData),
    Unsupported { original_rules: Vec<RecurrenceRule>, summary: String },
}

/// How an event repeats, under edit, as values of mathematics.
pub ghost enum RecurrenceEditorView {
    Never,
    Structured(RecurrenceEditorDataView),
    Unsupported { original_rules: Seq<RecurrenceRuleView>, summary: Seq<char> },
}

impl View for RecurrenceEditorState {
    type V = RecurrenceEditorView;

    open spec fn view(&self) -> RecurrenceEditorView {
        match self {
            RecurrenceEditorState::Never => RecurrenceEditorView::Never,
            RecurrenceEditorState::Structured(data) => RecurrenceEditorView::Structured(data@),
            RecurrenceEditorState::Unsupported { original_rules, summary } =>
                RecurrenceEditorView::Unsupported {
                original_rules: rule_views(original_rules@),
                summary: summary@,
            },
        }
    }
}

impl Clone for RecurrenceEditorState {
    fn clone(&self) -> (r: Self)
        ensures
            r@ == self@,
    {
        match self {
            RecurrenceEditorState::Never => RecurrenceEditorState::Never,
            RecurrenceEditorState::Structured(data) => RecurrenceEditorState::Structured(
                data.clone(),
            ),
            RecurrenceEditorState::Unsupported { original_rules, summary } =>
                RecurrenceEditorState::Unsupported {
                original_rules: clone_rules(original_rules),
                summary: summary.clone(),
            },
        }
    }
}

/// The letters of the day of the week that a date is.
pub open spec fn date_letters(date: Date) -> Seq<char> {
    WeekdayCursor::at_position(date.weekday()).letters()
}

/// The letters of the day of the week that a date is.
pub fn weekday_code(date: Date) -> (r: &'static str)
    ensures
        r@ == date_letters(date),
{
    WeekdayCursor::from_index(date.days_from_monday()).code()
}

/// A rule without an end that repeats in a unit; by the week, on the day of `date`.
pub open spec fn fresh_rule(frequency: RecurrenceFrequency, date: Date) -> RecurrenceRuleView {
    RecurrenceRuleView {
        frequency,
        interval: 1,
        days_of_week: if frequency == RecurrenceFrequency::Weekly {
            seq![date_letters(date)]
        } else {
            Seq::empty()
        },
        occurrence_count: None,
        end_date: None,
    }
}

impl RecurrenceEditorView {
    /// The editor of an event's rules. One rule with an interval, and with days where it is weekly,
    /// can be edited.
    pub open spec fn of_rules(rules: Seq<RecurrenceRuleView>) -> RecurrenceEditorView {
        if rules.len() == 0 {
            RecurrenceEditorView::Never
        } else if rules.len() == 1 && rules[0].interval > 0 && (rules[0].frequency
            != RecurrenceFrequency::Weekly || rules[0].days_of_week.len() > 0) {
            RecurrenceEditorView::Structured(RecurrenceEditorDataView::of_rule(rules[0]))
        } else {
            RecurrenceEditorView::Unsupported { original_rules: rules, summary: description(rules) }
        }
    }

    /// The rules that saving makes, or why there are none.
    pub open spec fn saved(self, event_start: Date) -> Result<
        Seq<RecurrenceRuleView>,
        RecurrenceValidationError,
    > {
        match self {
            RecurrenceEditorView::Never => Ok(Seq::empty()),
            RecurrenceEditorView::Structured(data) => match data.saved(event_start) {
                Ok(rule) => Ok(seq![rule]),
                Err(error) => Err(error),
            },
            RecurrenceEditorView::Unsupported { original_rules, .. } => Ok(original_rules),
        }
    }

    /// What the edit says, in words.
    pub open spec fn summary_text(self) -> Seq<char> {
        match self {
            RecurrenceEditorView::Never => "Does not repeat"@,
            RecurrenceEditorView::Structured(data) => {
                let start = description(seq![data.rule]);
                match (data.end_mode, data.validated_end_date, data.validated_occurrence_count) {
                    (RecurrenceEndMode::OnDate, Some(date), _) => start + " Until "@
                        + formatted_day(date.clamped().day, "%-d %b %Y"@),
                    (RecurrenceEndMode::AfterOccurrences, _, Some(count)) => start + " For "@
                        + decimal(count as nat) + " occurrences"@,
                    _ => start,
                }
            },
            RecurrenceEditorView::Unsupported { summary, .. } => "Custom / unsupported: "@
                + summary,
        }
    }

    /// The choice that the picker shows.
    pub open spec fn picker_text(self) -> Seq<char> {
        match self {
            RecurrenceEditorView::Never => "Never"@,
            RecurrenceEditorView::Structured(data) => match data.rule.frequency {
                RecurrenceFrequency::Daily => "Daily"@,
                RecurrenceFrequency::Weekly => "Weekly"@,
                RecurrenceFrequency::Monthly => "Monthly"@,
                RecurrenceFrequency::Yearly => "Yearly"@,
            },
            RecurrenceEditorView::Unsupported { .. } => "Custom / Unsupported recurrence"@,
        }
    }

    /// The number of the choice in the order in which the picker steps through them.
    pub open spec fn picker_position(self) -> int {
        match self {
            RecurrenceEditorView::Structured(data) => match data.rule.frequency {
                RecurrenceFrequency::Daily => 1,
                RecurrenceFrequency::Weekly => 2,
                RecurrenceFrequency::Monthly => 3,
                RecurrenceFrequency::Yearly => 4,
            },
            _ => 0,
        }
    }

    /// The choice at a position of the picker, for an event on `date`.
    pub open spec fn at_picker_position(position: int, date: Date) -> RecurrenceEditorView {
        if position == 0 {
            RecurrenceEditorView::Never
        } else {
            let frequency = if position == 1 {
                RecurrenceFrequency::Daily
            } else if position == 2 {
                RecurrenceFrequency::Weekly
            } else if position == 3 {
                RecurrenceFrequency::Monthly
            } else {
                RecurrenceFrequency::Yearly
            };
            RecurrenceEditorView::Structured(
                RecurrenceEditorDataView::of_rule(fresh_rule(frequency, date)),
            )
        }
    }

    /// The edit with the picker `direction` steps on; rules that cannot be shown stay.
    pub open spec fn picked(self, direction: int, date: Date) -> RecurrenceEditorView {
        if self is Unsupported {
            self
        } else {
            Self::at_picker_position((self.picker_position() + direction) % 5, date)
        }
    }
}

impl RecurrenceEditorState {
    /// No repetition.
    pub fn none() -> (r: Self)
        ensures
            r@ == RecurrenceEditorView::Never,
    {
        RecurrenceEditorState::Never
    }

    /// The editor of an event's rules. Saving it untouched gives the rules back: where there are
    /// none, where the one rule is settled, and where the editor cannot show them.
    pub fn from_rules(rules: &Vec<RecurrenceRule>) -> (r: Self)
        ensures
            r@ == RecurrenceEditorView::of_rules(rule_views(rules@)),
            forall|start: Date|
                (rules@.len() == 1 && r@ is Structured ==> #[trigger] is_settled(
                    rules@[0]@,
                    start,
                )) ==> r@.saved(start) == Ok::<Seq<RecurrenceRuleView>, RecurrenceValidationError>(
                    rule_views(rules@),
                ),
    {
        proof {
            if rules@.len() == 0 {
                assert(rule_views(rules@) =~= Seq::<RecurrenceRuleView>::empty());
            }
            if rules@.len() == 1 {
                assert(rule_views(rules@) =~= seq![rules@[0]@]);
            }
        }
        if rules.len() == 0 {
            return RecurrenceEditorState::Never;
        }
        proof {
            assert(rule_views(rules@)[0] == rules@[0]@);
            assert(texts(rules@[0].days_of_week@).len() == rules@[0].days_of_week@.len());
        }
        if rules.len() == 1 && rules[0].interval > 0 && (rules[0].frequency
            != RecurrenceFrequency::Weekly || rules[0].days_of_week.len() > 0) {
            return RecurrenceEditorState::Structured(
                RecurrenceEditorData::from_rule(rules[0].clone()),
            );
        }
        RecurrenceEditorState::Unsupported {
            original_rules: clone_rules(rules),
            summary: humanize_recurrence(rules),
        }
    }

    /// The rules that saving makes, or why there are none.
    pub fn to_rules(&self, event_start: Date) -> (r: Result<
        Vec<RecurrenceRule>,
        RecurrenceValidationError,
    >)
        ensures
            match r {
                Ok(rules) => self@.saved(event_start) == Ok::<
                    Seq<RecurrenceRuleView>,
                    RecurrenceValidationError,
                >(rule_views(rules@)),
                Err(error) => self@.saved(event_start) == Err::<
                    Seq<RecurrenceRuleView>,
                    RecurrenceValidationError,
                >(error),
            },
    {
        match self {
            RecurrenceEditorState::Never => {
                let none: Vec<RecurrenceRule> = Vec::new();
                proof {
                    assert(rule_views(none@) =~= Seq::<RecurrenceRuleView>::empty());
                }
                Ok(none)
            },
            RecurrenceEditorState::Structured(data) => match data.to_rule(event_start) {
                Ok(rule) => {
                    let mut rules: Vec<RecurrenceRule> = Vec::new();
                    rules.push(rule);
                    proof {
                        assert(rule_views(rules@) =~= seq![rule@]);
                    }
                    Ok(rules)
                },
                Err(error) => Err(error),
            },
            RecurrenceEditorState::Unsupported { original_rules, .. } => Ok(
                clone_rules(original_rules),
            ),
        }
    }

    /// What the edit says, in words.
    pub fn summary(&self) -> (r: String)
        ensures
            r@ == self@.summary_text(),
    {
        match self {
            RecurrenceEditorState::Never => "Does not repeat".to_owned(),
            RecurrenceEditorState::Structured(data) => {
                let start = describe_rule(&data.rule);
                match (data.end_mode, data.validated_end_date, data.validated_occurrence_count) {
                    (RecurrenceEndMode::OnDate, Some(date), _) => concat3(
                        start.as_str(),
                        " Until ",
                        format_day(date.nearest().day, "%-d %b %Y").as_str(),
                    ),
                    (RecurrenceEndMode::AfterOccurrences, _, Some(count)) => {
                        let mut out = concat3(
                            start.as_str(),
                            " For ",
                            to_decimal(count as u64).as_str(),
                        );
                        out.append(" occurrences");
                        out
                    },
                    _ => start,
                }
            },
            RecurrenceEditorState::Unsupported { summary, .. } => concat2(
                "Custom / unsupported: ",
                summary.as_str(),
            ),
        }
    }

    /// The choice that the picker shows.
    pub fn picker_label(&self) -> (r: &'static str)
        ensures
            r@ == self@.picker_text(),
    {
        match self {
            RecurrenceEditorState::Never => "Never",
            RecurrenceEditorState::Structured(data) => match data.rule.frequency {
                RecurrenceFrequency::Daily => "Daily",
                RecurrenceFrequency::Weekly => "Weekly",
                RecurrenceFrequency::Monthly => "Monthly",
                RecurrenceFrequency::Yearly => "Yearly",
            },
            RecurrenceEditorState::Unsupported { .. } => "Custom / Unsupported recurrence",
        }
    }

    fn at_picker(position: u32, event_date: Date) -> (r: Self)
        requires
            0 <= position < 5,
        ensures
            r@ == RecurrenceEditorView::at_picker_position(position as int, event_date),
    {
        if position == 0 {
            return RecurrenceEditorState::Never;
        }
        let frequency = if position == 1 {
            RecurrenceFrequency::Daily
        } else if position == 2 {
            RecurrenceFrequency::Weekly
        } else if position == 3 {
            RecurrenceFrequency::Monthly
        } else {
            RecurrenceFrequency::Yearly
        };
        let mut days_of_week: Vec<String> = Vec::new();
        if frequency == RecurrenceFrequency::Weekly {
            days_of_week.push(weekday_code(event_date).to_owned());
        }
        let rule = RecurrenceRule {
            frequency,
            interval: 1,
            days_of_week,
            occurrence_count: None,
            end_date: None,
        };
        proof {
            assert(rule@.days_of_week =~= fresh_rule(frequency, event_date).days_of_week);
        }
        RecurrenceEditorState::Structured(RecurrenceEditorData::from_rule(rule))
    }

    fn picker_index(&self) -> (r: u32)
        ensures
            r == self@.picker_position(),
            0 <= r < 5,
    {
        match self {
            RecurrenceEditorState::Structured(data) => match data.rule.frequency {
                RecurrenceFrequency::Daily => 1,
                RecurrenceFrequency::Weekly => 2,
                RecurrenceFrequency::Monthly => 3,
                RecurrenceFrequency::Yearly => 4,
            },
            _ => 0,
        }
    }

    /// Steps the picker; rules that cannot be shown stay.
    pub fn cycle_mode(&mut self, direction: i32, event_date: Date)
        ensures
            final(self)@ == old(self)@.picked(direction as int, event_date),
    {
        match self {
            RecurrenceEditorState::Unsupported { .. } => return,
            _ => {},
        }
        *self = Self::at_picker(step_round(self.picker_index(), direction, 5), event_date);
    }
}

/// A step of the weekday cursor and the step back lead to the same day.
pub proof fn law_weekday_steps_cancel(day: WeekdayCursor, direction: int)
    ensures
        day.moved(direction).moved(-direction) == day,
        day.moved(7) == day,
{
    let p = day.position();
    assert(((p + direction) % 7 - direction) % 7 == p % 7) by {
        vstd::arithmetic::div_mod::lemma_sub_mod_noop(p + direction, direction, 7);
        vstd::arithmetic::div_mod::lemma_mod_twice(p + direction, 7);
        vstd::arithmetic::div_mod::lemma_sub_mod_noop((p + direction) % 7, direction, 7);
    }
    assert(WeekdayCursor::at_position((p + direction) % 7).position() == (p + direction) % 7);
}

/// The letters of each day read back as the day.
pub proof fn law_weekday_letters_read_back(day: WeekdayCursor)
    ensures
        WeekdayCursor::of_letters(day.letters()) == Some(day),
{
    reveal_strlit("MO");
    reveal_strlit("TU");
    reveal_strlit("WE");
    reveal_strlit("TH");
    reveal_strlit("FR");
    reveal_strlit("SA");
    reveal_strlit("SU");
    let s = day.letters();
    assert(s.len() == 2);
    assert("MO"@[0] == 'M' && "TU"@[0] == 'T' && "TU"@[1] == 'U' && "WE"@[0] == 'W' && "TH"@[0]
        == 'T' && "TH"@[1] == 'H' && "FR"@[0] == 'F' && "SA"@[0] == 'S' && "SA"@[1] == 'A'
        && "SU"@[0] == 'S' && "SU"@[1] == 'U');
}

/// Choosing another end changes the mode alone: the rule and what was typed stay. From the ends
/// that can be chosen, three steps lead back, and a step back undoes a step.
pub proof fn law_end_mode_steps(data: RecurrenceEditorDataView)
    ensures
        data.with_next_end_mode(1) == (RecurrenceEditorDataView {
            end_mode: data.with_next_end_mode(1).end_mode,
            ..data
        }),
        data.end_mode != RecurrenceEndMode::InvalidExisting ==> {
            &&& data.with_next_end_mode(1).with_next_end_mode(1).with_next_end_mode(1) == data
            &&& data.with_next_end_mode(1).with_next_end_mode(-1) == data
            &&& data.with_next_end_mode(-1).with_next_end_mode(1) == data
        },
        data.with_next_end_mode(1).end_mode != RecurrenceEndMode::InvalidExisting,
        data.with_next_end_mode(-1).end_mode != RecurrenceEndMode::InvalidExisting,
{
}

/// Rules that the editor cannot show are saved as they came, whatever the picker is asked.
pub proof fn law_unsupported_rules_are_kept(
    rules: Seq<RecurrenceRuleView>,
    direction: int,
    date: Date,
    start: Date,
)
    requires
        RecurrenceEditorView::of_rules(rules) is Unsupported,
    ensures
        RecurrenceEditorView::of_rules(rules).picked(direction, date)
            == RecurrenceEditorView::of_rules(rules),
        RecurrenceEditorView::of_rules(rules).saved(start) == Ok::<
            Seq<RecurrenceRuleView>,
            RecurrenceValidationError,
        >(rules),
{
}

/// Whether the letters of a day can be written in a list: in upper case, without white space and
/// without the signs that separate.
pub open spec fn is_listable(day: Seq<char>) -> bool {
    &&& day.len() > 0
    &&& ascii_upper(day) == day
    &&& forall|k: int|
        0 <= k < day.len() ==> !is_white(#[trigger] day[k]) && day[k] != ',' && day[k] != ':'
}

proof fn lemma_listed_days(days: Seq<Seq<char>>)
    requires
        forall|i: int| 0 <= i < days.len() ==> is_listable(#[trigger] days[i]),
    ensures
        listed_days(days) == days,
    decreases days.len(),
{
    if days.len() > 0 {
        let t = days.drop_last();
        assert forall|i: int| 0 <= i < t.len() implies is_listable(#[trigger] t[i]) by {
            assert(t[i] == days[i]);
        }
        lemma_listed_days(t);
        assert(is_listable(days[days.len() - 1]));
        assert(t.push(days.last()) =~= days);
    } else {
        assert(days =~= Seq::<Seq<char>>::empty());
    }
}

proof fn lemma_frequency_word(frequency: RecurrenceFrequency)
    ensures
        frequency_of(frequency_word(frequency)) == Some(frequency),
        frequency_word(frequency).len() >= 5,
        forall|k: int|
            0 <= k < frequency_word(frequency).len() ==> (#[trigger] frequency_word(frequency)[k])
                != ':' && !is_white(frequency_word(frequency)[k]),
{
    reveal_strlit("daily");
    reveal_strlit("weekly");
    reveal_strlit("monthly");
    reveal_strlit("yearly");
    assert(ascii_lower("daily"@) =~= "daily"@);
    assert(ascii_lower("weekly"@) =~= "weekly"@);
    assert(ascii_lower("monthly"@) =~= "monthly"@);
    assert(ascii_lower("yearly"@) =~= "yearly"@);
    assert("weekly"@[0] != "daily"@[0]);
    assert("monthly"@[0] != "daily"@[0]);
    assert("yearly"@[0] != "daily"@[0]);
    assert("monthly"@[0] != "weekly"@[0]);
    assert("yearly"@[0] != "weekly"@[0]);
    assert("yearly"@[0] != "monthly"@[0]);
}

/// A rule without an end, written as text, reads back as the same rule.
pub proof fn law_written_rule_reads_back(rule: RecurrenceRuleView)
    requires
        rule.interval >= 1,
        rule.occurrence_count is None,
        rule.end_date is None,
        forall|i: int|
            0 <= i < rule.days_of_week.len() ==> is_listable(#[trigger] rule.days_of_week[i]),
    ensures
        written_rules(rules_text(seq![rule])) == Ok::<Seq<RecurrenceRuleView>, Seq<char>>(
            seq![rule],
        ),
        written_rules(rules_text(Seq::empty())) == Ok::<Seq<RecurrenceRuleView>, Seq<char>>(
            Seq::empty(),
        ),
{
    reveal_strlit(":");
    reveal_strlit(",");
    reveal_strlit("none");
    let days = rule.days_of_week;
    let word = frequency_word(rule.frequency);
    let number = decimal(rule.interval as nat);
    lemma_frequency_word(rule.frequency);
    lemma_decimal(rule.interval as nat);
    assert(":"@ =~= seq![':']);
    assert(","@ =~= seq![',']);
    let start = word + seq![':'] + number;
    lemma_split_whole(word, ':');
    lemma_split_append(word, ':', number);
    assert(split_at_char(start, ':') =~= seq![word, number]);
    let whole = rules_text(seq![rule]);
    assert(seq![rule][0] == rule);
    assert(unsigned_digits(number) == number);
    if days.len() == 0 {
        assert(whole =~= start);
        assert(whole[0] == word[0]);
        assert(whole.last() == number.last());
        assert(days =~= Seq::<Seq<char>>::empty());
        lemma_trim_tight(whole);
    } else {
        let list = joined(days, seq![',']);
        assert forall|i: int, k: int|
            0 <= i < days.len() && 0 <= k < days[i].len() implies #[trigger] days[i][k] != ','
            && days[i][k] != ':' by {
            assert(is_listable(days[i]));
        }
        lemma_joined_without(days, ',', ':');
        lemma_split_joined(days, ',');
        lemma_listed_days(days);
        lemma_split_append(start, ':', list);
        assert(whole =~= start + seq![':'] + list);
        assert(split_at_char(whole, ':') =~= seq![word, number, list]);
        lemma_joined_end(days);
        assert(whole[0] == word[0]);
        assert(whole.last() == list.last());
        lemma_trim_tight(whole);
    }
    assert(ascii_lower(whole).len() == whole.len());
    assert(ascii_lower("none"@).len() == 4);
    let none = rules_text(Seq::empty());
    assert(none == "none"@);
    lemma_trim_tight(none);
    let read = written_rules(whole)->Ok_0;
    assert(read =~= seq![rule]);
}

proof fn lemma_joined_end(days: Seq<Seq<char>>)
    requires
        days.len() > 0,
        forall|i: int| 0 <= i < days.len() ==> is_listable(#[trigger] days[i]),
    ensures
        joined(days, seq![',']).len() > 0,
        !is_white(joined(days, seq![',']).last()),
{
    let last = days[days.len() - 1];
    assert(is_listable(last));
    assert(!is_white(last[last.len() - 1]));
    if days.len() > 1 {
        let whole = joined(days.drop_last(), seq![',']) + seq![','] + last;
        assert(whole.last() == last[last.len() - 1]);
    }
}

} // verus!
