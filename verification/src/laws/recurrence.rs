//! What the editor of repetitions does.

use crate::model::{RecurrenceFrequency, RecurrenceRuleView};
use crate::recurrence::{
    date_letters, day_names, description, law_weekday_letters_read_back,
    law_written_rule_reads_back, rules_text, written_rules, RecurrenceEditorDataView,
    RecurrenceEditorView, RecurrenceEndMode, RecurrenceValidationError, WeekdayCursor, WeekdaySet,
};
use crate::text::{decimal, joined, parsed_unsigned, trimmed};
use crate::time::{iso_date, Date, Timestamp};
use vstd::prelude::*;

verus! {

/// A repetition is saved as it was put together: its unit, interval and days, and one end at most.
/// An end on a date is the midnight of that date in UTC, and no date before the event starts; an
/// end after a number of occurrences is that number.
pub proof fn law_saved_repetitions(data: RecurrenceEditorDataView, start: Date)
    ensures
        data.saved(start) matches Ok(rule) ==> {
            &&& rule.frequency == data.rule.frequency && rule.interval == data.rule.interval
            &&& rule.days_of_week == data.rule.days_of_week && rule.interval >= 1
            &&& rule.frequency == RecurrenceFrequency::Weekly ==> rule.days_of_week.len() > 0
            &&& data.end_mode == RecurrenceEndMode::Never ==> rule.end_date is None
                && rule.occurrence_count is None
            &&& data.end_mode == RecurrenceEndMode::OnDate ==> rule.occurrence_count is None && (
            iso_date(trimmed(data.end_date_buffer)) matches Some(date) && start.day <= date.day
                && rule.end_date == Some(
                Timestamp { nanos: ((date.day - 719_163) * 86_400_000_000_000) as i128 },
            ))
            &&& data.end_mode == RecurrenceEndMode::AfterOccurrences ==> rule.end_date is None && (
            rule.occurrence_count matches Some(count) && count > 0 && parsed_unsigned(
                data.occurrence_count_buffer,
                u32::MAX as int,
            ) == Some(count as int))
            &&& data.end_mode != RecurrenceEndMode::InvalidExisting
        },
        data.saved(start) is Ok <==> data.rule.interval >= 1 && (data.rule.frequency
            == RecurrenceFrequency::Weekly ==> data.rule.days_of_week.len() > 0) && match data.end_mode {
            RecurrenceEndMode::Never => true,
            RecurrenceEndMode::OnDate => iso_date(trimmed(data.end_date_buffer)) matches Some(date)
                && start.day <= date.day,
            RecurrenceEndMode::AfterOccurrences => parsed_unsigned(
                data.occurrence_count_buffer,
                u32::MAX as int,
            ) matches Some(count) && count > 0,
            RecurrenceEndMode::InvalidExisting => false,
        },
{
}

/// What is wrong with a repetition that cannot be saved is said.
pub proof fn law_refused_repetitions(data: RecurrenceEditorDataView, start: Date)
    requires
        data.rule.interval >= 1,
        data.rule.frequency == RecurrenceFrequency::Weekly ==> data.rule.days_of_week.len() > 0,
    ensures
        data.end_mode == RecurrenceEndMode::OnDate ==> (iso_date(
            trimmed(data.end_date_buffer),
        ) is None <==> data.saved(start) == Err::<RecurrenceRuleView, RecurrenceValidationError>(
            RecurrenceValidationError::InvalidEndDate,
        )),
        data.end_mode == RecurrenceEndMode::OnDate ==> (iso_date(
            trimmed(data.end_date_buffer),
        ) matches Some(date) ==> (date.day < start.day <==> data.saved(start) == Err::<
            RecurrenceRuleView,
            RecurrenceValidationError,
        >(RecurrenceValidationError::EndDateBeforeStart))),
        ({
            let zero = RecurrenceEditorDataView {
                rule: RecurrenceRuleView { interval: 0, ..data.rule },
                ..data
            };
            zero.saved(start) == Err::<RecurrenceRuleView, RecurrenceValidationError>(
                RecurrenceValidationError::InvalidInterval,
            )
        }),
{
}

/// A repetition that is opened and saved is what it was, where it ends at most once.
pub proof fn law_opened_repetitions_are_kept(rule: RecurrenceRuleView, start: Date)
    requires
        rule.interval >= 1,
        rule.frequency == RecurrenceFrequency::Weekly ==> rule.days_of_week.len() > 0,
        rule.end_date is None,
        rule.occurrence_count is None,
    ensures
        RecurrenceEditorView::of_rules(seq![rule]).saved(start) matches Ok(saved) && saved == seq![
            rule,
        ],
        RecurrenceEditorView::of_rules(Seq::empty()).saved(start) matches Ok(saved) && saved.len()
            == 0,
{
}

/// The picker goes round: never, daily, weekly, monthly, yearly, and back. What it picks repeats
/// each time, without end, a weekly one on the weekday of the date.
pub proof fn law_the_picker_goes_round(state: RecurrenceEditorView, date: Date)
    requires
        !(state is Unsupported),
    ensures
        state is Never ==> picks(state.picked(1, date), RecurrenceFrequency::Daily, date) && picks(
            state.picked(-1, date),
            RecurrenceFrequency::Yearly,
            date,
        ),
        state matches RecurrenceEditorView::Structured(data) ==> match data.rule.frequency {
            RecurrenceFrequency::Daily => picks(
                state.picked(1, date),
                RecurrenceFrequency::Weekly,
                date,
            ) && state.picked(-1, date) is Never,
            RecurrenceFrequency::Weekly => picks(
                state.picked(1, date),
                RecurrenceFrequency::Monthly,
                date,
            ) && picks(state.picked(-1, date), RecurrenceFrequency::Daily, date),
            RecurrenceFrequency::Monthly => picks(
                state.picked(1, date),
                RecurrenceFrequency::Yearly,
                date,
            ) && picks(state.picked(-1, date), RecurrenceFrequency::Weekly, date),
            RecurrenceFrequency::Yearly => state.picked(1, date) is Never && picks(
                state.picked(-1, date),
                RecurrenceFrequency::Monthly,
                date,
            ),
        },
{
    reveal_strlit("MO");
}

/// Whether the editor is on a new repetition by a unit, once each time, without an end.
pub open spec fn picks(
    state: RecurrenceEditorView,
    frequency: RecurrenceFrequency,
    date: Date,
) -> bool {
    state matches RecurrenceEditorView::Structured(data) && data.rule.frequency == frequency
        && data.rule.interval == 1 && data.rule.end_date is None && data.rule.occurrence_count
        is None && data.end_mode == RecurrenceEndMode::Never && data.rule.days_of_week == (
    if frequency == RecurrenceFrequency::Weekly {
        seq![date_letters(date)]
    } else {
        Seq::empty()
    })
}

/// The letters of the weekday of a date: those of Thursday for 1970-01-01, and so on from day to
/// day.
pub proof fn law_weekday_letters(date: Date)
    requires
        date.valid(),
    ensures
        ({
            let day = (date.day - 719_163) % 7;
            &&& day == 0 ==> date_letters(date) == "TH"@
            &&& day == 1 ==> date_letters(date) == "FR"@
            &&& day == 2 ==> date_letters(date) == "SA"@
            &&& day == 3 ==> date_letters(date) == "SU"@
            &&& day == 4 ==> date_letters(date) == "MO"@
            &&& day == 5 ==> date_letters(date) == "TU"@
            &&& day == 6 ==> date_letters(date) == "WE"@
        }),
{
}

/// A day that is chosen is among the days, one that is given up is not, and the others stay.
pub proof fn law_weekday_choice(days: WeekdaySet, day: WeekdayCursor, other: WeekdayCursor)
    ensures
        days.with(day, true).holds(day),
        !days.with(day, false).holds(day),
        other != day ==> days.with(day, true).holds(other) == days.holds(other),
        other != day ==> days.with(day, false).holds(other) == days.holds(other),
        !WeekdaySet::none().holds(day),
{
}

/// The days of a set are written from Monday to Sunday, and read back as the set.
pub proof fn law_weekdays_read_back(days: WeekdaySet)
    ensures
        WeekdaySet::of_codes(days.letters()) == days,
        forall|day: WeekdayCursor| days.holds(day) <==> days.letters().contains(
            #[trigger] day.letters(),
        ),
{
    lemma_codes(days, 7);
    assert forall|day: WeekdayCursor| days.holds(day) <==> days.letters().contains(
        #[trigger] day.letters(),
    ) by {
        lemma_contains(days, 7, day);
    }
    let read = WeekdaySet::of_codes(days.letters());
    assert(read.holds(WeekdayCursor::Monday) == days.holds(WeekdayCursor::Monday));
    assert(read.holds(WeekdayCursor::Tuesday) == days.holds(WeekdayCursor::Tuesday));
    assert(read.holds(WeekdayCursor::Wednesday) == days.holds(WeekdayCursor::Wednesday));
    assert(read.holds(WeekdayCursor::Thursday) == days.holds(WeekdayCursor::Thursday));
    assert(read.holds(WeekdayCursor::Friday) == days.holds(WeekdayCursor::Friday));
    assert(read.holds(WeekdayCursor::Saturday) == days.holds(WeekdayCursor::Saturday));
    assert(read.holds(WeekdayCursor::Sunday) == days.holds(WeekdayCursor::Sunday));
}

proof fn lemma_codes(days: WeekdaySet, n: int)
    requires
        0 <= n <= 7,
    ensures
        forall|day: WeekdayCursor| #[trigger]
            WeekdaySet::of_codes(days.letters_before(n)).holds(day) == (days.holds(day)
                && day.position() < n),
    decreases n,
{
    if n > 0 {
        lemma_codes(days, n - 1);
        let day = WeekdayCursor::at_position(n - 1);
        law_weekday_letters_read_back(day);
        let less = days.letters_before(n - 1);
        assert(less.push(day.letters()).drop_last() =~= less);
        assert(day.position() == n - 1);
        assert forall|other: WeekdayCursor| #[trigger]
            WeekdaySet::of_codes(days.letters_before(n)).holds(other) == (days.holds(other)
                && other.position() < n) by {
            assert(WeekdaySet::of_codes(less).holds(other) == (days.holds(other)
                && other.position() < n - 1));
            if other != day {
                assert(other.position() != n - 1);
            }
        }
    } else {
        assert(days.letters_before(0) =~= Seq::<Seq<char>>::empty());
    }
}

proof fn lemma_contains(days: WeekdaySet, n: int, day: WeekdayCursor)
    requires
        0 <= n <= 7,
    ensures
        days.letters_before(n).contains(day.letters()) <==> days.holds(day) && day.position() < n,
    decreases n,
{
    if n > 0 {
        lemma_contains(days, n - 1, day);
        let new = WeekdayCursor::at_position(n - 1);
        let less = days.letters_before(n - 1);
        law_weekday_letters_read_back(new);
        law_weekday_letters_read_back(day);
        assert(new.position() == n - 1);
        let all = days.letters_before(n);
        if days.holds(new) {
            assert(all[less.len() as int] == new.letters());
            if less.contains(day.letters()) {
                let k = choose|k: int| 0 <= k < less.len() && less[k] == day.letters();
                assert(all[k] == day.letters());
            }
            if all.contains(day.letters()) {
                let k = choose|k: int| 0 <= k < all.len() && all[k] == day.letters();
                if k < less.len() {
                    assert(less[k] == day.letters());
                } else {
                    assert(day == new);
                }
            }
        }
        if day != new {
            assert(day.position() != n - 1);
        }
    }
}

/// The word of a unit of repetition in a text.
pub open spec fn unit_word(frequency: RecurrenceFrequency) -> Seq<char> {
    match frequency {
        RecurrenceFrequency::Daily => "daily"@,
        RecurrenceFrequency::Weekly => "weekly"@,
        RecurrenceFrequency::Monthly => "monthly"@,
        RecurrenceFrequency::Yearly => "yearly"@,
    }
}

/// A repetition is written as its unit, its interval and its days, and such a text is read as it.
pub proof fn law_repetitions_in_text(rule: RecurrenceRuleView)
    requires
        rule.interval >= 1,
        rule.occurrence_count is None,
        rule.end_date is None,
        rule.days_of_week.len() == 0,
    ensures
        rules_text(seq![rule]) == unit_word(rule.frequency) + ":"@ + decimal(rule.interval as nat),
        written_rules(unit_word(rule.frequency) + ":"@ + decimal(rule.interval as nat)) == Ok::<
            Seq<RecurrenceRuleView>,
            Seq<char>,
        >(seq![rule]),
        rules_text(Seq::empty()) == "none"@,
{
    law_written_rule_reads_back(rule);
}

/// In words a repetition says its interval and unit, and a weekly one its days.
pub proof fn law_repetitions_in_words(rule: RecurrenceRuleView)
    ensures
        description(Seq::empty()) == "Does not repeat"@,
        rule.interval == 1 && rule.days_of_week.len() == 0 ==> description(seq![rule]) == (
        match rule.frequency {
            RecurrenceFrequency::Daily => "Repeats every "@ + "day"@,
            RecurrenceFrequency::Weekly => "Repeats every "@ + "week"@,
            RecurrenceFrequency::Monthly => "Repeats every "@ + "month"@,
            RecurrenceFrequency::Yearly => "Repeats every "@ + "year"@,
        }),
        rule.interval > 1 && rule.days_of_week.len() == 0 ==> description(seq![rule])
            == "Repeats every "@ + decimal(rule.interval as nat) + (match rule.frequency {
            RecurrenceFrequency::Daily => " days"@,
            RecurrenceFrequency::Weekly => " weeks"@,
            RecurrenceFrequency::Monthly => " months"@,
            RecurrenceFrequency::Yearly => " years"@,
        }),
        rule.frequency == RecurrenceFrequency::Weekly && rule.days_of_week.len() > 0
            ==> description(seq![rule]) == description(
            seq![RecurrenceRuleView { days_of_week: Seq::empty(), ..rule }],
        ) + " on "@ + joined(day_names(rule.days_of_week), ", "@),
        forall|i: int|
            0 <= i < rule.days_of_week.len() ==> {
                let code = rule.days_of_week[i];
                let name = #[trigger] day_names(rule.days_of_week)[i];
                &&& code == "MO"@ ==> name == "Monday"@
                &&& code == "TU"@ ==> name == "Tuesday"@
                &&& code == "WE"@ ==> name == "Wednesday"@
                &&& code == "TH"@ ==> name == "Thursday"@
                &&& code == "FR"@ ==> name == "Friday"@
                &&& code == "SA"@ ==> name == "Saturday"@
                &&& code == "SU"@ ==> name == "Sunday"@
            },
{
    reveal_strlit(" ");
    reveal_strlit("s");
    reveal_strlit("day");
    reveal_strlit("week");
    reveal_strlit("month");
    reveal_strlit("year");
    reveal_strlit(" days");
    reveal_strlit(" weeks");
    reveal_strlit(" months");
    reveal_strlit(" years");
    reveal_strlit("MO");
    reveal_strlit("TU");
    reveal_strlit("WE");
    reveal_strlit("TH");
    reveal_strlit("FR");
    reveal_strlit("SA");
    reveal_strlit("SU");
    let number = decimal(rule.interval as nat);
    let start = "Repeats every "@ + number;
    assert(start + " "@ + "day"@ + "s"@ =~= start + " days"@);
    assert(start + " "@ + "week"@ + "s"@ =~= start + " weeks"@);
    assert(start + " "@ + "month"@ + "s"@ =~= start + " months"@);
    assert(start + " "@ + "year"@ + "s"@ =~= start + " years"@);
    assert("MO"@[0] == 'M' && "TU"@[0] == 'T' && "TU"@[1] == 'U' && "WE"@[0] == 'W' && "TH"@[0]
        == 'T' && "TH"@[1] == 'H' && "FR"@[0] == 'F' && "SA"@[0] == 'S' && "SA"@[1] == 'A'
        && "SU"@[0] == 'S' && "SU"@[1] == 'U');
}

/// Choosing another end of a repetition goes round: never, on a date, after a number of
/// occurrences, and back. The rule and what was typed stay.
pub proof fn law_ends_go_round(data: RecurrenceEditorDataView)
    ensures
        data.end_mode == RecurrenceEndMode::Never ==> data.with_next_end_mode(1).end_mode
            == RecurrenceEndMode::OnDate && data.with_next_end_mode(-1).end_mode
            == RecurrenceEndMode::AfterOccurrences,
        data.end_mode == RecurrenceEndMode::OnDate ==> data.with_next_end_mode(1).end_mode
            == RecurrenceEndMode::AfterOccurrences && data.with_next_end_mode(-1).end_mode
            == RecurrenceEndMode::Never,
        data.end_mode == RecurrenceEndMode::AfterOccurrences ==> data.with_next_end_mode(1).end_mode
            == RecurrenceEndMode::Never && data.with_next_end_mode(-1).end_mode
            == RecurrenceEndMode::OnDate,
        data.with_next_end_mode(1).rule == data.rule,
        data.with_next_end_mode(-1).rule == data.rule,
{
}

/// A rule that is opened shows how it ends.
pub proof fn law_opened_ends(rule: RecurrenceRuleView)
    ensures
        ({
            let data = RecurrenceEditorDataView::of_rule(rule);
            &&& data.rule == rule
            &&& data.end_mode == RecurrenceEndMode::Never <==> rule.end_date is None
                && rule.occurrence_count is None
            &&& data.end_mode == RecurrenceEndMode::OnDate <==> rule.end_date is Some
                && rule.occurrence_count is None
            &&& data.end_mode == RecurrenceEndMode::AfterOccurrences <==> rule.end_date is None
                && rule.occurrence_count is Some
            &&& rule.occurrence_count matches Some(count) ==> data.occurrence_count_buffer
                == decimal(count as nat)
            &&& rule.end_date matches Some(end) ==> data.end_date_buffer == crate::time::iso_text(
                end.utc_day(),
            )
        }),
{
}

} // verus!
