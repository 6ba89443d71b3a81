//! What the editor of alarms does.

use crate::alarm::{
    absolute_resolution, alarm_item, alarm_items, duration_text, law_duration_text_reads_back,
    listed_alarms, preset_label, relative_alarm, relative_label, typed_offset, unit_seconds,
    AbsoluteResolution, AlarmEditorState, AlarmEditorView, AlarmInteractionView,
    AlarmValidationError, EditableAlarm, EditableAlarmDataView,
};
use crate::input::{KeyCode, KeyEvent};
use crate::model::Alarm;
use crate::text::{
    ascii_lower, decimal, lemma_decimal, lemma_split_whole, lemma_trim_tight, parsed_signed,
    split_at_char, trimmed,
};
use crate::time::{iso_date, clock_time, zone_known, zone_seconds, Timestamp};
use vstd::prelude::*;

verus! {

/// The words for a number of units before an event.
pub open spec fn said_before(count: nat, unit: Seq<char>) -> Seq<char> {
    decimal(count) + unit + " before"@
}

/// Whether a text says that an alarm comes some seconds before an event: at it, or a number of
/// minutes, hours or days before it.
pub open spec fn says_offset(label: Seq<char>, seconds: int) -> bool {
    ||| label == "At event time"@ && seconds == 0
    ||| exists|count: nat| #[trigger]
        said_before(count, " minutes"@) == label && count > 1 && seconds == -(count * 60)
    ||| label == said_before(1, " hour"@) && seconds == -3_600
    ||| exists|count: nat| #[trigger]
        said_before(count, " hours"@) == label && count > 1 && seconds == -(count * 3_600)
    ||| label == said_before(1, " day"@) && seconds == -86_400
}

/// Confirming a preset adds one alarm, after the others and selected, at the time that the preset
/// says; only the last preset says none and asks for one.
pub proof fn law_presets_add_what_they_say(
    data: EditableAlarmDataView,
    k: int,
    enter: KeyEvent,
    zone: Seq<char>,
)
    requires
        data.interaction == (AlarmInteractionView::Preset { selected: k }),
        0 <= k < 9,
        enter.code == KeyCode::Enter,
    ensures
        ({
            let after = data.after_key(enter, zone).0;
            let label = preset_label(k);
            &&& k < 8 ==> {
                &&& after.alarms.len() == data.alarms.len() + 1
                &&& after.alarms.drop_last() == data.alarms
                &&& after.selected == data.alarms.len()
                &&& after.interaction == AlarmInteractionView::Browse
                &&& after.original == data.original
                &&& after.alarms.last() matches EditableAlarm::Relative { relative_seconds }
                    && says_offset(label, relative_seconds as int)
            }
            &&& k == 8 ==> label == "Custom"@ && after.alarms == data.alarms && after.interaction
                == (AlarmInteractionView::Custom { buffer: Seq::empty() })
            &&& data.shown(zone) == "Add: "@ + label
                + " (j/k choose · Enter select · Esc cancel)"@
        }),
{
    let after = data.after_key(enter, zone).0;
    reveal_strlit("5 minutes before");
    reveal_strlit("10 minutes before");
    reveal_strlit("15 minutes before");
    reveal_strlit("30 minutes before");
    reveal_strlit("1 hour before");
    reveal_strlit("2 hours before");
    reveal_strlit("1 day before");
    reveal_strlit(" minutes");
    reveal_strlit(" hour");
    reveal_strlit(" hours");
    reveal_strlit(" day");
    reveal_strlit(" before");
    reveal_with_fuel(decimal, 2);
    if k < 8 {
        assert(after.alarms.drop_last() =~= data.alarms);
    }
    assert(said_before(5, " minutes"@) =~= "5 minutes before"@);
    assert(said_before(10, " minutes"@) =~= "10 minutes before"@);
    assert(said_before(15, " minutes"@) =~= "15 minutes before"@);
    assert(said_before(30, " minutes"@) =~= "30 minutes before"@);
    assert(said_before(1, " hour"@) =~= "1 hour before"@);
    assert(said_before(2, " hours"@) =~= "2 hours before"@);
    assert(said_before(1, " day"@) =~= "1 day before"@);
}

/// Different presets add different alarms.
pub proof fn law_presets_differ(
    data: EditableAlarmDataView,
    i: int,
    j: int,
    enter: KeyEvent,
    zone: Seq<char>,
)
    requires
        0 <= i < j < 8,
        enter.code == KeyCode::Enter,
    ensures
        ({
            let a = (EditableAlarmDataView {
                interaction: AlarmInteractionView::Preset { selected: i },
                ..data
            }).after_key(enter, zone).0;
            let b = (EditableAlarmDataView {
                interaction: AlarmInteractionView::Preset { selected: j },
                ..data
            }).after_key(enter, zone).0;
            &&& a.alarms.last() is Relative && b.alarms.last() is Relative
            &&& a.alarms.last()->relative_seconds > b.alarms.last()->relative_seconds
        }),
{
}

/// The presets are gone through in a circle: `j` and Down to the next, `k` and Up to the previous.
pub proof fn law_preset_steps(
    data: EditableAlarmDataView,
    k: int,
    key: KeyEvent,
    zone: Seq<char>,
)
    requires
        data.interaction == (AlarmInteractionView::Preset { selected: k }),
        0 <= k < 9,
    ensures
        ({
            let after = data.after_key(key, zone).0;
            &&& key.code == KeyCode::Char('j') || key.code == KeyCode::Down ==> after == (
            EditableAlarmDataView {
                interaction: AlarmInteractionView::Preset {
                    selected: if k == 8 {
                        0
                    } else {
                        k + 1
                    },
                },
                ..data
            })
            &&& key.code == KeyCode::Char('k') || key.code == KeyCode::Up ==> after == (
            EditableAlarmDataView {
                interaction: AlarmInteractionView::Preset {
                    selected: if k == 0 {
                        8
                    } else {
                        k - 1
                    },
                },
                ..data
            })
        }),
{
}

/// A number and the letter of a unit are read as that long before the event.
pub proof fn law_typed_durations(count: nat, unit: char)
    requires
        unit == 'm' || unit == 'h' || unit == 'd' || unit == 'M' || unit == 'H' || unit == 'D',
        count * 86_400 <= i64::MAX,
    ensures
        ({
            let seconds = if unit == 'm' || unit == 'M' {
                60int
            } else if unit == 'h' || unit == 'H' {
                3_600
            } else {
                86_400
            };
            typed_offset(decimal(count).push(unit)) == Ok::<i64, Seq<char>>(
                -(count * seconds) as i64,
            )
        }),
{
    reveal_strlit("m");
    reveal_strlit("h");
    reveal_strlit("d");
    reveal_strlit("none");
    let text = decimal(count).push(unit);
    let number = decimal(count);
    let scale = if unit == 'm' || unit == 'M' {
        60int
    } else if unit == 'h' || unit == 'H' {
        3_600
    } else {
        86_400
    };
    let lower = if unit == 'm' || unit == 'M' {
        "m"@
    } else if unit == 'h' || unit == 'H' {
        "h"@
    } else {
        "d"@
    };
    lemma_decimal(count);
    assert(text[0] == number[0]);
    assert(text.drop_last() =~= number);
    assert(text.subrange(number.len() as int, text.len() as int) =~= seq![unit]);
    lemma_trim_tight(text);
    assert(ascii_lower(text)[0] == text[0]);
    assert(ascii_lower("none"@)[0] == 'n');
    assert forall|i: int| 0 <= i < text.len() implies #[trigger] text[i] != ',' by {
        if i < number.len() {
            assert(text[i] == number[i]);
        }
    }
    lemma_split_whole(text, ',');
    let pieces = split_at_char(text, ',');
    assert(ascii_lower(seq![unit]) =~= lower);
    assert("m"@[0] != "h"@[0]);
    assert("m"@[0] != "d"@[0]);
    assert("h"@[0] != "d"@[0]);
    assert(parsed_signed(number) == Some(count as int));
    assert(unit_seconds(seq![unit]) == Some(scale));
    assert(count * scale <= count * 86_400) by (nonlinear_arith)
        requires
            scale <= 86_400,
            count >= 0,
    ;
    assert(count * scale >= 0) by (nonlinear_arith)
        requires
            scale >= 0,
            count >= 0,
    ;
    assert(alarm_item(text) == Ok::<Alarm, Seq<char>>(relative_alarm(-(count * scale))));
    assert(pieces.drop_last() =~= Seq::<Seq<char>>::empty());
    assert(alarm_items(pieces.drop_last()) == Ok::<Seq<Alarm>, Seq<char>>(Seq::empty()));
    assert(alarm_items(pieces) == Ok::<Seq<Alarm>, Seq<char>>(
        Seq::<Alarm>::empty().push(relative_alarm(-(count * scale))),
    ));
}

/// What is typed and confirmed is added as an alarm, or takes the place of the one that is edited;
/// a text that is no length of time changes nothing.
pub proof fn law_typed_alarms(
    data: EditableAlarmDataView,
    text: Seq<char>,
    editing: bool,
    enter: KeyEvent,
    zone: Seq<char>,
)
    requires
        data.wf(),
        data.interaction == (if editing {
            AlarmInteractionView::Edit { buffer: text }
        } else {
            AlarmInteractionView::Custom { buffer: text }
        }),
        enter.code == KeyCode::Enter,
    ensures
        ({
            let (after, outcome) = data.after_key(enter, zone);
            match typed_offset(text) {
                Err(error) => after == data && outcome == Some(Err::<bool, Seq<char>>(error)),
                Ok(seconds) => {
                    let alarm = EditableAlarm::Relative { relative_seconds: seconds };
                    &&& seconds <= 0
                    &&& after.interaction == AlarmInteractionView::Browse
                    &&& after.original == data.original
                    &&& editing ==> after.selected == data.selected && after.alarms.len()
                        == data.alarms.len() && forall|i: int|
                        0 <= i < data.alarms.len() ==> #[trigger] after.alarms[i] == (if i
                            == data.selected {
                            alarm
                        } else {
                            data.alarms[i]
                        })
                    &&& !editing ==> after.alarms.len() == data.alarms.len() + 1
                        && after.alarms.drop_last() == data.alarms && after.alarms.last() == alarm
                        && after.selected == data.alarms.len()
                },
            }
        }),
{
    let after = data.after_key(enter, zone).0;
    if typed_offset(text) is Ok && !editing {
        assert(after.alarms.drop_last() =~= data.alarms);
    }
}

/// While the alarms are browsed, `a` offers the presets from the first on, `d` takes out the
/// selected alarm and no other, and the keys that move go through the alarms in a circle.
pub proof fn law_browsing_keys(data: EditableAlarmDataView, key: KeyEvent, zone: Seq<char>)
    requires
        data.wf(),
        data.interaction == AlarmInteractionView::Browse,
    ensures
        ({
            let after = data.after_key(key, zone).0;
            let count = data.alarms.len() as int;
            &&& after.original == data.original
            &&& key.code != KeyCode::Char('d') ==> after.alarms == data.alarms
            &&& key.code == KeyCode::Char('a') ==> after.interaction == (
            AlarmInteractionView::Preset { selected: 0 })
            &&& key.code == KeyCode::Char('d') && count > 0 ==> after.alarms.len() == count - 1 && (
            forall|i: int|
                0 <= i < count - 1 ==> #[trigger] after.alarms[i] == data.alarms[if i
                    < data.selected {
                    i
                } else {
                    i + 1
                }])
            &&& (key.code == KeyCode::Char('j') || key.code == KeyCode::Down) && count > 0
                ==> after.selected == (if data.selected == count - 1 {
                0
            } else {
                data.selected + 1
            })
            &&& (key.code == KeyCode::Char('k') || key.code == KeyCode::Up) && count > 0
                ==> after.selected == (if data.selected == 0 {
                count - 1
            } else {
                data.selected - 1
            })
        }),
{
    let count = data.alarms.len() as int;
    if count > 0 {
        crate::seqs::lemma_wrap(data.selected, count);
        assert(data.selected + 1 < count ==> (data.selected + 1) % count == data.selected + 1);
        if data.selected == 0 {
            assert((data.selected + count - 1) % count == count - 1);
        } else {
            assert((data.selected + count - 1) % count == data.selected - 1) by (nonlinear_arith)
                requires
                    0 < data.selected < count,
            ;
        }
    }
}

/// A date and a time are read in the event's zone: as the one instant at which its clock shows
/// them, as two where it shows them twice, and as none where it does not, in a zone that is known.
pub proof fn law_absolute_alarms(
    date: Seq<char>,
    time: Seq<char>,
    zone: Seq<char>,
    day: crate::time::Date,
    second: u32,
)
    requires
        iso_date(trimmed(date)) == Some(day),
        clock_time(trimmed(time)) == Some(second),
        zone_known(zone),
    ensures
        ({
            let seconds = zone_seconds(zone, day.day, second);
            let r = absolute_resolution(date, time, zone);
            &&& seconds.len() == 0 <==> r == Err::<AbsoluteResolution, AlarmValidationError>(
                AlarmValidationError::NonexistentLocalTime,
            )
            &&& r matches Ok(AbsoluteResolution::Single(at)) ==> seconds.len() == 1
            &&& seconds.len() == 1 ==> r is Ok && r->Ok_0 is Single
            &&& seconds.len() == 1 && -10_000_000_000_000 < seconds[0] < 10_000_000_000_000
                ==> r->Ok_0->Single_0.nanos == seconds[0] * 1_000_000_000
            &&& seconds.len() == 2 ==> r is Ok && r->Ok_0 is Ambiguous
            &&& seconds.len() == 2 && -10_000_000_000_000 < seconds[0] < 10_000_000_000_000
                && -10_000_000_000_000 < seconds[1] < 10_000_000_000_000
                ==> r->Ok_0->Ambiguous_0.nanos == seconds[0] * 1_000_000_000
                && r->Ok_0->Ambiguous_1.nanos == seconds[1] * 1_000_000_000
        }),
{
}

/// Where a time was shown twice, `1` takes the first instant and `2` the second, in place of the
/// alarm that is edited.
pub proof fn law_ambiguous_choice(
    data: EditableAlarmDataView,
    first: Timestamp,
    second: Timestamp,
    key: KeyEvent,
    zone: Seq<char>,
)
    requires
        data.wf(),
        data.interaction == (AlarmInteractionView::AbsoluteAmbiguous { first, second }),
    ensures
        ({
            let after = data.after_key(key, zone).0;
            &&& key.code == KeyCode::Char('1') ==> after.alarms[data.selected] == (
            EditableAlarm::Absolute { date_time: first })
            &&& key.code == KeyCode::Char('2') ==> after.alarms[data.selected] == (
            EditableAlarm::Absolute { date_time: second })
            &&& after.alarms.len() == data.alarms.len()
            &&& forall|i: int|
                0 <= i < data.alarms.len() && i != data.selected ==> #[trigger] after.alarms[i]
                    == data.alarms[i]
        }),
{
}

/// A list of alarms is read item by item, in order: the items are what stands between commas.
pub proof fn law_lists_are_read_item_by_item(text: Seq<char>, alarms: Seq<Alarm>)
    requires
        listed_alarms(text) == Ok::<Seq<Alarm>, Seq<char>>(alarms),
        trimmed(text).len() > 0,
        ascii_lower(trimmed(text)) != ascii_lower("none"@),
    ensures
        alarms.len() == split_at_char(text, ',').len(),
        forall|i: int|
            0 <= i < alarms.len() ==> alarm_item(trimmed(split_at_char(text, ',')[i])) == Ok::<
                Alarm,
                Seq<char>,
            >(#[trigger] alarms[i]),
{
    lemma_items(split_at_char(text, ','), alarms);
}

proof fn lemma_items(items: Seq<Seq<char>>, alarms: Seq<Alarm>)
    requires
        alarm_items(items) == Ok::<Seq<Alarm>, Seq<char>>(alarms),
    ensures
        alarms.len() == items.len(),
        forall|i: int|
            0 <= i < alarms.len() ==> alarm_item(trimmed(items[i])) == Ok::<Alarm, Seq<char>>(
                #[trigger] alarms[i],
            ),
    decreases items.len(),
{
    if items.len() > 0 {
        let done = alarm_items(items.drop_last())->Ok_0;
        lemma_items(items.drop_last(), done);
        assert forall|i: int| 0 <= i < alarms.len() implies alarm_item(trimmed(items[i])) == Ok::<
            Alarm,
            Seq<char>,
        >(#[trigger] alarms[i]) by {
            if i < done.len() {
                assert(alarms[i] == done[i]);
                assert(items.drop_last()[i] == items[i]);
            }
        }
    }
}

/// A relative alarm is shown by its length before the event, in a form that reads back as the
/// alarm; only one at the event is shown otherwise.
pub proof fn law_labels_say_the_offset(seconds: i64)
    requires
        seconds <= 0,
        seconds % 60 == 0,
    ensures
        seconds == 0 <==> relative_label(seconds as int) == "At event time"@,
        seconds < 0 ==> exists|length: Seq<char>| #[trigger]
            typed_offset(length) == Ok::<i64, Seq<char>>(seconds) && relative_label(seconds as int)
                == length + " before"@,
{
    reveal_strlit("At event time");
    reveal_strlit(" before");
    if seconds < 0 {
        law_duration_text_reads_back(seconds);
        let length = duration_text(seconds as int);
        assert(typed_offset(length) == Ok::<i64, Seq<char>>(seconds));
        let label = length + " before"@;
        assert(label[label.len() - 1] == " before"@[6]);
        assert("At event time"@[12] == 'e');
        assert(label[label.len() - 2] == " before"@[5]);
        assert("At event time"@[11] == 'm');
        if label == "At event time"@ {
            assert(label[11] == 'm' && label[11] == 'r');
        }
    }
}

/// An alarm can be edited where it is at an instant, or whole minutes before the event or at it,
/// and the provider allows it. Back from the editor it is what it was.
pub proof fn law_editable_alarms(alarm: Alarm)
    ensures
        EditableAlarm::of_alarm(alarm) is Ok <==> alarm.is_editable && ((alarm.absolute_date is Some
            && alarm.relative_seconds is None) || (alarm.absolute_date is None
            && alarm.relative_seconds is Some && alarm.relative_seconds->0 <= 0
            && alarm.relative_seconds->0 as int % 60 == 0)),
        EditableAlarm::of_alarm(alarm) matches Ok(edited) ==> edited.alarm() == Ok::<
            Alarm,
            AlarmValidationError,
        >(alarm),
{
}

/// A new event has one alarm, a quarter of an hour before it.
pub proof fn law_new_events_remind(state: AlarmEditorState)
    requires
        call_ensures(AlarmEditorState::new_event, (), state),
    ensures
        state@.drafted(false) matches Ok(drafted) && drafted.0.len() == 1 && drafted.0[0] == (Alarm {
            relative_seconds: Some((-15 * 60) as i64),
            absolute_date: None,
            is_editable: true,
        }),
{
    let edited = seq![EditableAlarm::Relative { relative_seconds: (-900) as i64 }];
    assert(edited[0].alarm() is Ok);
}

/// What the edit says becomes the event's alarms, unless it says what they were; alarms that cannot
/// be edited are left alone.
pub proof fn law_edited_alarms_are_saved(data: EditableAlarmDataView, updating: bool)
    requires
        data.interaction == AlarmInteractionView::Browse,
        forall|i: int| 0 <= i < data.alarms.len() ==> (#[trigger] data.alarms[i]).alarm() is Ok,
    ensures
        (AlarmEditorView::EditableBasic { data }).drafted(updating) matches Ok(drafted) && {
            &&& drafted.0.len() == data.alarms.len()
            &&& forall|i: int|
                0 <= i < drafted.0.len() ==> Ok::<Alarm, AlarmValidationError>(
                    #[trigger] drafted.0[i],
                ) == data.alarms[i].alarm()
            &&& drafted.1 is None <==> updating && drafted.0 == data.original
            &&& drafted.1 matches Some(alarms) ==> alarms == drafted.0
        },
        (AlarmEditorView::ProtectedExisting).drafted(true) matches Ok(kept) && kept.1 is None,
        (AlarmEditorView::ProtectedExisting).drafted(false) is Err,
{
}

} // verus!
