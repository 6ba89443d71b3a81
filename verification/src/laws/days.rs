//! What holds of the days of events, of the columns they are drawn in, of the ranges that are asked
//! for, and of the events that there are at first.

use crate::app::editing::first_writable;
use crate::app::shown::selected_among;
use crate::app::{App, View, VisibleRangeState};
use crate::backend::mock::MockBackend;
use crate::backend::seed::SeedStarts;
use crate::layout::{
    all_last, group_end, group_layout, layout_from, placed, starts_in_order, TimelineItem,
};
use crate::model::{
    event_views, CalendarInfo, Event, RangePriority, RangeRequest, RecurrenceFrequency,
};
use crate::paths::{counts, end_before, last_end, name_start, parent_path, path_below};
use crate::search::EventDays;
use crate::seqs::lemma_first_from;
use crate::time::{read_as, showed, Date, Timestamp, WallTime};
use vstd::prelude::*;
use vstd::view::View as _;

verus! {

/// An all-day event lasts from its first date to the day before the one that it ends on. Any other
/// lasts from the day that the clock shows at its start to the one that it shows at its last
/// instant, so an event that ends at midnight does not last into the next day.
pub proof fn law_days_of_events(event: Event, days: EventDays)
    requires
        event.may_last(days),
    ensures
        event.date_range() matches Some(dates) ==> days.first == dates.0 && days.last.day == dates.1.day
            - 1,
        event.date_range() is None ==> exists|shown: WallTime| #[trigger]
            showed(event.start, shown) && shown.date == days.first,
        event.date_range() is None && event.start.nanos < event.end.nanos ==> exists|shown: WallTime|
            #[trigger]
            showed(Timestamp { nanos: (event.end.nanos - 1) as i128 }, shown) && shown.date
                == days.last,
{
}

/// The dates of an all-day event count where both are known and the second is after the first.
pub proof fn law_known_dates(event: Event, first: Date, end: Date)
    ensures
        event.date_range() == Some((first, end)) <==> event.all_day && event.all_day_start_date
            == Some(first) && event.all_day_end_date_exclusive == Some(end) && first.day < end.day,
{
}

/// Whether two items take place at one minute.
pub open spec fn overlap(a: TimelineItem, b: TimelineItem) -> bool {
    a.start_minute < b.end_minute && b.start_minute < a.end_minute
}

proof fn lemma_lone(s: Seq<TimelineItem>, from: int, p: int)
    requires
        0 <= from <= p < s.len(),
        all_last(s),
        starts_in_order(s),
        forall|j: int| 0 <= j < s.len() && j != p ==> !overlap(#[trigger] s[j], s[p]),
    ensures
        p - from < layout_from(s, from).len(),
        layout_from(s, from)[p - from].columns == 1,
        layout_from(s, from)[p - from].column == 0,
        layout_from(s, from)[p - from].event_index == s[p].event_index,
    decreases s.len() - from,
{
    let to = group_end(s, from + 1, s[from].end_minute as int);
    lemma_group(s, from, from + 1, s[from].end_minute as int, p);
    let group = s.subrange(from, to);
    if p == from {
        assert(to == from + 1);
        assert(group.drop_last() =~= Seq::<TimelineItem>::empty());
        assert(placed(group.drop_last()).1.len() == 0);
        assert(placed(group).0[0] == 0 && placed(group).1.len() == 1);
        assert(layout_from(s, from)[0] == group_layout(group)[0]);
    } else {
        assert(to <= p);
        lemma_lone(s, to, p);
        assert(layout_from(s, from)[p - from] == layout_from(s, to)[p - to]);
    }
}

proof fn lemma_group(s: Seq<TimelineItem>, first: int, from: int, furthest: int, p: int)
    requires
        0 <= first < from <= s.len(),
        first <= p < s.len(),
        all_last(s),
        starts_in_order(s),
        forall|j: int| 0 <= j < s.len() && j != p ==> !overlap(#[trigger] s[j], s[p]),
        exists|j: int| first <= j < from && (#[trigger] s[j]).end_minute == furthest,
        forall|j: int| first <= j < from ==> (#[trigger] s[j]).end_minute <= furthest,
        p > first ==> from <= p,
        p == first ==> from == first + 1,
    ensures
        from <= group_end(s, from, furthest) <= s.len(),
        p > first ==> group_end(s, from, furthest) <= p,
        p == first ==> group_end(s, from, furthest) == from,
    decreases s.len() - from,
{
    if from < s.len() && s[from].start_minute < furthest {
        let j = choose|j: int| first <= j < from && (#[trigger] s[j]).end_minute == furthest;
        assert(s[j].start_minute <= s[from].start_minute);
        if from == p {
            assert(overlap(s[j], s[p]));
        }
        if p == first {
            assert(j == p);
            assert(overlap(s[from], s[p]));
        }
        let next = if s[from].end_minute > furthest {
            s[from].end_minute as int
        } else {
            furthest
        };
        assert(s[from].end_minute == next || s[j].end_minute == next);
        lemma_group(s, first, from + 1, next, p);
    }
}

/// An item that overlaps no other takes the whole width: it stands in the only column of its group.
pub proof fn law_lone_items_take_the_width(s: Seq<TimelineItem>, p: int)
    requires
        0 <= p < s.len(),
        all_last(s),
        starts_in_order(s),
        forall|j: int| 0 <= j < s.len() && j != p ==> !overlap(#[trigger] s[j], s[p]),
    ensures
        p < layout_from(s, 0).len(),
        layout_from(s, 0)[p].columns == 1,
        layout_from(s, 0)[p].column == 0,
        layout_from(s, 0)[p].event_index == s[p].event_index,
{
    lemma_lone(s, 0, p);
}

/// What is asked for are the dates that the view shows, under a number of its own, as the user
/// waits for it.
pub proof fn law_asked_ranges(app: App, request: RangeRequest)
    requires
        app.is_range_request(request),
    ensures
        request.all_day_range matches Some(dates) && dates.start_date == app.window().0
            && dates.end_date_exclusive == app.window().1,
        request.id == app.visible_range_request_id,
        request.priority == RangePriority::Interactive,
{
}

/// A new event goes to the first calendar in the list that can be written to.
pub proof fn law_first_writable(calendars: Seq<CalendarInfo>)
    ensures
        match first_writable(calendars) {
            Some(i) => 0 <= i < calendars.len() && calendars[i].is_writable && forall|j: int|
                0 <= j < i ==> !(#[trigger] calendars[j]).is_writable,
            None => forall|i: int| 0 <= i < calendars.len() ==> !(#[trigger] calendars[i]).is_writable,
        },
{
    let p = |calendar: CalendarInfo| calendar.is_writable;
    lemma_first_from(calendars, p, 0);
    assert forall|j: int| 0 <= j < calendars.len() implies #[trigger] p(calendars[j])
        == calendars[j].is_writable by {}
}

/// The first events: each lasts as long as it is said to from its own start, in a calendar that can
/// be written to; the stand-up comes round every week.
pub proof fn law_first_events(today: Date, starts: SeedStarts, zone: &str, r: MockBackend)
    requires
        call_ensures(MockBackend::seeded_on, (today, starts, zone), r),
        starts.standup.nanos <= i128::MAX - 7_200_000_000_000,
        starts.review.nanos <= i128::MAX - 7_200_000_000_000,
        starts.gym.nanos <= i128::MAX - 7_200_000_000_000,
        starts.planning.nanos <= i128::MAX - 7_200_000_000_000,
        starts.dinner.nanos <= i128::MAX - 7_200_000_000_000,
    ensures
        r.events@.len() == 9,
        r.calendars@.len() == 5,
        ({
            let events = event_views(r.events@);
            let minute = 60 * 1_000_000_000int;
            &&& events[0].title == "Team stand-up"@ && events[0].start == starts.standup
                && events[0].end.nanos - events[0].start.nanos == 30 * minute
                && events[0].has_recurrence && events[0].recurrence.len() == 1
                && events[0].recurrence[0].frequency == RecurrenceFrequency::Weekly
            &&& events[1].title == "Architecture review"@ && events[1].start == starts.review
                && events[1].end.nanos - events[1].start.nanos == 60 * minute
            &&& events[2].title == "Gym"@ && events[2].start == starts.gym && events[2].end.nanos
                - events[2].start.nanos == 90 * minute
            &&& events[3].title == "Project planning"@ && events[3].start == starts.planning
                && events[3].end.nanos - events[3].start.nanos == 60 * minute
            &&& events[4].title == "Dinner with friends"@ && events[4].start == starts.dinner
                && events[4].end.nanos - events[4].start.nanos == 120 * minute
            &&& forall|i: int| 0 <= i < 5 ==> !(#[trigger] events[i]).all_day
            &&& forall|i: int| 5 <= i < 9 ==> (#[trigger] events[i]).all_day
        }),
        r.calendars@[0].is_writable && r.calendars@[1].is_writable && !r.calendars@[2].is_writable,
{
    let events = event_views(r.events@);
    let calendars = crate::backend::mock::calendar_views(r.calendars@);
    assert(events.len() == r.events@.len());
    assert(calendars.len() == r.calendars@.len());
    assert(calendars[0] == r.calendars@[0]@);
    assert(calendars[1] == r.calendars@[1]@);
    assert(calendars[2] == r.calendars@[2]@);
}

/// The first events begin at nine, thirteen and eighteen today, at ten tomorrow and at nineteen the
/// day after, as the clock shows them.
pub proof fn law_first_starts(starts: SeedStarts, today: Date)
    requires
        starts.may_be_on(today),
    ensures
        read_as(
            WallTime { date: today.clamped_shift(0), second: (9 * 3_600) as u32 },
            starts.standup,
        ),
        read_as(
            WallTime { date: today.clamped_shift(0), second: (13 * 3_600) as u32 },
            starts.review,
        ),
        read_as(
            WallTime { date: today.clamped_shift(0), second: (18 * 3_600) as u32 },
            starts.gym,
        ),
        read_as(
            WallTime { date: today.clamped_shift(1), second: (10 * 3_600) as u32 },
            starts.planning,
        ),
        read_as(
            WallTime { date: today.clamped_shift(2), second: (19 * 3_600) as u32 },
            starts.dinner,
        ),
{
}

proof fn lemma_name(path: Seq<char>, from: int, end: int, start: int)
    requires
        0 <= from <= start <= end <= path.len(),
        forall|i: int| start <= i < end ==> path[i] != '/',
        start == from || path[start - 1] == '/',
    ensures
        name_start(path, from, end) == start,
    decreases end - start,
{
    if end > start {
        lemma_name(path, from, end - 1, start);
    }
}

/// The directory of a name below a directory is that directory: of a path from the root whose last
/// part is a name, and a name without a slash.
pub proof fn law_parents(path: Seq<char>, name: Seq<char>, slash: int)
    requires
        path.len() > 1,
        path[0] == '/',
        0 <= slash < path.len() - 1,
        path[slash] == '/',
        forall|i: int| slash < i < path.len() ==> path[i] != '/' && path[i] != '.',
        name.len() > 0,
        forall|i: int| 0 <= i < name.len() ==> name[i] != '/' && name[i] != '.',
    ensures
        parent_path(path_below(path, name)) == Some(path),
{
    reveal_strlit("/");
    assert("/"@ =~= seq!['/']);
    let n = path.len() as int;
    let whole = path_below(path, name);
    assert(whole == path + "/"@ + name);
    assert(whole.len() == n + 1 + name.len());
    assert(whole[n] == '/');
    assert forall|i: int| n + 1 <= i < whole.len() implies whole[i] != '/' && whole[i] != '.' by {
        assert(whole[i] == name[i - n - 1]);
    }
    assert forall|i: int| 0 <= i < n implies whole[i] == path[i] by {}
    let end = whole.len() as int;
    lemma_name(whole, 1, end, n + 1);
    assert(counts(whole, n + 1, end)) by {
        assert(whole[n + 1] != '.');
    }
    assert(last_end(whole, 1, end) == end);
    assert(end_before(1, n + 1) == n);
    let start = if slash == 0 {
        1
    } else {
        slash + 1
    };
    assert forall|i: int| start <= i < n implies whole[i] != '/' by {
        assert(whole[i] == path[i]);
    }
    lemma_name(whole, 1, n, start);
    assert(counts(whole, start, n)) by {
        assert(whole[start] == path[start]);
    }
    assert(last_end(whole, 1, n) == n);
    assert(whole.take(n) =~= path);
}

/// A range that is asked for gets a number of its own, other than the last one and never zero, and
/// counts as loading until it is answered.
pub proof fn law_ranges_are_numbered(app: App, last: u64, request: RangeRequest)
    requires
        app.is_loading(last, request),
    ensures
        request.id == app.visible_range_request_id,
        request.id != last,
        request.id != 0,
        last < u64::MAX ==> request.id == last + 1,
        app.visible_range == Some(request),
        app.visible_range_state == VisibleRangeState::Loading,
{
}

/// The selected event is the one at the selected place among those shown; in the month only where
/// it takes place on the date that is shown.
pub proof fn law_selected_place(
    list: Seq<int>,
    place: int,
    view: View,
    active: Date,
    days: Seq<EventDays>,
)
    ensures
        !(0 <= place < list.len()) ==> selected_among(list, place, view, active, days) is None,
        0 <= place < list.len() && view != View::Month ==> selected_among(
            list,
            place,
            view,
            active,
            days,
        ) == Some(list[place]),
        0 <= place < list.len() && view == View::Month ==> selected_among(
            list,
            place,
            view,
            active,
            days,
        ) == (if days[list[place]].first.day <= active.day <= days[list[place]].last.day {
            Some(list[place])
        } else {
            None
        }),
{
}

} // verus!
