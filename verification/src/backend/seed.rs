//! The calendars and events that the provider in memory starts with.

use super::mock::{all_permitted, calendar_views, full_permissions, source_views, MockBackend};
use crate::model::{
    event_views, Alarm, Availability, CalendarInfo, CalendarInfoView, CalendarPermissions,
    CalendarSource, CalendarSourceView, Event, EventView, InvitationStatus, RecurrenceFrequency,
    RecurrenceRule, RecurrenceRuleView, TimeZoneProvenance,
};
use crate::time::{
    local_or_utc, local_today, local_zone_name, may_be_today, read_as, was_zone, Date, Timestamp,
    WallTime,
};
use vstd::prelude::*;

verus! {

/// The tenth of September 2026, the first day of the all-day events.
pub const FIXTURE_DAY: i32 = 739_869;

/// When the timed events start.
#[derive(Clone, Copy, Debug, PartialEq, Eq, Structural)]
pub struct SeedStarts {
    pub standup: Timestamp,
    pub review: Timestamp,
    pub gym: Timestamp,
    pub planning: Timestamp,
    pub dinner: Timestamp,
}

impl SeedStarts {
    /// Whether the starts are those that a clock may show: at their hours, on a day and on the two
    /// that follow.
    pub open spec fn may_be_on(self, today: Date) -> bool {
        &&& read_as(hour_on(today, 0, 9), self.standup)
        &&& read_as(hour_on(today, 0, 13), self.review)
        &&& read_as(hour_on(today, 0, 18), self.gym)
        &&& read_as(hour_on(today, 1, 10), self.planning)
        &&& read_as(hour_on(today, 2, 19), self.dinner)
    }
}

/// An hour of the day some days after a date.
pub open spec fn hour_on(today: Date, days: int, hour: int) -> WallTime {
    WallTime { date: today.clamped_shift(days), second: (hour * 3_600) as u32 }
}

/// The permissions of a calendar that others own: its events may be changed.
pub open spec fn events_permitted() -> CalendarPermissions {
    CalendarPermissions {
        can_create_events: true,
        can_modify_events: true,
        can_modify_metadata: false,
        can_delete: false,
    }
}

/// The permissions of a calendar that can only be read.
pub open spec fn nothing_permitted() -> CalendarPermissions {
    CalendarPermissions {
        can_create_events: false,
        can_modify_events: false,
        can_modify_metadata: false,
        can_delete: false,
    }
}

fn event_permissions() -> (r: CalendarPermissions)
    ensures
        r == events_permitted(),
{
    CalendarPermissions {
        can_create_events: true,
        can_modify_events: true,
        can_modify_metadata: false,
        can_delete: false,
    }
}

/// The name of a weekday in three letters, Monday being the first.
pub open spec fn weekday_name(weekday: int) -> Seq<char> {
    if weekday == 0 {
        "Mon"@
    } else if weekday == 1 {
        "Tue"@
    } else if weekday == 2 {
        "Wed"@
    } else if weekday == 3 {
        "Thu"@
    } else if weekday == 4 {
        "Fri"@
    } else if weekday == 5 {
        "Sat"@
    } else {
        "Sun"@
    }
}

fn weekday_text(weekday: u32) -> (r: &'static str)
    ensures
        r@ == weekday_name(weekday as int),
{
    if weekday == 0 {
        "Mon"
    } else if weekday == 1 {
        "Tue"
    } else if weekday == 2 {
        "Wed"
    } else if weekday == 3 {
        "Thu"
    } else if weekday == 4 {
        "Fri"
    } else if weekday == 5 {
        "Sat"
    } else {
        "Sun"
    }
}

/// A timed event with nothing else to it.
pub open spec fn timed_seed(
    id: Seq<char>,
    calendar_id: Seq<char>,
    title: Seq<char>,
    start: Timestamp,
    minutes: int,
    time_zone: Seq<char>,
) -> EventView {
    EventView {
        id,
        provider_id: Some(id),
        series_id: None,
        calendar_id,
        title,
        start,
        end: start.shifted(minutes * 60),
        all_day: false,
        all_day_start_date: None,
        all_day_end_date_exclusive: None,
        location: Seq::empty(),
        notes: Seq::empty(),
        url: Seq::empty(),
        time_zone,
        time_zone_provenance: TimeZoneProvenance::ExplicitEvent,
        availability: Availability::Busy,
        organizer: None,
        attendees: Seq::empty(),
        alarms: Seq::empty(),
        recurrence: Seq::empty(),
        has_recurrence: false,
        is_detached: false,
        invitation_status: InvitationStatus::Unknown,
    }
}

/// An all-day event with nothing else to it. Its dates are known where they can be trusted.
pub open spec fn all_day_seed(
    id: Seq<char>,
    title: Seq<char>,
    start: Date,
    end: Date,
    trusted: bool,
) -> EventView {
    EventView {
        end: end.midnight(),
        all_day: true,
        all_day_start_date: if trusted {
            Some(start)
        } else {
            None
        },
        all_day_end_date_exclusive: if trusted {
            Some(end)
        } else {
            None
        },
        ..timed_seed(id, "personal"@, title, start.midnight(), 0, "Europe/Berlin"@)
    }
}

fn timed_event(
    id: &str,
    calendar_id: &str,
    title: &str,
    start: Timestamp,
    minutes: u16,
    time_zone: &str,
) -> (r: Event)
    ensures
        r@ == timed_seed(id@, calendar_id@, title@, start, minutes as int, time_zone@),
{
    let event = Event {
        id: id.to_owned(),
        provider_id: Some(id.to_owned()),
        series_id: None,
        calendar_id: calendar_id.to_owned(),
        title: title.to_owned(),
        start,
        end: start.plus_seconds(minutes as i64 * 60),
        all_day: false,
        all_day_start_date: None,
        all_day_end_date_exclusive: None,
        location: String::new(),
        notes: String::new(),
        url: String::new(),
        time_zone: time_zone.to_owned(),
        time_zone_provenance: TimeZoneProvenance::ExplicitEvent,
        availability: Availability::Busy,
        organizer: None,
        attendees: Vec::new(),
        alarms: Vec::new(),
        recurrence: Vec::new(),
        has_recurrence: false,
        is_detached: false,
        invitation_status: InvitationStatus::Unknown,
    };
    proof {
        assert(event@ =~= timed_seed(
            id@,
            calendar_id@,
            title@,
            start,
            minutes as int,
            time_zone@,
        ));
    }
    event
}

fn all_day_event(id: &str, title: &str, start: Date, end: Date, trusted: bool) -> (r: Event)
    ensures
        r@ == all_day_seed(id@, title@, start, end, trusted),
{
    let mut event = timed_event(id, "personal", title, start.utc_midnight(), 0, "Europe/Berlin");
    event.end = end.utc_midnight();
    event.all_day = true;
    if trusted {
        event.all_day_start_date = Some(start);
        event.all_day_end_date_exclusive = Some(end);
    }
    proof {
        assert(event@ =~= all_day_seed(id@, title@, start, end, trusted));
    }
    event
}

/// The daily meeting, which repeats every week on the weekday of `today`.
pub open spec fn standup_seed(today: Date, start: Timestamp, time_zone: Seq<char>) -> EventView {
    EventView {
        location: "Video call"@,
        alarms: seq![
            Alarm { relative_seconds: Some((-900) as i64), absolute_date: None, is_editable: true },
        ],
        recurrence: seq![
            RecurrenceRuleView {
                frequency: RecurrenceFrequency::Weekly,
                interval: 1,
                days_of_week: seq![weekday_name(today.weekday())],
                occurrence_count: None,
                end_date: None,
            },
        ],
        has_recurrence: true,
        ..timed_seed("mock-standup"@, "work"@, "Team stand-up"@, start, 30, time_zone)
    }
}

fn standup(today: Date, start: Timestamp, time_zone: &str) -> (r: Event)
    ensures
        r@ == standup_seed(today, start, time_zone@),
{
    let mut event = timed_event("mock-standup", "work", "Team stand-up", start, 30, time_zone);
    event.location = "Video call".to_owned();
    let offset: i64 = -900;
    let mut alarms: Vec<Alarm> = Vec::new();
    alarms.push(Alarm { relative_seconds: Some(offset), absolute_date: None, is_editable: true });
    event.alarms = alarms;
    let mut days_of_week: Vec<String> = Vec::new();
    days_of_week.push(weekday_text(today.days_from_monday()).to_owned());
    let rule = RecurrenceRule {
        frequency: RecurrenceFrequency::Weekly,
        interval: 1,
        days_of_week,
        occurrence_count: None,
        end_date: None,
    };
    let mut rules: Vec<RecurrenceRule> = Vec::new();
    rules.push(rule);
    event.recurrence = rules;
    event.has_recurrence = true;
    proof {
        let wanted = standup_seed(today, start, time_zone@);
        assert(event@.recurrence[0].days_of_week =~= wanted.recurrence[0].days_of_week);
        assert(event@.recurrence[0] =~= wanted.recurrence[0]);
        assert(event@.recurrence =~= wanted.recurrence);
        assert(event@.alarms =~= wanted.alarms);
        assert(event@ =~= wanted);
    }
    event
}

/// An all-day event whose instants are a day too early: its dates are what counts.
pub open spec fn shifted_seed() -> EventView {
    let day = Date { day: FIXTURE_DAY };
    EventView {
        start: Date { day: (FIXTURE_DAY - 1) as i32 }.midnight(),
        end: day.midnight(),
        ..all_day_seed(
            "mock-all-day-shifted"@,
            "Timezone-shifted all-day fixture"@,
            day,
            Date { day: (FIXTURE_DAY + 1) as i32 },
            true,
        )
    }
}

fn shifted_event() -> (r: Event)
    ensures
        r@ == shifted_seed(),
{
    let day = Date { day: FIXTURE_DAY };
    let mut event = all_day_event(
        "mock-all-day-shifted",
        "Timezone-shifted all-day fixture",
        day,
        Date { day: FIXTURE_DAY + 1 },
        true,
    );
    event.start = Date { day: FIXTURE_DAY - 1 }.utc_midnight();
    event.end = day.utc_midnight();
    proof {
        assert(event@ =~= shifted_seed());
    }
    event
}

/// The events that there are at first.
pub open spec fn seeded_events(today: Date, starts: SeedStarts, time_zone: Seq<char>) -> Seq<
    EventView,
> {
    seq![
        standup_seed(today, starts.standup, time_zone),
        timed_seed("mock-review"@, "work"@, "Architecture review"@, starts.review, 60, time_zone),
        timed_seed("mock-gym"@, "personal"@, "Gym"@, starts.gym, 90, time_zone),
        timed_seed("mock-planning"@, "work"@, "Project planning"@, starts.planning, 60, time_zone),
        timed_seed("mock-dinner"@, "personal"@, "Dinner with friends"@, starts.dinner, 120, time_zone),
        all_day_seed("mock-all-day-one"@, "All-day fixture"@, Date { day: FIXTURE_DAY }, Date { day: (FIXTURE_DAY + 1) as i32 }, true),
        all_day_seed("mock-all-day-multi"@, "Multi-day fixture"@, Date { day: FIXTURE_DAY }, Date { day: (FIXTURE_DAY + 3) as i32 }, true),
        all_day_seed("mock-all-day-legacy"@, "Legacy all-day fixture"@, Date { day: (FIXTURE_DAY + 5) as i32 }, Date { day: (FIXTURE_DAY + 6) as i32 }, false),
        shifted_seed(),
    ]
}

fn first_events(today: Date, starts: SeedStarts, time_zone: &str) -> (r: Vec<Event>)
    ensures
        event_views(r@) == seeded_events(today, starts, time_zone@),
{
    let mut r: Vec<Event> = Vec::new();
    r.push(standup(today, starts.standup, time_zone));
    r.push(timed_event("mock-review", "work", "Architecture review", starts.review, 60, time_zone));
    r.push(timed_event("mock-gym", "personal", "Gym", starts.gym, 90, time_zone));
    r.push(timed_event("mock-planning", "work", "Project planning", starts.planning, 60, time_zone));
    r.push(timed_event("mock-dinner", "personal", "Dinner with friends", starts.dinner, 120, time_zone));
    r.push(all_day_event("mock-all-day-one", "All-day fixture", Date { day: FIXTURE_DAY }, Date { day: FIXTURE_DAY + 1 }, true));
    r.push(all_day_event("mock-all-day-multi", "Multi-day fixture", Date { day: FIXTURE_DAY }, Date { day: FIXTURE_DAY + 3 }, true));
    r.push(all_day_event("mock-all-day-legacy", "Legacy all-day fixture", Date { day: FIXTURE_DAY + 5 }, Date { day: FIXTURE_DAY + 6 }, false));
    r.push(shifted_event());
    proof {
        assert(event_views(r@) =~= seeded_events(today, starts, time_zone@));
    }
    r
}

/// The calendars that there are at first.
pub open spec fn seeded_calendars() -> Seq<CalendarInfoView> {
    seq![
        CalendarInfoView {
            id: "work"@,
            source_id: "mock-work"@,
            permissions: all_permitted(),
            title: "Work"@,
            account: "Google Workspace"@,
            provider: "CalDAV"@,
            color: "#4C8DFF"@,
            is_writable: true,
            enabled: true,
        },
        CalendarInfoView {
            id: "personal"@,
            source_id: "mock-personal"@,
            permissions: all_permitted(),
            title: "Personal"@,
            account: "iCloud"@,
            provider: "iCloud"@,
            color: "#35C759"@,
            is_writable: true,
            enabled: true,
        },
        CalendarInfoView {
            id: "holidays"@,
            source_id: "mock-subscribed"@,
            permissions: nothing_permitted(),
            title: "Holidays"@,
            account: "Subscriptions"@,
            provider: "Subscribed"@,
            color: "#FF3B30"@,
            is_writable: false,
            enabled: true,
        },
        CalendarInfoView {
            id: "calendar-delete-test"@,
            source_id: "mock-local"@,
            permissions: all_permitted(),
            title: "Delete Test"@,
            account: "On My Mac"@,
            provider: "Local"@,
            color: "#8E8E93"@,
            is_writable: true,
            enabled: true,
        },
        CalendarInfoView {
            id: "shared"@,
            source_id: "mock-exchange"@,
            permissions: events_permitted(),
            title: "Shared Calendar"@,
            account: "Team Exchange"@,
            provider: "Exchange"@,
            color: "#AF52DE"@,
            is_writable: true,
            enabled: true,
        },
    ]
}

fn first_calendars() -> (r: Vec<CalendarInfo>)
    ensures
        calendar_views(r@) == seeded_calendars(),
{
    let mut r: Vec<CalendarInfo> = Vec::new();
    r.push(
        CalendarInfo {
            id: "work".to_owned(),
            source_id: "mock-work".to_owned(),
            permissions: full_permissions(),
            title: "Work".to_owned(),
            account: "Google Workspace".to_owned(),
            provider: "CalDAV".to_owned(),
            color: "#4C8DFF".to_owned(),
            is_writable: true,
            enabled: true,
        },
    );
    r.push(
        CalendarInfo {
            id: "personal".to_owned(),
            source_id: "mock-personal".to_owned(),
            permissions: full_permissions(),
            title: "Personal".to_owned(),
            account: "iCloud".to_owned(),
            provider: "iCloud".to_owned(),
            color: "#35C759".to_owned(),
            is_writable: true,
            enabled: true,
        },
    );
    r.push(
        CalendarInfo {
            id: "holidays".to_owned(),
            source_id: "mock-subscribed".to_owned(),
            permissions: CalendarPermissions::default(),
            title: "Holidays".to_owned(),
            account: "Subscriptions".to_owned(),
            provider: "Subscribed".to_owned(),
            color: "#FF3B30".to_owned(),
            is_writable: false,
            enabled: true,
        },
    );
    r.push(
        CalendarInfo {
            id: "calendar-delete-test".to_owned(),
            source_id: "mock-local".to_owned(),
            permissions: full_permissions(),
            title: "Delete Test".to_owned(),
            account: "On My Mac".to_owned(),
            provider: "Local".to_owned(),
            color: "#8E8E93".to_owned(),
            is_writable: true,
            enabled: true,
        },
    );
    r.push(
        CalendarInfo {
            id: "shared".to_owned(),
            source_id: "mock-exchange".to_owned(),
            permissions: event_permissions(),
            title: "Shared Calendar".to_owned(),
            account: "Team Exchange".to_owned(),
            provider: "Exchange".to_owned(),
            color: "#AF52DE".to_owned(),
            is_writable: true,
            enabled: true,
        },
    );
    proof {
        let wanted = seeded_calendars();
        assert(r@[0]@ =~= wanted[0]);
        assert(r@[1]@ =~= wanted[1]);
        assert(r@[2]@ =~= wanted[2]);
        assert(r@[3]@ =~= wanted[3]);
        assert(r@[4]@ =~= wanted[4]);
        assert(calendar_views(r@) =~= wanted);
    }
    r
}

/// The sources of the calendars.
pub open spec fn sources() -> Seq<CalendarSourceView> {
    seq![
        CalendarSourceView {
            id: "mock-work"@,
            title: "Google Workspace"@,
            source_type: "caldav"@,
            is_writable: true,
        },
        CalendarSourceView {
            id: "mock-personal"@,
            title: "iCloud"@,
            source_type: "icloud"@,
            is_writable: true,
        },
        CalendarSourceView {
            id: "mock-subscribed"@,
            title: "Subscriptions"@,
            source_type: "subscribed"@,
            is_writable: false,
        },
        CalendarSourceView {
            id: "mock-local"@,
            title: "On My Mac"@,
            source_type: "local"@,
            is_writable: true,
        },
        CalendarSourceView {
            id: "mock-exchange"@,
            title: "Team Exchange"@,
            source_type: "exchange"@,
            is_writable: true,
        },
        CalendarSourceView {
            id: "mock-denied"@,
            title: "Restricted Account"@,
            source_type: "other"@,
            is_writable: false,
        },
    ]
}

fn source(id: &str, title: &str, source_type: &str, is_writable: bool) -> (r: CalendarSource)
    ensures
        r@ == (CalendarSourceView { id: id@, title: title@, source_type: source_type@, is_writable }),
{
    CalendarSource {
        id: id.to_owned(),
        title: title.to_owned(),
        source_type: source_type.to_owned(),
        is_writable,
    }
}

impl MockBackend {
    /// The sources of the calendars.
    pub fn calendar_sources(&self) -> (r: Vec<CalendarSource>)
        ensures
            source_views(r@) == sources(),
    {
        let mut r: Vec<CalendarSource> = Vec::new();
        r.push(source("mock-work", "Google Workspace", "caldav", true));
        r.push(source("mock-personal", "iCloud", "icloud", true));
        r.push(source("mock-subscribed", "Subscriptions", "subscribed", false));
        r.push(source("mock-local", "On My Mac", "local", true));
        r.push(source("mock-exchange", "Team Exchange", "exchange", true));
        r.push(source("mock-denied", "Restricted Account", "other", false));
        proof {
            assert(source_views(r@) =~= sources());
        }
        r
    }

    /// Whether a provider holds the first calendars and events, for a day, the events' starts and a
    /// time zone, and has not been asked anything.
    pub open spec fn is_seeded(self, today: Date, starts: SeedStarts, time_zone: Seq<char>) -> bool {
        &&& calendar_views(self.calendars@) == seeded_calendars()
        &&& event_views(self.events@) == seeded_events(today, starts, time_zone)
        &&& self.last_created_time is None
        &&& self.last_updated_time is None
        &&& self.last_update_time_mutation is None
        &&& self.last_update_span is None
        &&& self.last_delete_span is None
    }

    /// A provider with the first calendars and events.
    pub fn seeded_on(today: Date, starts: SeedStarts, time_zone: &str) -> (r: Self)
        ensures
            r.is_seeded(today, starts, time_zone@),
    {
        let mut r = MockBackend::empty();
        r.calendars = first_calendars();
        r.events = first_events(today, starts, time_zone);
        r
    }

    /// A provider with the first calendars and events, on the machine's date and in its time zone.
    pub fn seeded() -> (r: Self)
        ensures
            exists|today: Date, starts: SeedStarts, time_zone: Seq<char>|
                may_be_today(today) && starts.may_be_on(today) && was_zone(time_zone) && #[trigger] r.is_seeded(
                    today,
                    starts,
                    time_zone,
                ),
    {
        let today = local_today();
        let starts = SeedStarts {
            standup: local_hour(today, 0, 9),
            review: local_hour(today, 0, 13),
            gym: local_hour(today, 0, 18),
            planning: local_hour(today, 1, 10),
            dinner: local_hour(today, 2, 19),
        };
        let zone = local_zone_name();
        let r = MockBackend::seeded_on(today, starts, zone.as_str());
        proof {
            assert(r.is_seeded(today, starts, zone@));
        }
        r
    }
}

impl Default for MockBackend {
    fn default() -> (r: Self)
        ensures
            exists|today: Date, starts: SeedStarts, time_zone: Seq<char>|
                may_be_today(today) && starts.may_be_on(today) && was_zone(time_zone) && #[trigger] r.is_seeded(
                    today,
                    starts,
                    time_zone,
                ),
    {
        MockBackend::seeded()
    }
}

/// The instant at which an hour starts on the machine's clock, some days after a date. Where the
/// clock does not show the hour exactly once, the hour is taken in UTC.
fn local_hour(today: Date, days: i32, hour: u32) -> (r: Timestamp)
    requires
        hour < 24,
    ensures
        read_as(hour_on(today, days as int, hour as int), r),
{
    let at = WallTime { date: today.saturating_plus(days), second: hour * 3_600 };
    local_or_utc(at)
}

} // verus!
