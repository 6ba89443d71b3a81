//! The calendar's data: events, drafts, calendars, and the requests about them.

use crate::seqs::{first_from, first_where, lemma_first_from};
use crate::text::{opt_view, same_text, texts};
use crate::time::{local_or_utc, local_zone_name, read_as, was_zone, Date, Timestamp, WallTime};
use vstd::prelude::*;

verus! {

/// What the user lets the calendar read.
#[derive(Clone, Copy, Debug, PartialEq, Eq, Structural)]
pub enum AuthorizationStatus {
    NotDetermined,
    Restricted,
    Denied,
    WriteOnly,
    FullAccess,
}

/// How an event counts when others look for free time.
#[derive(Clone, Copy, Debug, PartialEq, Eq, Structural)]
pub enum Availability {
    Busy,
    Free,
    Tentative,
    Unavailable,
}

impl Availability {
    /// The word for the availability.
    pub open spec fn text(self) -> Seq<char> {
        match self {
            Availability::Busy => "Busy"@,
            Availability::Free => "Free"@,
            Availability::Tentative => "Tentative"@,
            Availability::Unavailable => "Unavailable"@,
        }
    }

    /// The word for the availability.
    pub fn label(self) -> (r: &'static str)
        ensures
            r@ == self.text(),
    {
        match self {
            Availability::Busy => "Busy",
            Availability::Free => "Free",
            Availability::Tentative => "Tentative",
            Availability::Unavailable => "Unavailable",
        }
    }
}

/// Where an event's time zone comes from.
#[derive(Clone, Copy, Debug, PartialEq, Eq, Structural)]
pub enum TimeZoneProvenance {
    ExplicitEvent,
    HelperFallback,
    Unknown,
}

/// How someone has answered an invitation.
#[derive(Clone, Copy, Debug, PartialEq, Eq, Structural)]
pub enum InvitationStatus {
    Unknown,
    Accepted,
    Declined,
    Tentative,
    Pending,
}

/// An answer to an invitation.
#[derive(Clone, Copy, Debug, PartialEq, Eq, Structural)]
pub enum InvitationResponse {
    Accept,
    Decline,
    Maybe,
}

/// The unit in which an event repeats.
#[derive(Clone, Copy, Debug, PartialEq, Eq, Structural)]
pub enum RecurrenceFrequency {
    Daily,
    Weekly,
    Monthly,
    Yearly,
}

/// Which occurrences of a series a provider is to change.
#[derive(Clone, Copy, Debug, PartialEq, Eq, Structural)]
pub enum EventSpan {
    ThisEvent,
    FutureEvents,
}

/// Which occurrences of a series the user chose to change.
#[derive(Clone, Copy, Debug, PartialEq, Eq, Structural)]
pub enum RecurrenceMutationScope {
    ThisEvent,
    FutureEvents,
}

/// A reminder: at an offset from the event's start, or at an instant.
#[derive(Clone, Copy, Debug, PartialEq, Eq, Structural)]
pub struct Alarm {
    /// The offset in seconds; negative before the event.
    pub relative_seconds: Option<i64>,
    pub absolute_date: Option<Timestamp>,
    pub is_editable: bool,
}

/// What may be done to a calendar.
#[derive(Clone, Copy, Debug, PartialEq, Eq, Structural)]
pub struct CalendarPermissions {
    pub can_create_events: bool,
    pub can_modify_events: bool,
    pub can_modify_metadata: bool,
    pub can_delete: bool,
}

impl Default for CalendarPermissions {
    fn default() -> (r: Self)
        ensures
            !r.can_create_events,
            !r.can_modify_events,
            !r.can_modify_metadata,
            !r.can_delete,
    {
        CalendarPermissions {
            can_create_events: false,
            can_modify_events: false,
            can_modify_metadata: false,
            can_delete: false,
        }
    }
}

/// What a provider can do with calendars.
#[derive(Clone, Copy, Debug, PartialEq, Eq, Structural)]
pub struct CalendarCapabilities {
    pub can_list_sources: bool,
    pub can_create: bool,
    pub can_update: bool,
    pub can_delete: bool,
    pub can_change_color: bool,
}

impl Default for CalendarCapabilities {
    fn default() -> (r: Self)
        ensures
            !r.can_list_sources,
            !r.can_create,
            !r.can_update,
            !r.can_delete,
            !r.can_change_color,
    {
        CalendarCapabilities {
            can_list_sources: false,
            can_create: false,
            can_update: false,
            can_delete: false,
            can_change_color: false,
        }
    }
}

/// Why a provider refused an operation on a calendar.
#[derive(Clone, Copy, Debug, PartialEq, Eq, Structural)]
pub enum CalendarError {
    InvalidTitle,
    InvalidColor,
    SourceNotFound,
    PermissionDenied,
    Unsupported,
    SourceUnavailable,
    NotFound,
    CannotModifyMetadata,
    CannotDelete,
    ReadOnly,
    Internal,
}

/// Dates from a first day to before a last one.
#[derive(Clone, Copy, Debug, PartialEq, Eq, Structural)]
pub struct CalendarDateRange {
    pub start_date: Date,
    pub end_date_exclusive: Date,
}

/// Instants from a first one to before a last one.
#[derive(Clone, Copy, Debug, PartialEq, Eq, Structural)]
pub struct InstantRange {
    pub start: Timestamp,
    pub end: Timestamp,
}

/// What to fetch: timed events by instants, all-day events by dates where they are given.
#[derive(Clone, Copy, Debug, PartialEq, Eq, Structural)]
pub struct FetchRequest {
    pub instant_range: InstantRange,
    pub all_day_range: Option<CalendarDateRange>,
}

/// When an event is to take place. All-day events are dates without a time zone; where only the
/// instants of an all-day event are known, its dates are not.
#[derive(Clone, Copy, Debug, PartialEq, Eq, Structural)]
pub enum EventTimeInput {
    Timed { start: Timestamp, end: Timestamp },
    AllDay { start_date: Date, end_date_exclusive: Date },
    LegacyAllDayUnknown { start: Timestamp, end: Timestamp },
}

impl EventTimeInput {
    /// A timed event from `start` to `end`.
    pub fn timed(start: Timestamp, end: Timestamp) -> (r: Result<EventTimeInput, String>)
        ensures
            r is Ok <==> start.nanos < end.nanos,
            r matches Ok(time) ==> time == (EventTimeInput::Timed { start, end }),
            r matches Err(error) ==> error@ == "End must be after start"@,
    {
        if end.nanos <= start.nanos {
            return Err("End must be after start".to_owned());
        }
        Ok(EventTimeInput::Timed { start, end })
    }

    /// An all-day event from `start_date` to before `end_date_exclusive`.
    pub fn all_day(start_date: Date, end_date_exclusive: Date) -> (r: Result<
        EventTimeInput,
        String,
    >)
        ensures
            r is Ok <==> start_date.day < end_date_exclusive.day,
            r matches Ok(time) ==> time == (EventTimeInput::AllDay {
                start_date,
                end_date_exclusive,
            }),
            r matches Err(error) ==> error@ == "End must be after start"@,
    {
        if end_date_exclusive.day <= start_date.day {
            return Err("End must be after start".to_owned());
        }
        Ok(EventTimeInput::AllDay { start_date, end_date_exclusive })
    }

    /// An all-day event whose dates are not known.
    pub fn legacy_all_day_unknown(start: Timestamp, end: Timestamp) -> (r: Result<
        EventTimeInput,
        String,
    >)
        ensures
            r is Ok <==> start.nanos < end.nanos,
            r matches Ok(time) ==> time == (EventTimeInput::LegacyAllDayUnknown { start, end }),
            r matches Err(error) ==> error@ == "End must be after start"@,
    {
        if end.nanos <= start.nanos {
            return Err("End must be after start".to_owned());
        }
        Ok(EventTimeInput::LegacyAllDayUnknown { start, end })
    }

    /// The instants of a timed event.
    pub open spec fn timed_range(self) -> Option<(Timestamp, Timestamp)> {
        match self {
            EventTimeInput::Timed { start, end } => Some((start, end)),
            _ => None,
        }
    }

    /// The instants of a timed event.
    pub fn as_timed_range(&self) -> (r: Option<(Timestamp, Timestamp)>)
        ensures
            r == self.timed_range(),
    {
        match self {
            EventTimeInput::Timed { start, end } => Some((*start, *end)),
            _ => None,
        }
    }

    /// The dates of an all-day event.
    pub open spec fn all_day_range(self) -> Option<(Date, Date)> {
        match self {
            EventTimeInput::AllDay { start_date, end_date_exclusive } => Some(
                (start_date, end_date_exclusive),
            ),
            _ => None,
        }
    }

    /// The dates of an all-day event.
    pub fn as_all_day_range(&self) -> (r: Option<(Date, Date)>)
        ensures
            r == self.all_day_range(),
    {
        match self {
            EventTimeInput::AllDay { start_date, end_date_exclusive } => Some(
                (*start_date, *end_date_exclusive),
            ),
            _ => None,
        }
    }
}

/// What an update does to an event's time.
#[derive(Clone, Copy, Debug, PartialEq, Eq, Structural)]
pub enum EventTimeMutation {
    Preserve,
    ReplaceAllDay { start_date: Date, end_date_exclusive: Date },
    ReplaceLegacy,
}

pub open spec fn attendee_views(s: Seq<Attendee>) -> Seq<AttendeeView> {
    s.map_values(|a: Attendee| a@)
}

pub open spec fn rule_views(s: Seq<RecurrenceRule>) -> Seq<RecurrenceRuleView> {
    s.map_values(|rule: RecurrenceRule| rule@)
}

pub open spec fn event_views(s: Seq<Event>) -> Seq<EventView> {
    s.map_values(|event: Event| event@)
}

pub fn clone_texts(v: &Vec<String>) -> (r: Vec<String>)
    ensures
        r@ == v@,
{
    let r = v.clone();
    proof {
        assert(r@ =~= v@);
    }
    r
}

pub fn clone_alarms(v: &Vec<Alarm>) -> (r: Vec<Alarm>)
    ensures
        r@ == v@,
{
    let r = v.clone();
    proof {
        assert(r@ =~= v@);
    }
    r
}

pub fn clone_attendees(v: &Vec<Attendee>) -> (r: Vec<Attendee>)
    ensures
        r@ == v@,
{
    let r = v.clone();
    proof {
        assert(r@ =~= v@);
    }
    r
}

pub fn clone_rules(v: &Vec<RecurrenceRule>) -> (r: Vec<RecurrenceRule>)
    ensures
        rule_views(r@) == rule_views(v@),
{
    let r = v.clone();
    proof {
        assert(rule_views(r@) =~= rule_views(v@));
    }
    r
}

/// Someone who was asked to an event.
#[derive(Debug, PartialEq, Eq)]
pub struct Attendee {
    pub name: String,
    pub email: String,
    pub status: InvitationStatus,
    pub is_current_user: bool,
    pub role: String,
    pub participant_type: String,
    pub schedule_status: String,
}

/// What the contents of an attendee are, as values of mathematics.
#[verifier::ext_equal]
pub ghost struct AttendeeView {
    pub name: Seq<char>,
    pub email: Seq<char>,
    pub status: InvitationStatus,
    pub is_current_user: bool,
    pub role: Seq<char>,
    pub participant_type: Seq<char>,
    pub schedule_status: Seq<char>,
}

impl View for Attendee {
    type V = AttendeeView;

    open spec fn view(&self) -> AttendeeView {
        AttendeeView {
            name: self.name@,
            email: self.email@,
            status: self.status,
            is_current_user: self.is_current_user,
            role: self.role@,
            participant_type: self.participant_type@,
            schedule_status: self.schedule_status@,
        }
    }
}

impl Clone for Attendee {
    fn clone(&self) -> (r: Self)
        ensures
            r == *self,
            r@ == self@,
    {
        Attendee {
            name: self.name.clone(),
            email: self.email.clone(),
            status: self.status,
            is_current_user: self.is_current_user,
            role: self.role.clone(),
            participant_type: self.participant_type.clone(),
            schedule_status: self.schedule_status.clone(),
        }
    }
}

/// How an event repeats.
#[derive(Debug, PartialEq, Eq)]
pub struct RecurrenceRule {
    pub frequency: RecurrenceFrequency,
    pub interval: u32,
    pub days_of_week: Vec<String>,
    pub occurrence_count: Option<u32>,
    pub end_date: Option<Timestamp>,
}

/// What the contents of a rule are, as values of mathematics.
#[verifier::ext_equal]
pub ghost struct RecurrenceRuleView {
    pub frequency: RecurrenceFrequency,
    pub interval: u32,
    pub days_of_week: Seq<Seq<char>>,
    pub occurrence_count: Option<u32>,
    pub end_date: Option<Timestamp>,
}

impl View for RecurrenceRule {
    type V = RecurrenceRuleView;

    open spec fn view(&self) -> RecurrenceRuleView {
        RecurrenceRuleView {
            frequency: self.frequency,
            interval: self.interval,
            days_of_week: texts(self.days_of_week@),
            occurrence_count: self.occurrence_count,
            end_date: self.end_date,
        }
    }
}

impl Clone for RecurrenceRule {
    fn clone(&self) -> (r: Self)
        ensures
            r@ == self@,
    {
        RecurrenceRule {
            frequency: self.frequency,
            interval: self.interval,
            days_of_week: clone_texts(&self.days_of_week),
            occurrence_count: self.occurrence_count,
            end_date: self.end_date,
        }
    }
}

/// A calendar and what may be done to it.
#[derive(Debug, PartialEq, Eq)]
pub struct CalendarInfo {
    pub id: String,
    pub source_id: String,
    pub permissions: CalendarPermissions,
    pub title: String,
    pub account: String,
    pub provider: String,
    pub color: String,
    pub is_writable: bool,
    pub enabled: bool,
}

/// What the contents of a calendar are, as values of mathematics.
#[verifier::ext_equal]
pub ghost struct CalendarInfoView {
    pub id: Seq<char>,
    pub source_id: Seq<char>,
    pub permissions: CalendarPermissions,
    pub title: Seq<char>,
    pub account: Seq<char>,
    pub provider: Seq<char>,
    pub color: Seq<char>,
    pub is_writable: bool,
    pub enabled: bool,
}

impl View for CalendarInfo {
    type V = CalendarInfoView;

    open spec fn view(&self) -> CalendarInfoView {
        CalendarInfoView {
            id: self.id@,
            source_id: self.source_id@,
            permissions: self.permissions,
            title: self.title@,
            account: self.account@,
            provider: self.provider@,
            color: self.color@,
            is_writable: self.is_writable,
            enabled: self.enabled,
        }
    }
}

impl Clone for CalendarInfo {
    fn clone(&self) -> (r: Self)
        ensures
            r == *self,
            r@ == self@,
    {
        CalendarInfo {
            id: self.id.clone(),
            source_id: self.source_id.clone(),
            permissions: self.permissions,
            title: self.title.clone(),
            account: self.account.clone(),
            provider: self.provider.clone(),
            color: self.color.clone(),
            is_writable: self.is_writable,
            enabled: self.enabled,
        }
    }
}

/// An account or a store that holds calendars.
#[derive(Debug, PartialEq, Eq)]
pub struct CalendarSource {
    pub id: String,
    pub title: String,
    pub source_type: String,
    pub is_writable: bool,
}

/// What the contents of a source are, as values of mathematics.
#[verifier::ext_equal]
pub ghost struct CalendarSourceView {
    pub id: Seq<char>,
    pub title: Seq<char>,
    pub source_type: Seq<char>,
    pub is_writable: bool,
}

impl View for CalendarSource {
    type V = CalendarSourceView;

    open spec fn view(&self) -> CalendarSourceView {
        CalendarSourceView {
            id: self.id@,
            title: self.title@,
            source_type: self.source_type@,
            is_writable: self.is_writable,
        }
    }
}

impl Clone for CalendarSource {
    fn clone(&self) -> (r: Self)
        ensures
            r == *self,
            r@ == self@,
    {
        CalendarSource {
            id: self.id.clone(),
            title: self.title.clone(),
            source_type: self.source_type.clone(),
            is_writable: self.is_writable,
        }
    }
}

/// One occurrence of an event.
#[derive(Debug, PartialEq, Eq)]
pub struct Event {
    /// The identity of this occurrence.
    pub id: String,
    /// The identity that the provider knows the event by.
    pub provider_id: Option<String>,
    pub series_id: Option<String>,
    pub calendar_id: String,
    pub title: String,
    pub start: Timestamp,
    pub end: Timestamp,
    pub all_day: bool,
    pub all_day_start_date: Option<Date>,
    pub all_day_end_date_exclusive: Option<Date>,
    pub location: String,
    pub notes: String,
    pub url: String,
    pub time_zone: String,
    pub time_zone_provenance: TimeZoneProvenance,
    pub availability: Availability,
    pub organizer: Option<String>,
    pub attendees: Vec<Attendee>,
    pub alarms: Vec<Alarm>,
    pub recurrence: Vec<RecurrenceRule>,
    pub has_recurrence: bool,
    pub is_detached: bool,
    pub invitation_status: InvitationStatus,
}

/// What the contents of an event are, as values of mathematics.
#[verifier::ext_equal]
pub ghost struct EventView {
    pub id: Seq<char>,
    pub provider_id: Option<Seq<char>>,
    pub series_id: Option<Seq<char>>,
    pub calendar_id: Seq<char>,
    pub title: Seq<char>,
    pub start: Timestamp,
    pub end: Timestamp,
    pub all_day: bool,
    pub all_day_start_date: Option<Date>,
    pub all_day_end_date_exclusive: Option<Date>,
    pub location: Seq<char>,
    pub notes: Seq<char>,
    pub url: Seq<char>,
    pub time_zone: Seq<char>,
    pub time_zone_provenance: TimeZoneProvenance,
    pub availability: Availability,
    pub organizer: Option<Seq<char>>,
    pub attendees: Seq<AttendeeView>,
    pub alarms: Seq<Alarm>,
    pub recurrence: Seq<RecurrenceRuleView>,
    pub has_recurrence: bool,
    pub is_detached: bool,
    pub invitation_status: InvitationStatus,
}

impl View for Event {
    type V = EventView;

    open spec fn view(&self) -> EventView {
        EventView {
            id: self.id@,
            provider_id: opt_view(self.provider_id),
            series_id: opt_view(self.series_id),
            calendar_id: self.calendar_id@,
            title: self.title@,
            start: self.start,
            end: self.end,
            all_day: self.all_day,
            all_day_start_date: self.all_day_start_date,
            all_day_end_date_exclusive: self.all_day_end_date_exclusive,
            location: self.location@,
            notes: self.notes@,
            url: self.url@,
            time_zone: self.time_zone@,
            time_zone_provenance: self.time_zone_provenance,
            availability: self.availability,
            organizer: opt_view(self.organizer),
            attendees: attendee_views(self.attendees@),
            alarms: self.alarms@,
            recurrence: rule_views(self.recurrence@),
            has_recurrence: self.has_recurrence,
            is_detached: self.is_detached,
            invitation_status: self.invitation_status,
        }
    }
}

impl Clone for Event {
    fn clone(&self) -> (r: Self)
        ensures
            r@ == self@,
    {
        Event {
            id: self.id.clone(),
            provider_id: self.provider_id.clone(),
            series_id: self.series_id.clone(),
            calendar_id: self.calendar_id.clone(),
            title: self.title.clone(),
            start: self.start,
            end: self.end,
            all_day: self.all_day,
            all_day_start_date: self.all_day_start_date,
            all_day_end_date_exclusive: self.all_day_end_date_exclusive,
            location: self.location.clone(),
            notes: self.notes.clone(),
            url: self.url.clone(),
            time_zone: self.time_zone.clone(),
            time_zone_provenance: self.time_zone_provenance,
            availability: self.availability,
            organizer: self.organizer.clone(),
            attendees: clone_attendees(&self.attendees),
            alarms: clone_alarms(&self.alarms),
            recurrence: clone_rules(&self.recurrence),
            has_recurrence: self.has_recurrence,
            is_detached: self.is_detached,
            invitation_status: self.invitation_status,
        }
    }
}

/// What an event is to become.
#[derive(Debug, PartialEq, Eq)]
pub struct EventDraft {
    pub id: Option<String>,
    pub occurrence_id: Option<String>,
    pub occurrence_start: Option<Timestamp>,
    pub occurrence_calendar_id: Option<String>,
    pub calendar_id: String,
    pub title: String,
    pub time: EventTimeInput,
    pub location: String,
    pub notes: String,
    pub url: String,
    pub time_zone: String,
    pub availability: Availability,
    pub attendees: Vec<String>,
    pub alarms: Vec<Alarm>,
    pub recurrence: Vec<RecurrenceRule>,
}

/// What the contents of a draft are, as values of mathematics.
#[verifier::ext_equal]
pub ghost struct EventDraftView {
    pub id: Option<Seq<char>>,
    pub occurrence_id: Option<Seq<char>>,
    pub occurrence_start: Option<Timestamp>,
    pub occurrence_calendar_id: Option<Seq<char>>,
    pub calendar_id: Seq<char>,
    pub title: Seq<char>,
    pub time: EventTimeInput,
    pub location: Seq<char>,
    pub notes: Seq<char>,
    pub url: Seq<char>,
    pub time_zone: Seq<char>,
    pub availability: Availability,
    pub attendees: Seq<Seq<char>>,
    pub alarms: Seq<Alarm>,
    pub recurrence: Seq<RecurrenceRuleView>,
}

impl View for EventDraft {
    type V = EventDraftView;

    open spec fn view(&self) -> EventDraftView {
        EventDraftView {
            id: opt_view(self.id),
            occurrence_id: opt_view(self.occurrence_id),
            occurrence_start: self.occurrence_start,
            occurrence_calendar_id: opt_view(self.occurrence_calendar_id),
            calendar_id: self.calendar_id@,
            title: self.title@,
            time: self.time,
            location: self.location@,
            notes: self.notes@,
            url: self.url@,
            time_zone: self.time_zone@,
            availability: self.availability,
            attendees: texts(self.attendees@),
            alarms: self.alarms@,
            recurrence: rule_views(self.recurrence@),
        }
    }
}

impl Clone for EventDraft {
    fn clone(&self) -> (r: Self)
        ensures
            r@ == self@,
    {
        EventDraft {
            id: self.id.clone(),
            occurrence_id: self.occurrence_id.clone(),
            occurrence_start: self.occurrence_start,
            occurrence_calendar_id: self.occurrence_calendar_id.clone(),
            calendar_id: self.calendar_id.clone(),
            title: self.title.clone(),
            time: self.time,
            location: self.location.clone(),
            notes: self.notes.clone(),
            url: self.url.clone(),
            time_zone: self.time_zone.clone(),
            availability: self.availability,
            attendees: clone_texts(&self.attendees),
            alarms: clone_alarms(&self.alarms),
            recurrence: clone_rules(&self.recurrence),
        }
    }
}

/// What an update does to an event's alarms.
#[derive(Debug, PartialEq, Eq)]
pub enum AlarmMutation {
    Preserve,
    Replace(Vec<Alarm>),
}

/// An alarm mutation: nothing where the alarms stay, else what they become.
impl View for AlarmMutation {
    type V = Option<Seq<Alarm>>;

    open spec fn view(&self) -> Option<Seq<Alarm>> {
        match self {
            AlarmMutation::Preserve => None,
            AlarmMutation::Replace(alarms) => Some(alarms@),
        }
    }
}

impl Clone for AlarmMutation {
    fn clone(&self) -> (r: Self)
        ensures
            r@ == self@,
    {
        match self {
            AlarmMutation::Preserve => AlarmMutation::Preserve,
            AlarmMutation::Replace(alarms) => AlarmMutation::Replace(clone_alarms(alarms)),
        }
    }
}

/// All that is known of the calendars at one time.
#[derive(Debug, PartialEq, Eq)]
pub struct Snapshot {
    pub calendars: Vec<CalendarInfo>,
    pub events: Vec<Event>,
    pub authorization: AuthorizationStatus,
    pub updated_at: Option<Timestamp>,
}

impl Clone for Snapshot {
    fn clone(&self) -> (r: Self)
        ensures
            r.calendars@ == self.calendars@,
            event_views(r.events@) == event_views(self.events@),
            r.authorization == self.authorization,
            r.updated_at == self.updated_at,
    {
        let calendars = self.calendars.clone();
        let events = self.events.clone();
        proof {
            assert(calendars@ =~= self.calendars@);
            assert(event_views(events@) =~= event_views(self.events@));
        }
        Snapshot {
            calendars,
            events,
            authorization: self.authorization,
            updated_at: self.updated_at,
        }
    }
}

impl Default for Snapshot {
    fn default() -> (r: Self)
        ensures
            r.calendars@ == Seq::<CalendarInfo>::empty(),
            r.events@ == Seq::<Event>::empty(),
            r.authorization == AuthorizationStatus::NotDetermined,
            r.updated_at is None,
    {
        Snapshot {
            calendars: Vec::new(),
            events: Vec::new(),
            authorization: AuthorizationStatus::NotDetermined,
            updated_at: None,
        }
    }
}

/// Whether a calendar has an identity.
pub open spec fn calendar_named(id: Seq<char>) -> spec_fn(CalendarInfo) -> bool {
    |calendar: CalendarInfo| calendar.id@ == id
}

/// Whether an event has an identity.
pub open spec fn event_named(id: Seq<char>) -> spec_fn(Event) -> bool {
    |event: Event| event.id@ == id
}

/// The index of the first calendar with an identity.
pub open spec fn calendar_at(calendars: Seq<CalendarInfo>, id: Seq<char>) -> Option<int> {
    first_where(calendars, calendar_named(id))
}

/// The index of the first event with an identity.
pub open spec fn event_at(events: Seq<Event>, id: Seq<char>) -> Option<int> {
    first_where(events, event_named(id))
}

/// A calendar that is found by an identity has it, and comes before any other that does; none is
/// found only where none has it.
pub proof fn lemma_calendar_at(calendars: Seq<CalendarInfo>, id: Seq<char>)
    ensures
        match calendar_at(calendars, id) {
            Some(i) => 0 <= i < calendars.len() && calendars[i].id@ == id && forall|j: int|
                0 <= j < i ==> (#[trigger] calendars[j]).id@ != id,
            None => forall|i: int| 0 <= i < calendars.len() ==> (#[trigger] calendars[i]).id@ != id,
        },
{
    let p = calendar_named(id);
    lemma_first_from(calendars, p, 0);
    assert forall|i: int| 0 <= i < calendars.len() implies p(#[trigger] calendars[i]) == (
    calendars[i].id@ == id) by {}
}

/// An event that is found by an identity has it, and comes before any other that does; none is
/// found only where none has it.
pub proof fn lemma_event_at(events: Seq<Event>, id: Seq<char>)
    ensures
        match event_at(events, id) {
            Some(i) => 0 <= i < events.len() && events[i].id@ == id && forall|j: int|
                0 <= j < i ==> (#[trigger] events[j]).id@ != id,
            None => forall|i: int| 0 <= i < events.len() ==> (#[trigger] events[i]).id@ != id,
        },
{
    let p = event_named(id);
    lemma_first_from(events, p, 0);
    assert forall|i: int| 0 <= i < events.len() implies p(#[trigger] events[i]) == (events[i].id@
        == id) by {}
}

/// An optional index as a number.
pub open spec fn index_view(index: Option<usize>) -> Option<int> {
    match index {
        Some(index) => Some(index as int),
        None => None,
    }
}

/// The index of the first calendar with an identity.
pub fn find_calendar(calendars: &Vec<CalendarInfo>, id: &str) -> (r: Option<usize>)
    ensures
        index_view(r) == calendar_at(calendars@, id@),
        r matches Some(i) ==> i < calendars@.len() && calendars@[i as int].id@ == id@,
{
    let ghost same = calendar_named(id@);
    let mut i: usize = 0;
    while i < calendars.len()
        invariant
            i <= calendars@.len(),
            same == calendar_named(id@),
            first_where(calendars@, same) == first_from(calendars@, same, i as int),
        decreases calendars@.len() - i,
    {
        if same_text(calendars[i].id.as_str(), id) {
            return Some(i);
        }
        i += 1;
    }
    None
}

/// The index of the first event with an identity.
pub fn find_event(events: &Vec<Event>, id: &str) -> (r: Option<usize>)
    ensures
        index_view(r) == event_at(events@, id@),
        r matches Some(i) ==> i < events@.len() && events@[i as int].id@ == id@,
{
    let ghost same = event_named(id@);
    let mut i: usize = 0;
    while i < events.len()
        invariant
            i <= events@.len(),
            same == event_named(id@),
            first_where(events@, same) == first_from(events@, same, i as int),
        decreases events@.len() - i,
    {
        if same_text(events[i].id.as_str(), id) {
            return Some(i);
        }
        i += 1;
    }
    None
}

/// What a new calendar is to be.
#[derive(Debug, PartialEq, Eq)]
pub struct CreateCalendarRequest {
    pub source_id: String,
    pub title: String,
    pub color: String,
}

impl Clone for CreateCalendarRequest {
    fn clone(&self) -> (r: Self)
        ensures
            r == *self,
    {
        CreateCalendarRequest {
            source_id: self.source_id.clone(),
            title: self.title.clone(),
            color: self.color.clone(),
        }
    }
}

/// A new title for a calendar.
#[derive(Debug, PartialEq, Eq)]
pub struct RenameCalendarRequest {
    pub calendar_id: String,
    pub title: String,
}

impl Clone for RenameCalendarRequest {
    fn clone(&self) -> (r: Self)
        ensures
            r == *self,
    {
        RenameCalendarRequest { calendar_id: self.calendar_id.clone(), title: self.title.clone() }
    }
}

/// A new color for a calendar.
#[derive(Debug, PartialEq, Eq)]
pub struct SetCalendarColorRequest {
    pub calendar_id: String,
    pub color: String,
}

impl Clone for SetCalendarColorRequest {
    fn clone(&self) -> (r: Self)
        ensures
            r == *self,
    {
        SetCalendarColorRequest { calendar_id: self.calendar_id.clone(), color: self.color.clone() }
    }
}

/// The calendar to delete.
#[derive(Debug, PartialEq, Eq)]
pub struct DeleteCalendarRequest {
    pub calendar_id: String,
}

impl Clone for DeleteCalendarRequest {
    fn clone(&self) -> (r: Self)
        ensures
            r == *self,
    {
        DeleteCalendarRequest { calendar_id: self.calendar_id.clone() }
    }
}

/// The calendar that was deleted.
#[derive(Debug, PartialEq, Eq)]
pub struct DeleteCalendarResponse {
    pub calendar_id: String,
}

impl Clone for DeleteCalendarResponse {
    fn clone(&self) -> (r: Self)
        ensures
            r == *self,
    {
        DeleteCalendarResponse { calendar_id: self.calendar_id.clone() }
    }
}

/// The occurrence that a provider is to change.
#[derive(Debug, PartialEq, Eq)]
pub struct EventMutationTarget {
    pub provider_id: String,
    pub calendar_id: String,
    pub occurrence_start: Timestamp,
}

impl Clone for EventMutationTarget {
    fn clone(&self) -> (r: Self)
        ensures
            r == *self,
    {
        EventMutationTarget {
            provider_id: self.provider_id.clone(),
            calendar_id: self.calendar_id.clone(),
            occurrence_start: self.occurrence_start,
        }
    }
}

/// Why a range of events is wanted.
#[derive(Clone, Copy, Debug, PartialEq, Eq, Structural)]
pub enum RangeReason {
    VisibleDay,
    VisibleWeek,
    VisibleMonth,
    AgendaPage,
    EventKitChange,
    BackgroundRefresh,
}

/// How urgent a range of events is.
#[derive(Clone, Copy, Debug, PartialEq, Eq, Structural)]
pub enum RangePriority {
    Interactive,
    Critical,
    Background,
}

/// A range of events to load.
#[derive(Clone, Copy, Debug, PartialEq, Eq, Structural)]
pub struct RangeRequest {
    pub id: u64,
    pub start: Timestamp,
    pub end: Timestamp,
    pub all_day_range: Option<CalendarDateRange>,
    pub reason: RangeReason,
    pub priority: RangePriority,
}

/// Nine in the morning of a date.
pub open spec fn nine_on(date: Date) -> WallTime {
    WallTime { date: date.clamped(), second: 32_400 }
}

/// A draft of a timed event with nothing filled in.
pub open spec fn blank_draft(
    calendar_id: Seq<char>,
    start: Timestamp,
    time_zone: Seq<char>,
) -> EventDraftView {
    EventDraftView {
        id: None,
        occurrence_id: None,
        occurrence_start: None,
        occurrence_calendar_id: None,
        calendar_id,
        title: Seq::empty(),
        time: EventTimeInput::Timed { start, end: start.shifted(3_600) },
        location: Seq::empty(),
        notes: Seq::empty(),
        url: Seq::empty(),
        time_zone,
        availability: Availability::Busy,
        attendees: Seq::empty(),
        alarms: Seq::empty(),
        recurrence: Seq::empty(),
    }
}

impl EventDraft {
    /// A draft of a timed event of an hour with nothing else filled in.
    pub fn blank(calendar_id: String, start: Timestamp, time_zone: String) -> (r: Self)
        ensures
            r@ == blank_draft(calendar_id@, start, time_zone@),
    {
        let draft = EventDraft {
            id: None,
            occurrence_id: None,
            occurrence_start: None,
            occurrence_calendar_id: None,
            calendar_id,
            title: String::new(),
            time: EventTimeInput::Timed { start, end: start.plus_seconds(3_600) },
            location: String::new(),
            notes: String::new(),
            url: String::new(),
            time_zone,
            availability: Availability::Busy,
            attendees: Vec::new(),
            alarms: Vec::new(),
            recurrence: Vec::new(),
        };
        proof {
            assert(draft@ =~= blank_draft(calendar_id@, start, time_zone@));
        }
        draft
    }

    /// A draft of a timed event of an hour, from nine in the morning of `date` where the machine's
    /// clock shows that once.
    pub fn new(calendar_id: String, date: Date) -> (r: Self)
        ensures
            exists|start: Timestamp, zone: Seq<char>|
                read_as(nine_on(date), start) && was_zone(zone) && r@ == #[trigger] blank_draft(
                    calendar_id@,
                    start,
                    zone,
                ),
    {
        let nine = WallTime { date: date.nearest(), second: 32_400 };
        let start = local_or_utc(nine);
        let zone = local_zone_name();
        Self::blank(calendar_id, start, zone)
    }
}

impl Event {
    /// The dates of an all-day event, where they are known and in order.
    pub open spec fn date_range(self) -> Option<(Date, Date)> {
        match (self.all_day_start_date, self.all_day_end_date_exclusive) {
            (Some(start), Some(end)) => if self.all_day && start.day < end.day {
                Some((start, end))
            } else {
                None
            },
            _ => None,
        }
    }

    /// The dates of an all-day event, where they are known and in order.
    pub fn all_day_date_range(&self) -> (r: Option<(Date, Date)>)
        ensures
            r == self.date_range(),
    {
        if !self.all_day {
            return None;
        }
        match (self.all_day_start_date, self.all_day_end_date_exclusive) {
            (Some(start), Some(end)) => if start.day < end.day {
                Some((start, end))
            } else {
                None
            },
            _ => None,
        }
    }

    /// Whether an all-day event with known dates takes place between two dates.
    pub open spec fn dates_intersect(self, start: Date, end_exclusive: Date) -> bool {
        match self.date_range() {
            Some(range) => range.0.day < end_exclusive.day && range.1.day > start.day,
            None => false,
        }
    }

    /// Whether an all-day event with known dates takes place between two dates.
    pub fn all_day_intersects_dates(&self, start: Date, end_exclusive: Date) -> (r: bool)
        ensures
            r == self.dates_intersect(start, end_exclusive),
    {
        match self.all_day_date_range() {
            Some((first, last)) => first.day < end_exclusive.day && last.day > start.day,
            None => false,
        }
    }
}

} // verus!
