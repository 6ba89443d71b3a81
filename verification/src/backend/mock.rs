//! A provider that keeps its calendars in memory.

use super::{BackendError, BackendErrorView};
use crate::calendar_form::{is_color, is_color_text};
use crate::model::{
    attendee_views, calendar_at, calendar_named, clone_alarms, event_at, event_named, event_views,
    find_calendar, find_event, Alarm, AlarmMutation, Attendee, AttendeeView, AuthorizationStatus,
    CalendarCapabilities, CalendarError, CalendarInfo, CalendarInfoView, CalendarPermissions,
    CalendarSource, CalendarSourceView, CreateCalendarRequest, DeleteCalendarRequest,
    DeleteCalendarResponse, Event, EventDraft, EventDraftView, EventSpan, EventTimeInput,
    EventTimeMutation, EventView, FetchRequest, InvitationResponse, InvitationStatus,
    RenameCalendarRequest, SetCalendarColorRequest, TimeZoneProvenance,
};
use crate::seqs::{
    first_where, lemma_filter_all, lemma_filter_remove, lemma_first_from, lemma_first_is,
};
use crate::text::{is_blank, same_text, texts, trim, trimmed};
use crate::time::{ask, Date, Timestamp};
use vstd::prelude::*;

verus! {

/// The identity of every calendar that is created.
pub open spec fn created_calendar_id() -> Seq<char> {
    "calendar-test-created-1"@
}

/// A provider that keeps its calendars in memory, and what it was last asked.
#[derive(Debug)]
pub struct MockBackend {
    pub calendars: Vec<CalendarInfo>,
    pub events: Vec<Event>,
    pub last_created_time: Option<EventTimeInput>,
    pub last_updated_time: Option<EventTimeInput>,
    pub last_update_time_mutation: Option<EventTimeMutation>,
    pub last_update_span: Option<EventSpan>,
    pub last_delete_span: Option<EventSpan>,
}

/// The calendars as values of mathematics.
pub open spec fn calendar_views(s: Seq<CalendarInfo>) -> Seq<CalendarInfoView> {
    s.map_values(|calendar: CalendarInfo| calendar@)
}

/// The sources as values of mathematics.
pub open spec fn source_views(s: Seq<CalendarSource>) -> Seq<CalendarSourceView> {
    s.map_values(|source: CalendarSource| source@)
}

/// Whether a calendar has another identity.
pub open spec fn not_calendar(id: Seq<char>) -> spec_fn(CalendarInfo) -> bool {
    |calendar: CalendarInfo| calendar.id@ != id
}

/// Whether an event has another identity.
pub open spec fn not_event(id: Seq<char>) -> spec_fn(Event) -> bool {
    |event: Event| event.id@ != id
}

/// All that may be done to a calendar.
pub open spec fn all_permitted() -> CalendarPermissions {
    CalendarPermissions {
        can_create_events: true,
        can_modify_events: true,
        can_modify_metadata: true,
        can_delete: true,
    }
}

/// All that may be done to a calendar.
pub fn full_permissions() -> (r: CalendarPermissions)
    ensures
        r == all_permitted(),
{
    CalendarPermissions {
        can_create_events: true,
        can_modify_events: true,
        can_modify_metadata: true,
        can_delete: true,
    }
}

/// The invited, each of whom has yet to answer.
pub open spec fn invited(email: Seq<char>) -> AttendeeView {
    AttendeeView {
        name: Seq::empty(),
        email,
        status: InvitationStatus::Pending,
        is_current_user: false,
        role: "required"@,
        participant_type: "person"@,
        schedule_status: "pending"@,
    }
}

/// The event that a draft describes. All-day events keep the instants at which their dates start in
/// UTC; their dates are what counts.
pub open spec fn drafted(draft: EventDraftView, id: Seq<char>) -> EventView {
    EventView {
        id,
        provider_id: Some(id),
        series_id: None,
        calendar_id: draft.calendar_id,
        title: draft.title,
        start: match draft.time {
            EventTimeInput::Timed { start, .. } => start,
            EventTimeInput::AllDay { start_date, .. } => start_date.midnight(),
            EventTimeInput::LegacyAllDayUnknown { start, .. } => start,
        },
        end: match draft.time {
            EventTimeInput::Timed { end, .. } => end,
            EventTimeInput::AllDay { end_date_exclusive, .. } => end_date_exclusive.midnight(),
            EventTimeInput::LegacyAllDayUnknown { end, .. } => end,
        },
        all_day: !(draft.time is Timed),
        all_day_start_date: match draft.time {
            EventTimeInput::AllDay { start_date, .. } => Some(start_date),
            _ => None,
        },
        all_day_end_date_exclusive: match draft.time {
            EventTimeInput::AllDay { end_date_exclusive, .. } => Some(end_date_exclusive),
            _ => None,
        },
        location: draft.location,
        notes: draft.notes,
        url: draft.url,
        time_zone: draft.time_zone,
        time_zone_provenance: TimeZoneProvenance::ExplicitEvent,
        availability: draft.availability,
        organizer: None,
        attendees: draft.attendees.map_values(|email: Seq<char>| invited(email)),
        alarms: draft.alarms,
        recurrence: draft.recurrence,
        has_recurrence: draft.recurrence.len() > 0,
        is_detached: false,
        invitation_status: InvitationStatus::Unknown,
    }
}

fn invite(emails: &Vec<String>) -> (r: Vec<Attendee>)
    ensures
        attendee_views(r@) == texts(emails@).map_values(|email: Seq<char>| invited(email)),
{
    let mut r: Vec<Attendee> = Vec::new();
    let mut i: usize = 0;
    while i < emails.len()
        invariant
            i <= emails@.len(),
            r@.len() == i,
            forall|j: int| 0 <= j < i ==> (#[trigger] r@[j])@ == invited(emails@[j]@),
        decreases emails@.len() - i,
    {
        r.push(
            Attendee {
                name: String::new(),
                email: emails[i].clone(),
                status: InvitationStatus::Pending,
                is_current_user: false,
                role: "required".to_owned(),
                participant_type: "person".to_owned(),
                schedule_status: "pending".to_owned(),
            },
        );
        proof {
            assert(r@[i as int]@ =~= invited(emails@[i as int]@));
        }
        i += 1;
    }
    proof {
        assert(attendee_views(r@) =~= texts(emails@).map_values(
            |email: Seq<char>| invited(email),
        ));
    }
    r
}

/// The event that a draft describes.
pub fn draft_to_event(draft: EventDraft, id: String) -> (r: Event)
    ensures
        r@ == drafted(draft@, id@),
{
    let ghost view = draft@;
    let attendees = invite(&draft.attendees);
    let start = match draft.time {
        EventTimeInput::Timed { start, .. } => start,
        EventTimeInput::AllDay { start_date, .. } => start_date.utc_midnight(),
        EventTimeInput::LegacyAllDayUnknown { start, .. } => start,
    };
    let end = match draft.time {
        EventTimeInput::Timed { end, .. } => end,
        EventTimeInput::AllDay { end_date_exclusive, .. } => end_date_exclusive.utc_midnight(),
        EventTimeInput::LegacyAllDayUnknown { end, .. } => end,
    };
    let (all_day, first, last): (bool, Option<Date>, Option<Date>) = match draft.time {
        EventTimeInput::Timed { .. } => (false, None, None),
        EventTimeInput::AllDay { start_date, end_date_exclusive } => (
            true,
            Some(start_date),
            Some(end_date_exclusive),
        ),
        EventTimeInput::LegacyAllDayUnknown { .. } => (true, None, None),
    };
    let event = Event {
        provider_id: Some(id.clone()),
        id,
        series_id: None,
        calendar_id: draft.calendar_id,
        title: draft.title,
        start,
        end,
        all_day,
        all_day_start_date: first,
        all_day_end_date_exclusive: last,
        location: draft.location,
        notes: draft.notes,
        url: draft.url,
        time_zone: draft.time_zone,
        time_zone_provenance: TimeZoneProvenance::ExplicitEvent,
        availability: draft.availability,
        organizer: None,
        attendees,
        alarms: draft.alarms,
        has_recurrence: draft.recurrence.len() > 0,
        recurrence: draft.recurrence,
        is_detached: false,
        invitation_status: InvitationStatus::Unknown,
    };
    proof {
        assert(event@ =~= drafted(view, id@));
    }
    event
}

/// The event that an update leaves: the draft's, but for the time where it is preserved, its dates
/// where they are replaced, and the alarms where they are preserved.
pub open spec fn updated(
    draft: EventDraftView,
    id: Seq<char>,
    before: EventView,
    alarms: Option<Seq<Alarm>>,
    mutation: EventTimeMutation,
) -> EventView {
    let event = drafted(draft, id);
    let timed = match mutation {
        EventTimeMutation::Preserve => EventView {
            start: before.start,
            end: before.end,
            all_day: before.all_day,
            time_zone: before.time_zone,
            time_zone_provenance: before.time_zone_provenance,
            all_day_start_date: before.all_day_start_date,
            all_day_end_date_exclusive: before.all_day_end_date_exclusive,
            ..event
        },
        EventTimeMutation::ReplaceAllDay { start_date, end_date_exclusive } => EventView {
            all_day: true,
            all_day_start_date: Some(start_date),
            all_day_end_date_exclusive: Some(end_date_exclusive),
            ..event
        },
        EventTimeMutation::ReplaceLegacy => event,
    };
    EventView {
        alarms: if alarms is None {
            before.alarms
        } else {
            timed.alarms
        },
        ..timed
    }
}

/// Whether an event is in a range and in one of some calendars, where any are given. All-day events
/// with known dates are also held against the range's dates in UTC.
pub open spec fn wanted(
    event: Event,
    start: Timestamp,
    end: Timestamp,
    calendar_ids: Seq<String>,
) -> bool {
    &&& event.dates_intersect(start.utc_day(), end.utc_day()) || (event.start.nanos < end.nanos
        && event.end.nanos > start.nanos)
    &&& calendar_ids.len() == 0 || texts(calendar_ids).contains(event.calendar_id@)
}

fn holds_text(list: &Vec<String>, text: &str) -> (r: bool)
    ensures
        r == texts(list@).contains(text@),
{
    let mut i: usize = 0;
    while i < list.len()
        invariant
            i <= list@.len(),
            forall|j: int| 0 <= j < i ==> #[trigger] texts(list@)[j] != text@,
        decreases list@.len() - i,
    {
        proof {
            assert(texts(list@)[i as int] == list@[i as int]@);
        }
        if same_text(list[i].as_str(), text) {
            return true;
        }
        i += 1;
    }
    false
}

impl MockBackend {
    /// A provider without calendars.
    pub fn empty() -> (r: Self)
        ensures
            r.calendars@ == Seq::<CalendarInfo>::empty(),
            r.events@ == Seq::<Event>::empty(),
            r.last_created_time is None,
            r.last_updated_time is None,
            r.last_update_time_mutation is None,
            r.last_update_span is None,
            r.last_delete_span is None,
    {
        MockBackend {
            calendars: Vec::new(),
            events: Vec::new(),
            last_created_time: None,
            last_updated_time: None,
            last_update_time_mutation: None,
            last_update_span: None,
            last_delete_span: None,
        }
    }

    /// The span that the last update was asked for.
    pub fn last_update_span(&self) -> (r: Option<EventSpan>)
        ensures
            r == self.last_update_span,
    {
        self.last_update_span
    }

    /// The span that the last deletion was asked for.
    pub fn last_delete_span(&self) -> (r: Option<EventSpan>)
        ensures
            r == self.last_delete_span,
    {
        self.last_delete_span
    }

    /// The time of the event that was last created.
    pub fn last_created_time(&self) -> (r: Option<EventTimeInput>)
        ensures
            r == self.last_created_time,
    {
        self.last_created_time
    }

    /// The time in the draft of the last update.
    pub fn last_updated_time(&self) -> (r: Option<EventTimeInput>)
        ensures
            r == self.last_updated_time,
    {
        self.last_updated_time
    }

    /// What the last update was to do to the event's time.
    pub fn last_update_time_mutation(&self) -> (r: Option<EventTimeMutation>)
        ensures
            r == self.last_update_time_mutation,
    {
        self.last_update_time_mutation
    }

    /// Puts events in the place of all that there are.
    pub fn set_events_for_test(&mut self, events: Vec<Event>)
        ensures
            *final(self) == (MockBackend { events, ..*old(self) }),
    {
        self.events = events;
    }

    /// Everything may be read.
    pub fn authorization_status(&self) -> (r: AuthorizationStatus)
        ensures
            r == AuthorizationStatus::FullAccess,
    {
        AuthorizationStatus::FullAccess
    }

    /// Access is given whenever it is asked for.
    pub fn request_access(&self) -> (r: AuthorizationStatus)
        ensures
            r == AuthorizationStatus::FullAccess,
    {
        AuthorizationStatus::FullAccess
    }

    /// Everything can be done with calendars.
    pub fn calendar_capabilities(&self) -> (r: CalendarCapabilities)
        ensures
            r == (CalendarCapabilities {
                can_list_sources: true,
                can_create: true,
                can_update: true,
                can_delete: true,
                can_change_color: true,
            }),
    {
        CalendarCapabilities {
            can_list_sources: true,
            can_create: true,
            can_update: true,
            can_delete: true,
            can_change_color: true,
        }
    }

    /// The calendars.
    pub fn calendars(&self) -> (r: Vec<CalendarInfo>)
        ensures
            r@ == self.calendars@,
    {
        let r = self.calendars.clone();
        proof {
            assert(r@ =~= self.calendars@);
        }
        r
    }

    /// Why a calendar is not created.
    pub open spec fn creation_refused(request: CreateCalendarRequest) -> Option<CalendarError> {
        if trimmed(request.title@).len() == 0 {
            Some(CalendarError::InvalidTitle)
        } else if !is_color(request.color@) {
            Some(CalendarError::InvalidColor)
        } else if request.source_id@ == "mock-denied"@ {
            Some(CalendarError::PermissionDenied)
        } else if request.source_id@ != "mock-work"@ && request.source_id@ != "mock-personal"@ {
            Some(CalendarError::SourceNotFound)
        } else {
            None
        }
    }

    /// The calendar that a request describes.
    pub open spec fn created(request: CreateCalendarRequest) -> CalendarInfoView {
        CalendarInfoView {
            id: created_calendar_id(),
            source_id: request.source_id@,
            permissions: all_permitted(),
            title: request.title@,
            account: "Mock"@,
            provider: "Mock"@,
            color: request.color@,
            is_writable: true,
            enabled: true,
        }
    }

    fn drop_calendar(&mut self, id: &str)
        ensures
            *final(self) == (MockBackend { calendars: final(self).calendars, ..*old(self) }),
            final(self).calendars@ == old(self).calendars@.filter(not_calendar(id@)),
    {
        let ghost kept = not_calendar(id@);
        let mut i: usize = 0;
        while i < self.calendars.len()
            invariant
                i <= self.calendars@.len(),
                kept == not_calendar(id@),
                *self == (MockBackend { calendars: self.calendars, ..*old(self) }),
                self.calendars@.filter(kept) == old(self).calendars@.filter(kept),
                forall|j: int| 0 <= j < i ==> kept(#[trigger] self.calendars@[j]),
            decreases self.calendars@.len() - i,
        {
            if same_text(self.calendars[i].id.as_str(), id) {
                proof {
                    lemma_filter_remove(self.calendars@, kept, i as int);
                }
                self.calendars.remove(i);
            } else {
                i += 1;
            }
        }
        proof {
            lemma_filter_all(self.calendars@, kept);
        }
    }

    /// What comes of creating a calendar.
    pub open spec fn creates_calendar(
        self,
        request: CreateCalendarRequest,
        post: MockBackend,
        r: Result<CalendarInfo, BackendError>,
    ) -> bool {
        match Self::creation_refused(request) {
            Some(error) => r == Err::<CalendarInfo, BackendError>(BackendError::Calendar(error))
                && post == self,
            None => {
                &&& r matches Ok(calendar)
                &&& calendar@ == Self::created(request)
                &&& post == (MockBackend {
                    calendars: post.calendars,
                    ..self
                })
                &&& post.calendars@ == self.calendars@.filter(
                    not_calendar(created_calendar_id()),
                ).push(calendar)
            },
        }
    }

    /// Creates a calendar. One that was created before leaves.
    pub fn create_calendar(&mut self, request: CreateCalendarRequest) -> (r: Result<
        CalendarInfo,
        BackendError,
    >)
        ensures
            old(self).creates_calendar(request, *final(self), r),
    {
        if is_blank(request.title.as_str()) {
            return Err(BackendError::Calendar(CalendarError::InvalidTitle));
        }
        if !is_color_text(request.color.as_str()) {
            return Err(BackendError::Calendar(CalendarError::InvalidColor));
        }
        if same_text(request.source_id.as_str(), "mock-denied") {
            return Err(BackendError::Calendar(CalendarError::PermissionDenied));
        }
        if !same_text(request.source_id.as_str(), "mock-work") && !same_text(
            request.source_id.as_str(),
            "mock-personal",
        ) {
            return Err(BackendError::Calendar(CalendarError::SourceNotFound));
        }
        let calendar = CalendarInfo {
            id: "calendar-test-created-1".to_owned(),
            source_id: request.source_id,
            permissions: full_permissions(),
            title: request.title,
            account: "Mock".to_owned(),
            provider: "Mock".to_owned(),
            color: request.color,
            is_writable: true,
            enabled: true,
        };
        self.drop_calendar("calendar-test-created-1");
        self.calendars.push(calendar.clone());
        Ok(calendar)
    }

    /// Why the metadata of a calendar is not changed.
    pub open spec fn change_refused(self, id: Seq<char>) -> Option<CalendarError> {
        match calendar_at(self.calendars@, id) {
            None => Some(CalendarError::NotFound),
            Some(i) => if self.calendars@[i].permissions.can_modify_metadata {
                None
            } else {
                Some(CalendarError::CannotModifyMetadata)
            },
        }
    }

    /// Why a calendar is not renamed.
    pub open spec fn renaming_refused(self, request: RenameCalendarRequest) -> Option<
        CalendarError,
    > {
        if trimmed(request.title@).len() == 0 {
            Some(CalendarError::InvalidTitle)
        } else {
            self.change_refused(request.calendar_id@)
        }
    }

    /// Why a calendar is not colored.
    pub open spec fn coloring_refused(self, request: SetCalendarColorRequest) -> Option<
        CalendarError,
    > {
        if !is_color(request.color@) {
            Some(CalendarError::InvalidColor)
        } else {
            self.change_refused(request.calendar_id@)
        }
    }

    /// Why a calendar is not deleted.
    pub open spec fn deletion_refused(self, id: Seq<char>) -> Option<CalendarError> {
        match calendar_at(self.calendars@, id) {
            None => Some(CalendarError::NotFound),
            Some(i) => if self.calendars@[i].permissions.can_delete {
                None
            } else {
                Some(CalendarError::CannotDelete)
            },
        }
    }

    fn changeable(&self, id: &str) -> (r: Result<usize, CalendarError>)
        ensures
            match self.change_refused(id@) {
                Some(error) => r == Err::<usize, CalendarError>(error),
                None => r is Ok && calendar_at(self.calendars@, id@) == Some(r->Ok_0 as int)
                    && r->Ok_0 < self.calendars@.len(),
            },
    {
        match find_calendar(&self.calendars, id) {
            None => Err(CalendarError::NotFound),
            Some(i) => if self.calendars[i].permissions.can_modify_metadata {
                Ok(i)
            } else {
                Err(CalendarError::CannotModifyMetadata)
            },
        }
    }

    /// What comes of renaming a calendar.
    pub open spec fn renames_calendar(
        self,
        request: RenameCalendarRequest,
        post: MockBackend,
        r: Result<CalendarInfo, BackendError>,
    ) -> bool {
        match self.renaming_refused(request) {
            Some(error) => r == Err::<CalendarInfo, BackendError>(BackendError::Calendar(error))
                && post == self,
            None => {
                let i = calendar_at(self.calendars@, request.calendar_id@)->0;
                &&& r matches Ok(calendar)
                &&& calendar@ == (CalendarInfoView {
                    title: trimmed(request.title@),
                    ..self.calendars@[i]@
                })
                &&& post.calendars@ == self.calendars@.update(i, calendar)
                &&& post == (MockBackend {
                    calendars: post.calendars,
                    ..self
                })
            },
        }
    }

    /// Gives a calendar another title.
    pub fn rename_calendar(&mut self, request: RenameCalendarRequest) -> (r: Result<
        CalendarInfo,
        BackendError,
    >)
        ensures
            old(self).renames_calendar(request, *final(self), r),
    {
        if is_blank(request.title.as_str()) {
            return Err(BackendError::Calendar(CalendarError::InvalidTitle));
        }
        let i: usize = match self.changeable(request.calendar_id.as_str()) {
            Ok(i) => i,
            Err(error) => return Err(BackendError::Calendar(error)),
        };
        let mut calendar = self.calendars[i].clone();
        calendar.title = trim(request.title.as_str());
        self.calendars.set(i, calendar.clone());
        Ok(calendar)
    }

    /// What comes of coloring a calendar.
    pub open spec fn colors_calendar(
        self,
        request: SetCalendarColorRequest,
        post: MockBackend,
        r: Result<CalendarInfo, BackendError>,
    ) -> bool {
        match self.coloring_refused(request) {
            Some(error) => r == Err::<CalendarInfo, BackendError>(BackendError::Calendar(error))
                && post == self,
            None => {
                let i = calendar_at(self.calendars@, request.calendar_id@)->0;
                &&& r matches Ok(calendar)
                &&& calendar@ == (CalendarInfoView {
                    color: request.color@,
                    ..self.calendars@[i]@
                })
                &&& post.calendars@ == self.calendars@.update(i, calendar)
                &&& post == (MockBackend {
                    calendars: post.calendars,
                    ..self
                })
            },
        }
    }

    /// Gives a calendar another color.
    pub fn set_calendar_color(&mut self, request: SetCalendarColorRequest) -> (r: Result<
        CalendarInfo,
        BackendError,
    >)
        ensures
            old(self).colors_calendar(request, *final(self), r),
    {
        if !is_color_text(request.color.as_str()) {
            return Err(BackendError::Calendar(CalendarError::InvalidColor));
        }
        let i: usize = match self.changeable(request.calendar_id.as_str()) {
            Ok(i) => i,
            Err(error) => return Err(BackendError::Calendar(error)),
        };
        let mut calendar = self.calendars[i].clone();
        calendar.color = request.color;
        self.calendars.set(i, calendar.clone());
        Ok(calendar)
    }

    /// What comes of deleting a calendar.
    pub open spec fn deletes_calendar(
        self,
        request: DeleteCalendarRequest,
        post: MockBackend,
        r: Result<DeleteCalendarResponse, BackendError>,
    ) -> bool {
        match self.deletion_refused(request.calendar_id@) {
            Some(error) => r == Err::<DeleteCalendarResponse, BackendError>(
                BackendError::Calendar(error),
            ) && post == self,
            None => {
                let i = calendar_at(self.calendars@, request.calendar_id@)->0;
                &&& r matches Ok(response)
                &&& response.calendar_id@ == request.calendar_id@
                &&& post.calendars@ == self.calendars@.remove(i)
                &&& post == (MockBackend {
                    calendars: post.calendars,
                    ..self
                })
            },
        }
    }

    /// Deletes a calendar.
    pub fn delete_calendar(&mut self, request: DeleteCalendarRequest) -> (r: Result<
        DeleteCalendarResponse,
        BackendError,
    >)
        ensures
            old(self).deletes_calendar(request, *final(self), r),
    {
        let i: usize = match find_calendar(&self.calendars, request.calendar_id.as_str()) {
            Some(i) => i,
            None => return Err(BackendError::Calendar(CalendarError::NotFound)),
        };
        if !self.calendars[i].permissions.can_delete {
            return Err(BackendError::Calendar(CalendarError::CannotDelete));
        }
        let deleted = self.calendars.remove(i);
        Ok(DeleteCalendarResponse { calendar_id: deleted.id })
    }

    /// The events in a range, in some calendars where any are given.
    pub fn events(&self, start: Timestamp, end: Timestamp, calendar_ids: &Vec<String>) -> (r: Vec<
        Event,
    >)
        ensures
            event_views(r@) == event_views(
                self.events@.filter(|event: Event| wanted(event, start, end, calendar_ids@)),
            ),
    {
        let ghost p = |event: Event| wanted(event, start, end, calendar_ids@);
        let first = start.utc_date();
        let last = end.utc_date();
        let mut r: Vec<Event> = Vec::new();
        let mut i: usize = 0;
        proof {
            assert(self.events@.take(0).filter(p) =~= Seq::empty()) by {
                reveal(Seq::filter);
            }
            assert(event_views(r@) =~= event_views(self.events@.take(0).filter(p)));
        }
        while i < self.events.len()
            invariant
                i <= self.events@.len(),
                p == (|event: Event| wanted(event, start, end, calendar_ids@)),
                first == start.utc_day(),
                last == end.utc_day(),
                event_views(r@) == event_views(self.events@.take(i as int).filter(p)),
            decreases self.events@.len() - i,
        {
            let event = &self.events[i];
            let intersects = event.all_day_intersects_dates(first, last) || (event.start.nanos
                < end.nanos && event.end.nanos > start.nanos);
            proof {
                reveal(Seq::filter);
                assert(self.events@.take(i + 1).drop_last() =~= self.events@.take(i as int));
                assert(self.events@.take(i + 1).last() == *event);
            }
            if intersects && (calendar_ids.len() == 0 || holds_text(
                calendar_ids,
                event.calendar_id.as_str(),
            )) {
                let ghost before = r@;
                r.push(event.clone());
                proof {
                    assert(event_views(r@) =~= event_views(before).push(event@));
                    assert(event_views(self.events@.take(i + 1).filter(p)) =~= event_views(
                        self.events@.take(i as int).filter(p),
                    ).push(event@));
                }
            }
            i += 1;
        }
        proof {
            assert(self.events@.take(i as int) =~= self.events@);
        }
        r
    }

    /// The events that a request asks for. The request's dates are not looked at.
    pub fn fetch_events(&self, request: FetchRequest, calendar_ids: &Vec<String>) -> (r: Vec<Event>)
        ensures
            event_views(r@) == event_views(
                self.events@.filter(
                    |event: Event|
                        wanted(
                            event,
                            request.instant_range.start,
                            request.instant_range.end,
                            calendar_ids@,
                        ),
                ),
            ),
    {
        self.events(request.instant_range.start, request.instant_range.end, calendar_ids)
    }

    /// Whether there is a calendar with an identity that events can be written to.
    pub open spec fn has_writable(self, id: Seq<char>) -> bool {
        exists|i: int|
            0 <= i < self.calendars@.len() && (#[trigger] self.calendars@[i]).id@ == id
                && self.calendars@[i].is_writable
    }

    fn is_writable(&self, id: &str) -> (r: bool)
        ensures
            r == self.has_writable(id@),
    {
        let mut i: usize = 0;
        while i < self.calendars.len()
            invariant
                i <= self.calendars@.len(),
                forall|j: int|
                    0 <= j < i ==> !((#[trigger] self.calendars@[j]).id@ == id@
                        && self.calendars@[j].is_writable),
            decreases self.calendars@.len() - i,
        {
            if self.calendars[i].is_writable && same_text(self.calendars[i].id.as_str(), id) {
                return true;
            }
            i += 1;
        }
        false
    }

    /// Why an event is not created.
    pub open spec fn event_refused(self, draft: EventDraftView) -> Option<BackendErrorView> {
        if trimmed(draft.title).len() == 0 {
            Some(BackendErrorView::Invalid("title is required"@))
        } else if draft.time is LegacyAllDayUnknown {
            Some(
                BackendErrorView::Invalid(
                    "legacy all-day drafts cannot be created without floating date identity"@,
                ),
            )
        } else if !self.has_writable(draft.calendar_id) {
            Some(BackendErrorView::Invalid("select a writable calendar"@))
        } else {
            None
        }
    }

    /// What comes of creating an event under an identity.
    pub open spec fn creates_event(
        self,
        draft: EventDraft,
        id: String,
        post: MockBackend,
        r: Result<Event, BackendError>,
    ) -> bool {
        match self.event_refused(draft@) {
            Some(error) => r is Err && r->Err_0@ == error && post == self,
            None => {
                &&& r matches Ok(event)
                &&& event@ == drafted(draft@, id@)
                &&& is_extended(self.events@, post.events@, event@)
                &&& post == (MockBackend {
                    events: post.events,
                    last_created_time: Some(draft.time),
                    ..self
                })
            },
        }
    }

    /// Creates an event under an identity.
    pub fn create_event_as(&mut self, draft: EventDraft, id: String) -> (r: Result<
        Event,
        BackendError,
    >)
        ensures
            old(self).creates_event(draft, id, *final(self), r),
    {
        if is_blank(draft.title.as_str()) {
            return Err(BackendError::Invalid("title is required".to_owned()));
        }
        if let EventTimeInput::LegacyAllDayUnknown { .. } = draft.time {
            return Err(
                BackendError::Invalid(
                    "legacy all-day drafts cannot be created without floating date identity".to_owned(),
                ),
            );
        }
        if !self.is_writable(draft.calendar_id.as_str()) {
            return Err(BackendError::Invalid("select a writable calendar".to_owned()));
        }
        let time = draft.time;
        let event = draft_to_event(draft, id);
        self.last_created_time = Some(time);
        self.events.push(event.clone());
        proof {
            assert(self.events@.drop_last() =~= old(self).events@);
        }
        Ok(event)
    }

    /// Creates an event under a new identity.
    pub fn create_event(&mut self, draft: EventDraft) -> (r: Result<Event, BackendError>)
        ensures
            match old(self).event_refused(draft@) {
                Some(error) => r is Err && r->Err_0@ == error && *final(self) == *old(self),
                None => {
                    &&& r matches Ok(event)
                    &&& was_drawn(event.id@)
                    &&& event@ == drafted(draft@, event.id@)
                    &&& is_extended(old(self).events@, final(self).events@, event@)
                    &&& *final(self) == (MockBackend {
                        events: final(self).events,
                        last_created_time: Some(draft.time),
                        ..*old(self)
                    })
                },
            },
    {
        let id = ask(fresh_id);
        proof {
            assert(call_ensures(fresh_id, (), id));
        }
        self.create_event_as(draft, id)
    }

    /// What comes of changing an event.
    pub open spec fn updates_event(
        self,
        draft: EventDraft,
        span: EventSpan,
        alarms: AlarmMutation,
        time_mutation: EventTimeMutation,
        post: MockBackend,
        r: Result<Event, BackendError>,
    ) -> bool {
        match draft@.id {
            None => r is Err && r->Err_0@ == BackendErrorView::Invalid("event id is required"@)
                && post == self,
            Some(id) => {
                &&& post == (MockBackend {
                    events: post.events,
                    last_update_span: Some(span),
                    last_updated_time: Some(draft.time),
                    last_update_time_mutation: Some(time_mutation),
                    ..self
                })
                &&& match event_at(self.events@, id) {
                    None => r is Err && r->Err_0@ == BackendErrorView::NotFound(id) && post.events == self.events,
                    Some(i) => {
                        &&& r matches Ok(event)
                        &&& event@ == updated(
                            draft@,
                            id,
                            self.events@[i]@,
                            alarms@,
                            time_mutation,
                        )
                        &&& is_replaced(self.events@, post.events@, i, event@)
                    },
                }
            },
        }
    }

    /// Changes an event. What was asked is noted even where there is no such event.
    pub fn update_event(
        &mut self,
        draft: EventDraft,
        span: EventSpan,
        alarms: AlarmMutation,
        time_mutation: EventTimeMutation,
    ) -> (r: Result<Event, BackendError>)
        ensures
            old(self).updates_event(draft, span, alarms, time_mutation, *final(self), r),
    {
        let id = match &draft.id {
            Some(id) => id.clone(),
            None => return Err(BackendError::Invalid("event id is required".to_owned())),
        };
        let ghost view = draft@;
        let ghost key = id@;
        self.last_update_span = Some(span);
        self.last_updated_time = Some(draft.time);
        self.last_update_time_mutation = Some(time_mutation);
        let i: usize = match find_event(&self.events, id.as_str()) {
            Some(i) => i,
            None => return Err(BackendError::NotFound(id)),
        };
        let before = &self.events[i];
        let mut event = draft_to_event(draft, id);
        match time_mutation {
            EventTimeMutation::Preserve => {
                event.start = before.start;
                event.end = before.end;
                event.all_day = before.all_day;
                event.time_zone = before.time_zone.clone();
                event.time_zone_provenance = before.time_zone_provenance;
                event.all_day_start_date = before.all_day_start_date;
                event.all_day_end_date_exclusive = before.all_day_end_date_exclusive;
            },
            EventTimeMutation::ReplaceAllDay { start_date, end_date_exclusive } => {
                event.all_day = true;
                event.all_day_start_date = Some(start_date);
                event.all_day_end_date_exclusive = Some(end_date_exclusive);
            },
            EventTimeMutation::ReplaceLegacy => {},
        }
        if let AlarmMutation::Preserve = alarms {
            event.alarms = clone_alarms(&before.alarms);
        }
        proof {
            assert(event@ =~= updated(view, key, before@, alarms@, time_mutation));
        }
        self.events.set(i, event.clone());
        Ok(event)
    }

    fn drop_event(&mut self, id: &str)
        ensures
            *final(self) == (MockBackend { events: final(self).events, ..*old(self) }),
            final(self).events@ == old(self).events@.filter(not_event(id@)),
    {
        let ghost kept = not_event(id@);
        let mut i: usize = 0;
        while i < self.events.len()
            invariant
                i <= self.events@.len(),
                kept == not_event(id@),
                *self == (MockBackend { events: self.events, ..*old(self) }),
                self.events@.filter(kept) == old(self).events@.filter(kept),
                forall|j: int| 0 <= j < i ==> kept(#[trigger] self.events@[j]),
            decreases self.events@.len() - i,
        {
            if same_text(self.events[i].id.as_str(), id) {
                proof {
                    lemma_filter_remove(self.events@, kept, i as int);
                }
                self.events.remove(i);
            } else {
                i += 1;
            }
        }
        proof {
            lemma_filter_all(self.events@, kept);
        }
    }

    /// What comes of deleting the events with an identity.
    pub open spec fn deletes_event(
        self,
        id: &str,
        span: EventSpan,
        post: MockBackend,
        r: Result<(), BackendError>,
    ) -> bool {
        &&& post == (MockBackend {
            events: post.events,
            last_delete_span: Some(span),
            ..self
        })
        &&& match event_at(self.events@, id@) {
            None => r is Err && r->Err_0@ == BackendErrorView::NotFound(id@) && post.events == self.events,
            Some(_) => r is Ok && post.events@ == self.events@.filter(not_event(id@)),
        }
    }

    /// Deletes the events with an identity. What was asked is noted even where there are none.
    pub fn delete_event(&mut self, id: &str, span: EventSpan) -> (r: Result<(), BackendError>)
        ensures
            old(self).deletes_event(id, span, *final(self), r),
    {
        self.last_delete_span = Some(span);
        if find_event(&self.events, id).is_none() {
            return Err(BackendError::NotFound(id.to_owned()));
        }
        self.drop_event(id);
        Ok(())
    }

    /// What comes of answering an invitation.
    pub open spec fn answers_invitation(
        self,
        id: &str,
        response: InvitationResponse,
        post: MockBackend,
        r: Result<(), BackendError>,
    ) -> bool {
        &&& post == (MockBackend { events: post.events, ..self })
        &&& match event_at(self.events@, id@) {
            None => r is Err && r->Err_0@ == BackendErrorView::NotFound(id@) && post.events == self.events,
            Some(i) => r is Ok && is_replaced(
                self.events@,
                post.events@,
                i,
                (EventView {
                    invitation_status: answered(response),
                    ..self.events@[i]@
                }),
            ),
        }
    }

    /// Answers the invitation to an event.
    pub fn respond_to_invitation(&mut self, id: &str, response: InvitationResponse) -> (r: Result<
        (),
        BackendError,
    >)
        ensures
            old(self).answers_invitation(id, response, *final(self), r),
    {
        let i: usize = match find_event(&self.events, id) {
            Some(i) => i,
            None => return Err(BackendError::NotFound(id.to_owned())),
        };
        let mut event = self.events[i].clone();
        let ghost before = event@;
        event.invitation_status = match response {
            InvitationResponse::Accept => InvitationStatus::Accepted,
            InvitationResponse::Decline => InvitationStatus::Declined,
            InvitationResponse::Maybe => InvitationStatus::Tentative,
        };
        proof {
            assert(event@ =~= (EventView { invitation_status: answered(response), ..before }));
        }
        self.events.set(i, event);
        Ok(())
    }
}

/// How an invitation stands once it is answered.
pub open spec fn answered(response: InvitationResponse) -> InvitationStatus {
    match response {
        InvitationResponse::Accept => InvitationStatus::Accepted,
        InvitationResponse::Decline => InvitationStatus::Declined,
        InvitationResponse::Maybe => InvitationStatus::Tentative,
    }
}

/// Whether one event was added at the end of a list.
pub open spec fn is_extended(before: Seq<Event>, after: Seq<Event>, event: EventView) -> bool {
    &&& after.len() == before.len() + 1
    &&& after.drop_last() == before
    &&& after.last()@ == event
}

/// Whether one event of a list was replaced.
pub open spec fn is_replaced(
    before: Seq<Event>,
    after: Seq<Event>,
    i: int,
    event: EventView,
) -> bool {
    &&& after.len() == before.len()
    &&& forall|j: int| 0 <= j < before.len() && j != i ==> #[trigger] after[j] == before[j]
    &&& after[i]@ == event
}

/// Whether no two calendars share an identity.
pub open spec fn distinct_calendars(calendars: Seq<CalendarInfo>) -> bool {
    forall|i: int, j: int|
        0 <= i < j < calendars.len() ==> (#[trigger] calendars[i]).id@ != (
        #[trigger] calendars[j]).id@
}

/// A calendar that was created is listed, once, and as it was asked for.
pub proof fn law_created_calendar_is_listed(before: Seq<CalendarInfo>, calendar: CalendarInfo)
    requires
        calendar.id@ == created_calendar_id(),
    ensures
        ({
            let after = before.filter(not_calendar(created_calendar_id())).push(calendar);
            &&& calendar_at(after, created_calendar_id()) == Some(after.len() - 1)
            &&& after.last() == calendar
        }),
{
    let id = created_calendar_id();
    let kept = before.filter(not_calendar(id));
    let after = kept.push(calendar);
    let same = calendar_named(id);
    assert forall|i: int| 0 <= i < kept.len() implies !same(#[trigger] kept[i]) by {
        before.lemma_filter_pred(not_calendar(id), i);
    }
    assert forall|i: int| 0 <= i < after.len() - 1 implies !same(#[trigger] after[i]) by {
        assert(after[i] == kept[i]);
    }
    lemma_first_is(after, same, after.len() - 1);
}

/// Creating and deleting calendars keep identities distinct.
pub proof fn law_calendars_stay_distinct(
    before: Seq<CalendarInfo>,
    calendar: CalendarInfo,
    i: int,
)
    requires
        distinct_calendars(before),
        calendar.id@ == created_calendar_id(),
        0 <= i < before.len(),
    ensures
        distinct_calendars(before.filter(not_calendar(created_calendar_id())).push(calendar)),
        distinct_calendars(before.remove(i)),
{
    let id = created_calendar_id();
    let kept = before.filter(not_calendar(id));
    let after = kept.push(calendar);
    lemma_filter_keeps_distinct(before, not_calendar(id));
    assert forall|a: int, b: int| 0 <= a < b < after.len() implies (#[trigger] after[a]).id@ != (
    #[trigger] after[b]).id@ by {
        before.lemma_filter_pred(not_calendar(id), a);
        assert(after[a] == kept[a]);
        if b < kept.len() {
            assert(after[b] == kept[b]);
        }
    }
    let less = before.remove(i);
    assert forall|a: int, b: int| 0 <= a < b < less.len() implies (#[trigger] less[a]).id@ != (
    #[trigger] less[b]).id@ by {
        let x = if a < i {
            a
        } else {
            a + 1
        };
        let y = if b < i {
            b
        } else {
            b + 1
        };
        assert(less[a] == before[x]);
        assert(less[b] == before[y]);
    }
}

proof fn lemma_filter_keeps_distinct(s: Seq<CalendarInfo>, p: spec_fn(CalendarInfo) -> bool)
    requires
        distinct_calendars(s),
    ensures
        distinct_calendars(s.filter(p)),
    decreases s.len(),
{
    reveal(Seq::filter);
    if s.len() > 0 {
        let t = s.drop_last();
        assert forall|i: int, j: int| 0 <= i < j < t.len() implies (#[trigger] t[i]).id@ != (
        #[trigger] t[j]).id@ by {
            assert(t[i] == s[i]);
            assert(t[j] == s[j]);
        }
        lemma_filter_keeps_distinct(t, p);
        let u = t.filter(p);
        assert forall|i: int| 0 <= i < u.len() implies (#[trigger] u[i]).id@ != s.last().id@ by {
            lemma_filter_from(t, p, i);
            let k = choose|k: int| 0 <= k < t.len() && t[k] == u[i];
            assert(t[k] == s[k]);
            assert(s[k].id@ != s[s.len() - 1].id@);
        }
    }
}

proof fn lemma_filter_from(s: Seq<CalendarInfo>, p: spec_fn(CalendarInfo) -> bool, i: int)
    requires
        0 <= i < s.filter(p).len(),
    ensures
        exists|k: int| 0 <= k < s.len() && s[k] == s.filter(p)[i],
    decreases s.len(),
{
    reveal(Seq::filter);
    if s.len() > 0 {
        let t = s.drop_last();
        if i < t.filter(p).len() {
            lemma_filter_from(t, p, i);
            let k = choose|k: int| 0 <= k < t.len() && t[k] == t.filter(p)[i];
            assert(s[k] == s.filter(p)[i]);
        } else {
            assert(s[s.len() - 1] == s.filter(p)[i]);
        }
    }
}

/// A calendar that was deleted is listed no more, where identities are distinct.
pub proof fn law_deleted_calendar_is_gone(before: Seq<CalendarInfo>, id: Seq<char>)
    requires
        distinct_calendars(before),
        calendar_at(before, id) is Some,
    ensures
        calendar_at(before.remove(calendar_at(before, id)->0), id) is None,
{
    let same = calendar_named(id);
    lemma_first_from(before, same, 0);
    let i = calendar_at(before, id)->0;
    let after = before.remove(i);
    lemma_first_from(after, same, 0);
    if let Some(k) = first_where(after, same) {
        if k < i {
            assert(after[k] == before[k]);
        } else {
            assert(after[k] == before[k + 1]);
            assert(before[i].id@ != before[k + 1].id@);
        }
    }
}

/// An event that was deleted is gone.
pub proof fn law_deleted_event_is_gone(before: Seq<Event>, id: Seq<char>)
    ensures
        event_at(before.filter(not_event(id)), id) is None,
{
    let same = event_named(id);
    let after = before.filter(not_event(id));
    lemma_first_from(after, same, 0);
    if let Some(k) = first_where(after, same) {
        before.lemma_filter_pred(not_event(id), k);
    }
}

/// An event that was created is among the events of every range that its time meets.
pub proof fn law_created_event_is_found(
    before: Seq<Event>,
    after: Seq<Event>,
    draft: EventDraftView,
    id: Seq<char>,
    start: Timestamp,
    end: Timestamp,
)
    requires
        is_extended(before, after, drafted(draft, id)),
        drafted(draft, id).start.nanos < end.nanos,
        drafted(draft, id).end.nanos > start.nanos,
    ensures
        event_views(
            after.filter(|event: Event| wanted(event, start, end, Seq::empty())),
        ).contains(drafted(draft, id)),
{
    let p = |event: Event| wanted(event, start, end, Seq::empty());
    let last = after.len() - 1;
    assert(after.last()@.start == after.last().start);
    assert(after.last()@.end == after.last().end);
    assert(p(after[last]));
    after.lemma_filter_contains(p, last);
    let found = after.filter(p);
    let k = choose|k: int| 0 <= k < found.len() && found[k] == after[last];
    assert(event_views(found)[k] == drafted(draft, id));
}

/// An update that is to preserve the time or the alarms leaves them as they were.
pub proof fn law_updates_preserve(
    draft: EventDraftView,
    id: Seq<char>,
    before: EventView,
    alarms: Option<Seq<Alarm>>,
    mutation: EventTimeMutation,
)
    ensures
        alarms is None ==> updated(draft, id, before, alarms, mutation).alarms == before.alarms,
        mutation is Preserve ==> ({
            let after = updated(draft, id, before, alarms, mutation);
            &&& after.start == before.start
            &&& after.end == before.end
            &&& after.all_day == before.all_day
            &&& after.all_day_start_date == before.all_day_start_date
            &&& after.all_day_end_date_exclusive == before.all_day_end_date_exclusive
            &&& after.time_zone == before.time_zone
        }),
{
}

/// Whether an identity is one that was drawn at random.
pub closed spec fn was_drawn(id: Seq<char>) -> bool {
    exists|drawn: String| drawn@ == id && #[trigger] call_ensures(fresh_id, (), drawn)
}

/// `uuid::Uuid::new_v4`, written out: an identity drawn at random, thirty-six characters long. That
/// it is new cannot be promised.
#[verifier::external_body]
fn fresh_id() -> (r: String)
    ensures
        r@.len() == 36,
{
    uuid::Uuid::new_v4().to_string()
}

} // verus!
