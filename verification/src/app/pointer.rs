//! The pointer: trying a move of an event, and the wheel.
//!
//! Nothing here changes an event. A move that is let go gives the action that moves the event, and
//! the caller decides when to carry it out.

use super::overlays::moved_place;
use super::shown::{law_shown_events_are_complete, names, near_midnight, place_of};
use super::{
    message, App, DragSession, DragState, EventMoveTarget, TimelineViewportOwner, UserAction, View,
};
use crate::hit_test::{CalendarHitGeometry, CalendarHitTarget};
use crate::input::{PointerAction, PointerButton, PointerEvent};
use crate::model::{index_view, Event};
use crate::seqs::lemma_first_from;
use crate::time::{local_single, read_once, reads_near, Date, Timestamp, WallTime};
use vstd::prelude::*;
use vstd::view::View as _;

verus! {

/// Why a move that is being tried cannot be made.
#[derive(Clone, Copy, Debug, PartialEq, Eq, Structural)]
pub enum DragSessionError {
    NoActiveSession,
    InvalidOrigin,
    StaleEvent,
    ReadOnlyCalendar,
    LegacyAllDay,
    InvalidTarget,
    InvalidLocalTime,
    OutOfRange,
}

impl DragSessionError {
    /// What the error says.
    pub open spec fn text(self) -> Seq<char> {
        match self {
            DragSessionError::NoActiveSession => "No active drag session"@,
            DragSessionError::InvalidOrigin => "Drag must start on the selected event"@,
            DragSessionError::StaleEvent => "Event no longer exists"@,
            DragSessionError::ReadOnlyCalendar => "This calendar is read-only"@,
            DragSessionError::LegacyAllDay =>
                "Legacy all-day events must be refreshed before moving"@,
            DragSessionError::InvalidTarget => "Drop target cannot move this event"@,
            DragSessionError::InvalidLocalTime =>
                "Drop time is ambiguous or invalid in the local time zone"@,
            DragSessionError::OutOfRange => "Drop target is out of range"@,
        }
    }

    /// What the error says.
    pub fn message(self) -> (r: &'static str)
        ensures
            r@ == self.text(),
    {
        match self {
            DragSessionError::NoActiveSession => "No active drag session",
            DragSessionError::InvalidOrigin => "Drag must start on the selected event",
            DragSessionError::StaleEvent => "Event no longer exists",
            DragSessionError::ReadOnlyCalendar => "This calendar is read-only",
            DragSessionError::LegacyAllDay =>
                "Legacy all-day events must be refreshed before moving",
            DragSessionError::InvalidTarget => "Drop target cannot move this event",
            DragSessionError::InvalidLocalTime =>
                "Drop time is ambiguous or invalid in the local time zone",
            DragSessionError::OutOfRange => "Drop target is out of range",
        }
    }
}

/// What a move that is being tried would make of an event.
#[derive(Debug, PartialEq, Eq)]
pub enum DragPreview {
    Timed {
        event_id: String,
        title: String,
        original_start: Timestamp,
        original_end: Timestamp,
        proposed_start: Timestamp,
        proposed_end: Timestamp,
        current_target: CalendarHitTarget,
    },
    AllDay {
        event_id: String,
        title: String,
        original_start_date: Date,
        original_end_date_exclusive: Date,
        proposed_start_date: Date,
        proposed_end_date_exclusive: Date,
        current_target: CalendarHitTarget,
    },
}

/// Where an event goes that is let go over a target, where the machine's clock shows the target's
/// minute once, at `start`, or not once. An event keeps its length.
pub open spec fn drag_target(event: Event, target: CalendarHitTarget, start: Option<Timestamp>) -> Result<
    EventMoveTarget,
    DragSessionError,
> {
    if event.all_day {
        let date = match target {
            CalendarHitTarget::AllDayRow { date } => Some(date),
            CalendarHitTarget::EmptyCalendarCell { date } => Some(date),
            _ => None,
        };
        match (date, event.date_range()) {
            (None, _) => Err(DragSessionError::InvalidTarget),
            (Some(_), None) => Err(DragSessionError::LegacyAllDay),
            (Some(date), Some(dates)) => match date.shifted(dates.1.day - dates.0.day) {
                None => Err(DragSessionError::OutOfRange),
                Some(end_date_exclusive) => Ok(
                    EventMoveTarget::AllDay { start_date: date, end_date_exclusive },
                ),
            },
        }
    } else {
        match target {
            CalendarHitTarget::TimedSlot { minute, .. } => if minute >= 1_440 {
                Err(DragSessionError::InvalidTarget)
            } else {
                match start {
                    None => Err(DragSessionError::InvalidLocalTime),
                    Some(start) => Ok(
                        EventMoveTarget::Timed {
                            start,
                            end: start.clamped_shift(event.start.nanos_until(event.end)),
                        },
                    ),
                }
            },
            _ => Err(DragSessionError::InvalidTarget),
        }
    }
}

/// Where an event goes that is let go over a target.
pub fn drag_target_at(event: &Event, target: &CalendarHitTarget, start: Option<Timestamp>) -> (r:
    Result<EventMoveTarget, DragSessionError>)
    ensures
        r == drag_target(*event, *target, start),
{
    if event.all_day {
        let date = match target {
            CalendarHitTarget::AllDayRow { date } => *date,
            CalendarHitTarget::EmptyCalendarCell { date } => *date,
            _ => return Err(DragSessionError::InvalidTarget),
        };
        return match event.all_day_date_range() {
            None => Err(DragSessionError::LegacyAllDay),
            Some((first, last)) => match date.plus_days(last.day as i64 - first.day as i64) {
                None => Err(DragSessionError::OutOfRange),
                Some(end_date_exclusive) => Ok(
                    EventMoveTarget::AllDay { start_date: date, end_date_exclusive },
                ),
            },
        };
    }
    match target {
        CalendarHitTarget::TimedSlot { minute, .. } => {
            if *minute >= 1_440 {
                return Err(DragSessionError::InvalidTarget);
            }
            match start {
                None => Err(DragSessionError::InvalidLocalTime),
                Some(start) => Ok(
                    EventMoveTarget::Timed {
                        start,
                        end: start.plus_nanos(event.start.until(event.end)),
                    },
                ),
            }
        },
        _ => Err(DragSessionError::InvalidTarget),
    }
}

/// The wall time that a target stands for, where it is a minute of a day.
pub open spec fn slot_time(target: CalendarHitTarget) -> Option<WallTime> {
    match target {
        CalendarHitTarget::TimedSlot { date, minute } => if minute < 1_440 {
            Some(WallTime { date: date.clamped(), second: (minute * 60) as u32 })
        } else {
            None
        },
        _ => None,
    }
}

/// Whether an instant is the one at which the machine's clock shows a target's minute, or none where
/// the clock does not show it exactly once, or the target is no minute of a day.
pub open spec fn may_begin_at(target: CalendarHitTarget, start: Option<Timestamp>) -> bool {
    match slot_time(target) {
        Some(wall) => read_once(wall, start),
        None => start is None,
    }
}

/// The instant at which the machine's clock shows a target's minute, where it does so once.
pub fn slot_start(target: &CalendarHitTarget) -> (r: Option<Timestamp>)
    ensures
        may_begin_at(*target, r),
{
    match target {
        CalendarHitTarget::TimedSlot { date, minute } => {
            if *minute >= 1_440 {
                return None;
            }
            local_single(WallTime { date: date.nearest(), second: *minute as u32 * 60 })
        },
        _ => None,
    }
}

impl App {
    /// Why the event at an index cannot be moved by the pointer.
    pub open spec fn drag_fault(self, index: Option<int>) -> Option<DragSessionError> {
        match index {
            None => Some(DragSessionError::StaleEvent),
            Some(i) => {
                let event = self.snapshot.events@[i];
                if !self.writable(event.calendar_id@) {
                    Some(DragSessionError::ReadOnlyCalendar)
                } else if event.all_day && event.date_range() is None {
                    Some(DragSessionError::LegacyAllDay)
                } else {
                    None
                }
            },
        }
    }

    fn find_drag_fault(&self, index: Option<usize>) -> (r: Option<DragSessionError>)
        requires
            index matches Some(i) ==> i < self.snapshot.events@.len(),
        ensures
            r == self.drag_fault(index_view(index)),
    {
        match index {
            None => Some(DragSessionError::StaleEvent),
            Some(i) => {
                let event = &self.snapshot.events[i];
                if !self.calendar_is_writable(event.calendar_id.as_str()) {
                    Some(DragSessionError::ReadOnlyCalendar)
                } else if event.all_day && event.all_day_date_range().is_none() {
                    Some(DragSessionError::LegacyAllDay)
                } else {
                    None
                }
            },
        }
    }

    /// The state after a move of an event begins to be tried: it must begin on the event.
    pub open spec fn after_drag_start(
        self,
        event_id: String,
        origin: CalendarHitTarget,
        post: App,
        r: bool,
    ) -> bool {
        if !(origin matches CalendarHitTarget::ExistingEvent { event_id: id } && id@ == event_id@) {
            !r && self.told(DragSessionError::InvalidOrigin.text(), true, post)
        } else {
            exists|index: Option<int>| #[trigger]
                self.may_act_on(event_id@, index) && match self.drag_fault(index) {
                    Some(error) => !r && self.told(error.text(), true, post),
                    None => r && post == (App {
                        drag_session: DragSession {
                            event_id: Some(event_id),
                            origin: Some(origin),
                            current_target: None,
                            state: DragState::Pressed,
                        },
                        ..self
                    }),
                }
        }
    }

    /// Begins to try a move of an event.
    pub fn start_drag_session(&mut self, event_id: String, origin: CalendarHitTarget) -> (r: bool)
        ensures
            old(self).after_drag_start(event_id, origin, *final(self), r),
            old(self).wf() ==> final(self).wf(),
    {
        let on_event = match &origin {
            CalendarHitTarget::ExistingEvent { event_id: id } => *id == event_id,
            _ => false,
        };
        if !on_event {
            self.tell(DragSessionError::InvalidOrigin.message(), true);
            return false;
        }
        let index = self.visible_event_index(event_id.as_str());
        proof {
            assert(old(self).may_act_on(event_id@, index_view(index)));
        }
        match self.find_drag_fault(index) {
            Some(error) => {
                self.tell(error.message(), true);
                false
            },
            None => {
                self.drag_session.start(event_id, origin);
                true
            },
        }
    }

    /// The state after a target is tried. One that the event cannot go to is kept too, but cannot be
    /// let go over.
    pub open spec fn after_drag_update(self, target: CalendarHitTarget, post: App, r: bool) -> bool {
        match self.drag_session.event_id {
            None => !r && self.told(DragSessionError::NoActiveSession.text(), true, post),
            Some(id) => exists|index: Option<int>| #[trigger]
                self.may_act_on(id@, index) && match self.drag_fault(index) {
                    Some(error) => !r && self.told(error.text(), true, post),
                    None => {
                        &&& exists|start: Option<Timestamp>|
                            may_begin_at(target, start) && r == (#[trigger] drag_target(
                                self.snapshot.events@[index->0],
                                target,
                                start,
                            ) is Ok)
                        &&& post == (App {
                            drag_session: DragSession {
                                current_target: Some(target),
                                state: if r {
                                    DragState::Preview
                                } else {
                                    DragState::Dragging
                                },
                                ..self.drag_session
                            },
                            ..self
                        })
                    },
                },
        }
    }

    /// Tries a target.
    pub fn update_drag_preview(&mut self, target: CalendarHitTarget) -> (r: bool)
        ensures
            old(self).after_drag_update(target, *final(self), r),
            old(self).wf() ==> final(self).wf(),
    {
        let index = match &self.drag_session.event_id {
            None => {
                self.tell(DragSessionError::NoActiveSession.message(), true);
                return false;
            },
            Some(id) => {
                let index = self.visible_event_index(id.as_str());
                proof {
                    assert(self.may_act_on(id@, index_view(index)));
                }
                index
            },
        };
        match (self.find_drag_fault(index), index) {
            (Some(error), _) => {
                self.tell(error.message(), true);
                false
            },
            (None, Some(i)) => {
                let start = slot_start(&target);
                let valid = drag_target_at(&self.snapshot.events[i], &target, start).is_ok();
                self.drag_session.update(target, valid);
                valid
            },
            (None, None) => false,
        }
    }

    /// Gives up a move that is being tried.
    pub fn cancel_drag_session(&mut self)
        ensures
            *final(self) == (App { drag_session: final(self).drag_session, ..*old(self) }),
            final(self).drag_session.is_idle(),
    {
        self.drag_session.cancel();
    }

    /// Whether a preview is of a move of an event to a target.
    pub open spec fn is_preview(
        event: Event,
        current_target: CalendarHitTarget,
        target: EventMoveTarget,
        preview: DragPreview,
    ) -> bool {
        match target {
            EventMoveTarget::Timed { start, end } => preview == (DragPreview::Timed {
                event_id: event.id,
                title: event.title,
                original_start: event.start,
                original_end: event.end,
                proposed_start: start,
                proposed_end: end,
                current_target,
            }),
            EventMoveTarget::AllDay { start_date, end_date_exclusive } => event.date_range()
                matches Some(dates) && preview == (DragPreview::AllDay {
                event_id: event.id,
                title: event.title,
                original_start_date: dates.0,
                original_end_date_exclusive: dates.1,
                proposed_start_date: start_date,
                proposed_end_date_exclusive: end_date_exclusive,
                current_target,
            }),
        }
    }

    /// Whether a preview is of the move that is being tried, where the event is at an index and the
    /// clock shows the target's minute at `start`: while the target is valid, the event is shown,
    /// and its calendar can be written to.
    pub open spec fn previews(
        self,
        current: CalendarHitTarget,
        index: Option<int>,
        start: Option<Timestamp>,
        r: Option<DragPreview>,
    ) -> bool {
        match index {
            None => r is None,
            Some(i) => {
                let event = self.snapshot.events@[i];
                match drag_target(event, current, start) {
                    Ok(target) => if self.writable(event.calendar_id@) {
                        r matches Some(preview) && Self::is_preview(event, current, target, preview)
                    } else {
                        r is None
                    },
                    Err(_) => r is None,
                }
            },
        }
    }

    /// Whether a preview is of the move that is being tried, for what is shown and for what a clock
    /// may show.
    pub open spec fn may_preview(self, r: Option<DragPreview>) -> bool {
        match (self.drag_session.event_id, self.drag_session.current_target) {
            (Some(id), Some(current)) => if self.drag_session.state != DragState::Preview {
                r is None
            } else {
                exists|index: Option<int>, start: Option<Timestamp>|
                    #![trigger self.may_act_on(id@, index), may_begin_at(current, start)]
                    self.may_act_on(id@, index) && may_begin_at(current, start) && self.previews(
                        current,
                        index,
                        start,
                        r,
                    )
            },
            _ => r is None,
        }
    }

    fn build_preview(event: &Event, current: &CalendarHitTarget, target: EventMoveTarget) -> (r:
        Option<DragPreview>)
        ensures
            match r {
                Some(preview) => Self::is_preview(*event, *current, target, preview),
                None => target is AllDay && event.date_range() is None,
            },
    {
        match target {
            EventMoveTarget::Timed { start, end } => Some(
                DragPreview::Timed {
                    event_id: event.id.clone(),
                    title: event.title.clone(),
                    original_start: event.start,
                    original_end: event.end,
                    proposed_start: start,
                    proposed_end: end,
                    current_target: current.clone(),
                },
            ),
            EventMoveTarget::AllDay { start_date, end_date_exclusive } => {
                match event.all_day_date_range() {
                    None => None,
                    Some((first, last)) => Some(
                        DragPreview::AllDay {
                            event_id: event.id.clone(),
                            title: event.title.clone(),
                            original_start_date: first,
                            original_end_date_exclusive: last,
                            proposed_start_date: start_date,
                            proposed_end_date_exclusive: end_date_exclusive,
                            current_target: current.clone(),
                        },
                    ),
                }
            },
        }
    }

    /// The preview of the move that is being tried, where the event is at an index and the clock
    /// shows the target's minute at `start`.
    pub open spec fn is_previewed(
        self,
        index: Option<int>,
        start: Option<Timestamp>,
        r: Option<DragPreview>,
    ) -> bool {
        match (self.drag_session.event_id, self.drag_session.current_target) {
            (Some(_), Some(current)) => if self.drag_session.state != DragState::Preview {
                r is None
            } else {
                self.previews(current, index, start, r)
            },
            _ => r is None,
        }
    }

    /// What the move that is being tried would make of the event at an index, where the clock shows
    /// the target's minute at `start`. Nothing is changed.
    pub fn preview_at(&self, index: Option<usize>, start: Option<Timestamp>) -> (r: Option<
        DragPreview,
    >)
        requires
            index matches Some(i) ==> i < self.snapshot.events@.len(),
        ensures
            self.is_previewed(index_view(index), start, r),
    {
        if self.drag_session.state != DragState::Preview {
            return None;
        }
        match (&self.drag_session.event_id, &self.drag_session.current_target) {
            (Some(_), Some(current)) => match index {
                None => None,
                Some(i) => {
                    let event = &self.snapshot.events[i];
                    if !self.calendar_is_writable(event.calendar_id.as_str()) {
                        return None;
                    }
                    match drag_target_at(event, current, start) {
                        Ok(target) => Self::build_preview(event, current, target),
                        Err(_) => None,
                    }
                },
            },
            _ => None,
        }
    }

    /// What the move that is being tried would make of the event. Nothing is changed.
    pub fn drag_preview(&self) -> (r: Option<DragPreview>)
        ensures
            self.may_preview(r),
    {
        match (&self.drag_session.event_id, &self.drag_session.current_target) {
            (Some(id), Some(current)) => {
                let index = self.visible_event_index(id.as_str());
                let start = slot_start(current);
                proof {
                    assert(self.may_act_on(id@, index_view(index)));
                    assert(may_begin_at(*current, start));
                }
                self.preview_at(index, start)
            },
            _ => None,
        }
    }

    /// The state after a move is let go, where the event is at an index and the clock shows the
    /// target's minute at `start`: the action that moves the event, or what is wrong.
    pub open spec fn drops(
        self,
        id: String,
        current: CalendarHitTarget,
        index: Option<int>,
        start: Option<Timestamp>,
        post: App,
        r: Option<UserAction>,
    ) -> bool {
        match self.drag_fault(index) {
            Some(error) => r is None && self.told(error.text(), true, post),
            None => match drag_target(self.snapshot.events@[index->0], current, start) {
                Err(error) => r is None && self.told(error.text(), true, post),
                Ok(target) => {
                    &&& post == (App {
                        drag_session: DragSession {
                            state: DragState::Dropped,
                            ..self.drag_session
                        },
                        ..self
                    })
                    &&& r == Some(UserAction::MoveEvent { event_id: id, target })
                },
            },
        }
    }

    /// The state after a move is let go, for what is shown and for what a clock may show.
    pub open spec fn after_drop(self, post: App, r: Option<UserAction>) -> bool {
        match (self.drag_session.event_id, self.drag_session.current_target) {
            (None, _) => r is None && self.told(
                DragSessionError::NoActiveSession.text(),
                true,
                post,
            ),
            (Some(_), None) => r is None && self.told(
                DragSessionError::InvalidTarget.text(),
                true,
                post,
            ),
            (Some(id), Some(current)) => exists|index: Option<int>, start: Option<Timestamp>|
                #![trigger self.may_act_on(id@, index), may_begin_at(current, start)]
                self.may_act_on(id@, index) && may_begin_at(current, start) && self.drops(
                    id,
                    current,
                    index,
                    start,
                    post,
                    r,
                ),
        }
    }

    /// The state after a move is let go, where the event is at an index and the clock shows the
    /// target's minute at `start`, for a session with and without an event and a target.
    pub open spec fn is_dropped(
        self,
        index: Option<int>,
        start: Option<Timestamp>,
        post: App,
        r: Option<UserAction>,
    ) -> bool {
        match (self.drag_session.event_id, self.drag_session.current_target) {
            (None, _) => r is None && self.told(
                DragSessionError::NoActiveSession.text(),
                true,
                post,
            ),
            (Some(_), None) => r is None && self.told(
                DragSessionError::InvalidTarget.text(),
                true,
                post,
            ),
            (Some(id), Some(current)) => self.drops(id, current, index, start, post, r),
        }
    }

    /// Lets a move go, where its event is at an index and the clock shows the target's minute at
    /// `start`.
    pub fn drop_at(&mut self, index: Option<usize>, start: Option<Timestamp>) -> (r: Option<
        UserAction,
    >)
        requires
            index matches Some(i) ==> i < old(self).snapshot.events@.len(),
        ensures
            old(self).is_dropped(index_view(index), start, *final(self), r),
            old(self).wf() ==> final(self).wf(),
    {
        let (id, current) = match (&self.drag_session.event_id, &self.drag_session.current_target) {
            (None, _) => {
                self.tell(DragSessionError::NoActiveSession.message(), true);
                return None;
            },
            (Some(_), None) => {
                self.tell(DragSessionError::InvalidTarget.message(), true);
                return None;
            },
            (Some(id), Some(current)) => (id.clone(), current.clone()),
        };
        match (self.find_drag_fault(index), index) {
            (Some(error), _) => {
                self.tell(error.message(), true);
                None
            },
            (None, Some(i)) => {
                match drag_target_at(&self.snapshot.events[i], &current, start) {
                    Err(error) => {
                        self.tell(error.message(), true);
                        None
                    },
                    Ok(target) => {
                        self.drag_session.state = DragState::Dropped;
                        Some(UserAction::MoveEvent { event_id: id, target })
                    },
                }
            },
            (None, None) => None,
        }
    }

    /// Lets a move go.
    pub fn drop_drag_session(&mut self) -> (r: Option<UserAction>)
        ensures
            old(self).after_drop(*final(self), r),
            old(self).wf() ==> final(self).wf(),
    {
        let (index, start) = match (
            &self.drag_session.event_id,
            &self.drag_session.current_target,
        ) {
            (Some(id), Some(current)) => {
                let index = self.visible_event_index(id.as_str());
                let start = slot_start(current);
                proof {
                    assert(self.may_act_on(id@, index_view(index)));
                    assert(may_begin_at(*current, start));
                }
                (index, start)
            },
            _ => (None, None),
        };
        self.drop_at(index, start)
    }

    /// The state after the wheel is turned: the timeline is scrolled where there is one, else the
    /// selection moves.
    pub open spec fn after_wheel(self, delta_y: i16, post: App) -> bool {
        let timeline = self.view == View::Day || self.view == View::Week;
        if delta_y == 0 {
            post == self
        } else if timeline {
            post == (App {
                timeline_start_minute: self.scrolled(
                    if delta_y > 0 {
                        60
                    } else {
                        -60
                    },
                ),
                timeline_viewport_owner: TimelineViewportOwner::Manual,
                ..self
            })
        } else {
            exists|list: Seq<int>| #[trigger]
                self.may_show(list) && post == (App {
                    selected_event: moved_place(
                        self.selected_event,
                        if delta_y > 0 {
                            1
                        } else {
                            -1
                        },
                        list.len() as int,
                    ),
                    ..self
                })
        }
    }

    fn turn_wheel(&mut self, delta_y: i16)
        ensures
            old(self).after_wheel(delta_y, *final(self)),
            old(self).wf() ==> final(self).wf(),
    {
        if delta_y == 0 {
            return;
        }
        if self.view == View::Day || self.view == View::Week {
            self.scroll_timeline(
                if delta_y > 0 {
                    60
                } else {
                    -60
                },
            );
        } else {
            self.move_selection(
                if delta_y > 0 {
                    1
                } else {
                    -1
                },
            );
        }
    }

    /// The state after a press on a target: an event is selected where it is shown, and a move of it
    /// begins to be tried. One in a calendar that cannot be written to is selected all the same.
    pub open spec fn after_press(self, target: CalendarHitTarget, post: App) -> bool {
        match target {
            CalendarHitTarget::ExistingEvent { event_id } => exists|
                place: Option<int>,
                begun: bool,
            |
                #![trigger self.may_locate(event_id@, place), self.pressed_on(
                    event_id,
                    place,
                    post,
                    begun,
                )]
                self.may_locate(event_id@, place) && self.pressed_on(event_id, place, post, begun),
            _ => post == self,
        }
    }

    /// The state after a press on an event that stands at a place of those shown.
    pub open spec fn pressed_on(
        self,
        event_id: String,
        place: Option<int>,
        post: App,
        begun: bool,
    ) -> bool {
        (App {
            selected_event: match place {
                Some(k) => k as usize,
                None => self.selected_event,
            },
            ..self
        }).after_drag_start(
            event_id,
            CalendarHitTarget::ExistingEvent { event_id },
            post,
            begun,
        )
    }

    fn press(&mut self, target: CalendarHitTarget)
        ensures
            old(self).after_press(target, *final(self)),
            old(self).wf() ==> final(self).wf(),
    {
        match target {
            CalendarHitTarget::ExistingEvent { event_id } => {
                let place = self.visible_place(event_id.as_str());
                proof {
                    assert(old(self).may_locate(event_id@, index_view(place)));
                }
                self.selected_event = match place {
                    Some(k) => k,
                    None => self.selected_event,
                };
                let origin = CalendarHitTarget::ExistingEvent { event_id: event_id.clone() };
                let begun = self.start_drag_session(event_id, origin);
                proof {
                    assert(old(self).pressed_on(event_id, index_view(place), *self, begun));
                }
            },
            _ => {},
        }
    }

    /// The state after a target is tried, where the pointer is over one.
    pub open spec fn target_tried(self, target: Option<CalendarHitTarget>, post: App) -> bool {
        match target {
            None => post == self,
            Some(target) => exists|valid: bool| #[trigger]
                self.after_drag_update(target, post, valid),
        }
    }

    fn try_target(&mut self, target: Option<CalendarHitTarget>)
        ensures
            old(self).target_tried(target, *final(self)),
            old(self).wf() ==> final(self).wf(),
    {
        match target {
            None => {},
            Some(target) => {
                let valid = self.update_drag_preview(target);
                proof {
                    assert(old(self).after_drag_update(target, *self, valid));
                }
            },
        }
    }

    /// The state after a move is let go where the pointer is: it gives an action, or is given up.
    pub open spec fn after_release(
        self,
        target: Option<CalendarHitTarget>,
        post: App,
        r: Option<UserAction>,
    ) -> bool {
        exists|tried: App, dropped: App|
            self.target_tried(target, tried) && #[trigger] tried.after_drop(dropped, r) && (if r
                is Some {
                post == dropped
            } else {
                post == (App { drag_session: post.drag_session, ..dropped })
                    && post.drag_session.is_idle()
            }) && #[trigger] self.target_tried(target, tried)
    }

    fn release(&mut self, target: Option<CalendarHitTarget>) -> (r: Option<UserAction>)
        ensures
            old(self).after_release(target, *final(self), r),
            old(self).wf() ==> final(self).wf(),
    {
        self.try_target(target);
        let ghost tried = *self;
        let r = self.drop_drag_session();
        let ghost dropped = *self;
        if r.is_none() {
            self.cancel_drag_session();
        }
        proof {
            assert(old(self).target_tried(target, tried));
            assert(tried.after_drop(dropped, r));
        }
        r
    }

    /// The state after the pointer did something, over a target where it is over the calendar.
    pub open spec fn after_pointer(
        self,
        pointer: PointerEvent,
        target: Option<CalendarHitTarget>,
        post: App,
        r: Option<UserAction>,
    ) -> bool {
        let trying = self.drag_session.event_id is Some;
        match pointer.action {
            PointerAction::Press => {
                &&& r is None
                &&& if pointer.button == Some(PointerButton::Primary) {
                    match target {
                        Some(target) => self.after_press(target, post),
                        None => post == self,
                    }
                } else {
                    post == self
                }
            },
            PointerAction::Move => {
                &&& r is None
                &&& if trying {
                    self.target_tried(target, post)
                } else {
                    post == self
                }
            },
            PointerAction::Release => if trying {
                self.after_release(target, post, r)
            } else {
                r is None && post == self
            },
            PointerAction::Cancel => {
                &&& r is None
                &&& post == (App { drag_session: post.drag_session, ..self })
                &&& post.drag_session.is_idle()
            },
            PointerAction::Scroll { delta_y, .. } => r is None && self.after_wheel(delta_y, post),
        }
    }

    /// Handles what the pointer did, over a target.
    pub fn handle_pointer_over(
        &mut self,
        pointer: PointerEvent,
        target: Option<CalendarHitTarget>,
    ) -> (r: Option<UserAction>)
        ensures
            old(self).after_pointer(pointer, target, *final(self), r),
            old(self).wf() ==> final(self).wf(),
    {
        match pointer.action {
            PointerAction::Press => {
                match (pointer.button, target) {
                    (Some(PointerButton::Primary), Some(target)) => self.press(target),
                    _ => {},
                }
                None
            },
            PointerAction::Move => {
                if self.drag_session.event_id.is_some() {
                    self.try_target(target);
                }
                None
            },
            PointerAction::Release => {
                if self.drag_session.event_id.is_some() {
                    self.release(target)
                } else {
                    None
                }
            },
            PointerAction::Cancel => {
                self.cancel_drag_session();
                None
            },
            PointerAction::Scroll { delta_y, .. } => {
                self.turn_wheel(delta_y);
                None
            },
        }
    }

    /// Whether a target is what lies under the pointer.
    pub open spec fn is_under(
        pointer: PointerEvent,
        geometry: Option<&CalendarHitGeometry>,
        target: Option<CalendarHitTarget>,
    ) -> bool {
        match (pointer.position, geometry) {
            (Some(position), Some(geometry)) => target matches Some(target) && geometry.target(
                position.x,
                position.y,
                target,
            ),
            _ => target is None,
        }
    }

    /// Handles what the pointer did over a calendar that is drawn.
    pub fn handle_pointer_with_hit_test(
        &mut self,
        pointer: PointerEvent,
        geometry: Option<&CalendarHitGeometry>,
    ) -> (r: Option<UserAction>)
        ensures
            exists|target: Option<CalendarHitTarget>| #[trigger]
                Self::is_under(pointer, geometry, target) && old(self).after_pointer(
                    pointer,
                    target,
                    *final(self),
                    r,
                ),
            old(self).wf() ==> final(self).wf(),
    {
        let target = match (pointer.position, geometry) {
            (Some(position), Some(geometry)) => Some(geometry.hit_test(position.x, position.y)),
            _ => None,
        };
        proof {
            assert(Self::is_under(pointer, geometry, target));
        }
        self.handle_pointer_over(pointer, target)
    }

    /// Handles what the pointer did where it is not known what is drawn: the wheel scrolls or moves
    /// the selection, and a press, a release, a move and a cancellation do nothing.
    pub fn handle_pointer(&mut self, pointer: PointerEvent) -> (r: Option<UserAction>)
        ensures
            r is None,
            match pointer.action {
                PointerAction::Scroll { delta_y, .. } => old(self).after_wheel(
                    delta_y,
                    *final(self),
                ),
                _ => *final(self) == *old(self),
            },
            old(self).wf() ==> final(self).wf(),
    {
        match pointer.action {
            PointerAction::Scroll { delta_y, .. } => self.turn_wheel(delta_y),
            _ => {},
        }
        None
    }
}

/// A move that is let go gives what its preview showed: where both are asked with the same events
/// shown and the same reading of the clock, the action moves the event of the preview to exactly the
/// times, or dates, that were proposed, and nothing else changes.
pub proof fn law_drop_gives_the_preview(
    app: App,
    id: String,
    current: CalendarHitTarget,
    index: Option<int>,
    start: Option<Timestamp>,
    preview: DragPreview,
    post: App,
    r: Option<UserAction>,
)
    requires
        app.drag_session.event_id == Some(id),
        app.drag_session.current_target == Some(current),
        app.may_act_on(id@, index),
        app.previews(current, index, start, Some(preview)),
        app.drops(id, current, index, start, post, r),
    ensures
        post == (App {
            drag_session: DragSession { state: DragState::Dropped, ..app.drag_session },
            ..app
        }),
        match preview {
            DragPreview::Timed { event_id, proposed_start, proposed_end, .. } => event_id@ == id@
                && r == Some(
                UserAction::MoveEvent {
                    event_id: id,
                    target: EventMoveTarget::Timed { start: proposed_start, end: proposed_end },
                },
            ),
            DragPreview::AllDay {
                event_id,
                proposed_start_date,
                proposed_end_date_exclusive,
                ..
            } => event_id@ == id@ && r == Some(
                UserAction::MoveEvent {
                    event_id: id,
                    target: EventMoveTarget::AllDay {
                        start_date: proposed_start_date,
                        end_date_exclusive: proposed_end_date_exclusive,
                    },
                },
            ),
        },
{
    let events = app.snapshot.events@;
    let list = choose|list: Seq<int>| #[trigger]
        app.may_show(list) && index == (match place_of(events, list, id@) {
            Some(k) => Some(list[k]),
            None => None,
        });
    lemma_first_from(list, names(events, id@), 0);
}

/// A move that is let go gives what its preview showed, though what is shown and the clock are
/// read twice, where no two events have the same identifier. The action moves the event of the
/// preview: to exactly the dates that were proposed, or to an instant at which a clock shows the
/// minute that was proposed, for as long as was proposed. Where there is no action, the event is no
/// longer shown, or the clock no longer shows the minute.
pub proof fn law_drop_follows_the_preview(
    app: App,
    id: String,
    current: CalendarHitTarget,
    preview: DragPreview,
    post: App,
    r: Option<UserAction>,
)
    requires
        app.drag_session.event_id == Some(id),
        app.drag_session.current_target == Some(current),
        forall|i: int, j: int|
            0 <= i < j < app.snapshot.events@.len() ==> (#[trigger] app.snapshot.events@[i]).id@
                != (#[trigger] app.snapshot.events@[j]).id@,
        app.may_preview(Some(preview)),
        app.after_drop(post, r),
    ensures
        match (r, preview) {
            (None, _) => app.told(DragSessionError::StaleEvent.text(), true, post) || app.told(
                DragSessionError::InvalidLocalTime.text(),
                true,
                post,
            ),
            (
                Some(UserAction::MoveEvent { event_id: moved, target }),
                DragPreview::AllDay {
                    event_id,
                    proposed_start_date,
                    proposed_end_date_exclusive,
                    ..
                },
            ) => moved == id && event_id@ == id@ && target == (EventMoveTarget::AllDay {
                start_date: proposed_start_date,
                end_date_exclusive: proposed_end_date_exclusive,
            }),
            (
                Some(UserAction::MoveEvent { event_id: moved, target }),
                DragPreview::Timed {
                    event_id,
                    original_start,
                    original_end,
                    proposed_start,
                    proposed_end,
                    ..
                },
            ) => {
                let length = original_start.nanos_until(original_end);
                &&& moved == id && event_id@ == id@
                &&& target matches EventMoveTarget::Timed { start, end }
                &&& slot_time(current) matches Some(wall)
                &&& reads_near(wall, proposed_start) && reads_near(wall, start)
                &&& proposed_end == proposed_start.clamped_shift(length)
                &&& end == start.clamped_shift(length)
            },
            _ => false,
        },
        r is Some ==> post == (App {
            drag_session: DragSession { state: DragState::Dropped, ..app.drag_session },
            ..app
        }),
{
    let (first, at) = choose|index: Option<int>, start: Option<Timestamp>|
        #![trigger app.may_act_on(id@, index), may_begin_at(current, start)]
        app.may_act_on(id@, index) && may_begin_at(current, start) && app.previews(
            current,
            index,
            start,
            Some(preview),
        );
    let (second, later) = choose|index: Option<int>, start: Option<Timestamp>|
        #![trigger app.may_act_on(id@, index), may_begin_at(current, start)]
        app.may_act_on(id@, index) && may_begin_at(current, start) && app.drops(
            id,
            current,
            index,
            start,
            post,
            r,
        );
    lemma_acted_on(app, id, first);
    lemma_acted_on(app, id, second);
}

/// The event that an action on an identity is about has that identity.
pub proof fn lemma_acted_on(app: App, id: String, index: Option<int>)
    requires
        app.may_act_on(id@, index),
    ensures
        index matches Some(i) ==> 0 <= i < app.snapshot.events@.len()
            && app.snapshot.events@[i].id@ == id@,
{
    let events = app.snapshot.events@;
    let list = choose|list: Seq<int>| #[trigger]
        app.may_show(list) && index == (match place_of(events, list, id@) {
            Some(k) => Some(list[k]),
            None => None,
        });
    lemma_first_from(list, names(events, id@), 0);
    let (start, end) = choose|start: Timestamp, end: Timestamp|
        near_midnight(start, app.window().0) && near_midnight(end, app.window().1) && list
            == #[trigger] app.shown_between(start, end);
    law_shown_events_are_complete(app, start, end);
    if index is Some {
        assert(app.shown_between(start, end).contains(index->0));
    }
}

/// Where an event goes that is let go is a move that is accepted: it keeps the event's length.
pub proof fn law_drops_keep_the_length(
    event: Event,
    target: CalendarHitTarget,
    start: Option<Timestamp>,
)
    requires
        drag_target(event, target, start) is Ok,
        !event.all_day ==> event.start.nanos < event.end.nanos,
        event.start.in_reach(),
        event.end.in_reach(),
        start matches Some(at) ==> at.in_reach(),
    ensures
        super::editing::move_fault(event, drag_target(event, target, start)->Ok_0) is None,
{
}

/// Trying a move changes no event, and nothing else but the move and what is said.
pub proof fn law_trying_changes_nothing(
    app: App,
    target: CalendarHitTarget,
    post: App,
    valid: bool,
)
    requires
        app.after_drag_update(target, post, valid),
    ensures
        post == (App { drag_session: post.drag_session, status: post.status, ..app }),
{
}

} // verus!
