//! Creating, editing, duplicating, moving and deleting events.

use super::overlays::frames_entered;
use super::shown::place_of;
use super::{
    command_view, message, says, App, EventMoveTarget, Mode, MutationState,
    RecurrenceMutationAction, WorkerCommand, WorkerCommandView,
};
use crate::alarm::{AlarmEditorState, AlarmEditorView};
use crate::event_form::EventForm;
use crate::model::{
    clone_alarms, clone_rules, index_view, rule_views, AlarmMutation, CalendarInfo, Event,
    EventDraft, EventDraftView, EventSpan, EventTimeInput, EventTimeMutation,
    RecurrenceMutationScope,
};
use crate::seqs::{first_from, first_where};
use crate::sorting::indices;
use crate::text::{opt_view, result_view};
use crate::time::{
    clock_time, is_current, local_now, local_wall_time, parse_clock_time, shows_near, Timestamp,
    WallTime,
};
use vstd::prelude::*;
use vstd::view::View as _;

verus! {

/// The index of the first calendar that can be written to.
pub open spec fn first_writable(calendars: Seq<CalendarInfo>) -> Option<int> {
    first_where(calendars, |calendar: CalendarInfo| calendar.is_writable)
}

fn find_first_writable(calendars: &Vec<CalendarInfo>) -> (r: Option<usize>)
    ensures
        index_view(r) == first_writable(calendars@),
        r matches Some(i) ==> i < calendars@.len(),
{
    let ghost writable = |calendar: CalendarInfo| calendar.is_writable;
    let mut i: usize = 0;
    while i < calendars.len()
        invariant
            i <= calendars@.len(),
            writable == (|calendar: CalendarInfo| calendar.is_writable),
            first_where(calendars@, writable) == first_from(calendars@, writable, i as int),
        decreases calendars@.len() - i,
    {
        if calendars[i].is_writable {
            return Some(i);
        }
        i += 1;
    }
    None
}

/// The scope that a span of occurrences stands for.
pub open spec fn scope_of(span: EventSpan) -> RecurrenceMutationScope {
    match span {
        EventSpan::ThisEvent => RecurrenceMutationScope::ThisEvent,
        EventSpan::FutureEvents => RecurrenceMutationScope::FutureEvents,
    }
}
/// What is wrong with moving an event to a target. A timed event keeps its duration, an all-day
/// event its number of days, and neither becomes the other.
pub open spec fn move_fault(event: Event, target: EventMoveTarget) -> Option<Seq<char>> {
    match target {
        EventMoveTarget::Timed { start, end } => if event.all_day {
            Some("All-day events require a calendar-date move target"@)
        } else if end.nanos <= start.nanos || start.nanos_until(end) != event.start.nanos_until(
            event.end,
        ) {
            Some("Timed moves must preserve event duration"@)
        } else {
            None
        },
        EventMoveTarget::AllDay { start_date, end_date_exclusive } => match event.date_range() {
            None => Some("Legacy all-day events must be refreshed before moving"@),
            Some(dates) => if end_date_exclusive.day <= start_date.day || end_date_exclusive.day
                - start_date.day != dates.1.day - dates.0.day {
                Some("All-day moves must preserve the calendar-date span"@)
            } else {
                None
            },
        },
    }
}

/// When an event that is moved takes place. An all-day event's instants stay: its dates say where
/// it goes.
pub open spec fn moved_time(event: Event, target: EventMoveTarget) -> (
    EventTimeInput,
    EventTimeMutation,
) {
    match target {
        EventMoveTarget::Timed { start, end } => (
            EventTimeInput::Timed { start, end },
            EventTimeMutation::ReplaceLegacy,
        ),
        EventMoveTarget::AllDay { start_date, end_date_exclusive } => (
            EventTimeInput::LegacyAllDayUnknown { start: event.start, end: event.end },
            EventTimeMutation::ReplaceAllDay { start_date, end_date_exclusive },
        ),
    }
}

/// The draft of an event as it is, at another time.
pub open spec fn draft_at(event: Event, time: EventTimeInput) -> EventDraftView {
    EventDraftView {
        id: opt_view(event.provider_id),
        occurrence_id: Some(event.id@),
        occurrence_start: Some(event.start),
        occurrence_calendar_id: Some(event.calendar_id@),
        calendar_id: event.calendar_id@,
        title: event.title@,
        time,
        location: event.location@,
        notes: event.notes@,
        url: event.url@,
        time_zone: event.time_zone@,
        availability: event.availability,
        attendees: Seq::empty(),
        alarms: event.alarms@,
        recurrence: rule_views(event.recurrence@),
    }
}

/// The span of occurrences that a chosen scope stands for.
pub open spec fn span_of(scope: Option<RecurrenceMutationScope>) -> EventSpan {
    match scope {
        Some(RecurrenceMutationScope::FutureEvents) => EventSpan::FutureEvents,
        _ => EventSpan::ThisEvent,
    }
}

/// The update that moves an event: nothing but its time changes, and its alarms are kept.
pub open spec fn move_command(
    event: Event,
    target: EventMoveTarget,
    scope: Option<RecurrenceMutationScope>,
) -> WorkerCommandView {
    let (time, change) = moved_time(event, target);
    WorkerCommandView::Update(draft_at(event, time), span_of(scope), scope, None, change)
}

fn find_move_fault(event: &Event, target: EventMoveTarget) -> (r: Option<&'static str>)
    ensures
        match r {
            Some(text) => move_fault(*event, target) == Some(text@),
            None => move_fault(*event, target) is None,
        },
{
    match target {
        EventMoveTarget::Timed { start, end } => {
            if event.all_day {
                return Some("All-day events require a calendar-date move target");
            }
            if end.nanos <= start.nanos || start.until(end) != event.start.until(event.end) {
                return Some("Timed moves must preserve event duration");
            }
            None
        },
        EventMoveTarget::AllDay { start_date, end_date_exclusive } => {
            match event.all_day_date_range() {
                None => Some("Legacy all-day events must be refreshed before moving"),
                Some((first, last)) => {
                    if end_date_exclusive.day <= start_date.day || end_date_exclusive.day as i64
                        - start_date.day as i64 != last.day as i64 - first.day as i64 {
                        Some("All-day moves must preserve the calendar-date span")
                    } else {
                        None
                    }
                },
            }
        },
    }
}

impl App {
    /// Whether an event with an identity can be the one that an action is about: the first of
    /// those shown.
    pub open spec fn may_act_on(self, id: Seq<char>, index: Option<int>) -> bool {
        exists|list: Seq<int>| #[trigger]
            self.may_show(list) && index == (match place_of(self.snapshot.events@, list, id) {
                Some(k) => Some(list[k]),
                None => None,
            })
    }

    /// The index of the event that an action is about.
    pub fn visible_event_index(&self, id: &str) -> (r: Option<usize>)
        ensures
            self.may_act_on(id@, index_view(r)),
            r matches Some(i) ==> i < self.snapshot.events@.len() && self.snapshot.events@[i as int].id@
                == id@,
    {
        let list = self.visible_indices();
        let place = self.place_in(&list, id);
        proof {
            assert(self.may_show(indices(list@)));
        }
        match place {
            Some(k) => {
                proof {
                    assert(indices(list@)[k as int] == list@[k as int]);
                }
                Some(list[k])
            },
            None => None,
        }
    }

    /// The state in which the user has only been told something.
    pub open spec fn told(self, text: Seq<char>, error: bool, post: App) -> bool {
        post == (App { status: post.status, ..self }) && says(post.status, text, error)
    }

    /// Tells the user something.
    pub fn tell(&mut self, text: &str, error: bool)
        ensures
            old(self).told(text@, error, *final(self)),
            old(self).wf() ==> final(self).wf(),
    {
        self.status = message(text.to_owned(), error);
    }

    /// The state with a form opened.
    pub open spec fn form_opened(self, post: App) -> bool {
        &&& post == (App {
            form: post.form,
            form_dirty: false,
            mutation_state: MutationState::Idle,
            mode: Mode::Form,
            modal_stack: post.modal_stack,
            ..self
        })
        &&& post.modal_stack@ == frames_entered(self.modal_stack@, self.mode, Mode::Form)
        &&& post.form matches Some(form) && form.wf()
    }

    fn open_form(&mut self, form: EventForm)
        requires
            form.wf(),
        ensures
            old(self).form_opened(*final(self)),
            final(self).form == Some(form),
            old(self).wf() ==> final(self).wf(),
    {
        self.form = Some(form);
        self.form_dirty = false;
        self.mutation_state = MutationState::Idle;
        self.enter_modal(Mode::Form);
    }

    /// The state after a new event is begun: its form is open, on the first calendar that can be
    /// written to; where there is none the user is told.
    pub open spec fn after_new(self, post: App) -> bool {
        match first_writable(self.snapshot.calendars@) {
            Some(i) => self.form_opened(post) && exists|minute: int| #[trigger]
                self.may_suggest(minute) && post.form->0.creates(
                    i,
                    self.active_date,
                    minute,
                    self.config.event.default_duration_minutes as int,
                ),
            None => self.told("No writable calendars are available"@, true, post),
        }
    }

    /// Begins a new event.
    pub fn begin_new_form(&mut self)
        ensures
            old(self).after_new(*final(self)),
            old(self).wf() ==> final(self).wf(),
    {
        match find_first_writable(&self.snapshot.calendars) {
            Some(i) => {
                let minute: u16 = self.suggested_start_minute();
                proof {
                    assert(old(self).may_suggest(minute as int));
                }
                let form = EventForm::new(
                    i,
                    &self.snapshot.calendars,
                    self.active_date,
                    minute,
                    self.config.event.default_duration_minutes,
                );
                self.open_form(form);
            },
            None => self.tell("No writable calendars are available", true),
        }
    }

    /// The state with the scope of a change of a recurring event to be chosen.
    pub open spec fn scope_asked(
        self,
        event: Event,
        action: RecurrenceMutationAction,
        mode: Mode,
        post: App,
    ) -> bool {
        &&& post == (App {
            interaction_context: post.interaction_context,
            pending_recurring_mutation: Some((event.id, action)),
            mode,
            modal_stack: post.modal_stack,
            ..self
        })
        &&& post.modal_stack@ == frames_entered(self.modal_stack@, self.mode, mode)
    }

    fn ask_scope(&mut self, id: String, action: RecurrenceMutationAction, mode: Mode)
        ensures
            *final(self) == (App {
                pending_recurring_mutation: Some((id, action)),
                mode,
                modal_stack: final(self).modal_stack,
                ..*old(self)
            }),
            final(self).modal_stack@ == frames_entered(
                old(self).modal_stack@,
                old(self).mode,
                mode,
            ),
    {
        self.pending_recurring_mutation = Some((id, action));
        self.enter_modal(mode);
    }

    fn ensure_interaction_context(&mut self, index: usize)
        requires
            index < old(self).snapshot.events@.len(),
        ensures
            *final(self) == (App {
                interaction_context: final(self).interaction_context,
                ..*old(self)
            }),
            old(self).has_context(
                old(self).snapshot.events@[index as int],
                final(self).interaction_context,
            ),
    {
        match self.context_ensured(&self.snapshot.events[index]) {
            Some(context) => self.interaction_context = Some(context),
            None => {},
        }
    }

    /// The state after an event's edit is begun: its form is open, or the scope of the edit is to be
    /// chosen where it recurs.
    pub open spec fn after_edit(self, event: Event, post: App) -> bool {
        if !self.writable(event.calendar_id@) {
            self.told("This calendar is read-only"@, true, post)
        } else {
            &&& self.has_context(event, post.interaction_context)
            &&& if event.has_recurrence {
                self.scope_asked(
                    event,
                    RecurrenceMutationAction::Edit,
                    Mode::RecurringEditScope,
                    post,
                )
            } else {
                &&& (App { interaction_context: post.interaction_context, ..self }).form_opened(
                    post,
                )
                &&& post.form matches Some(form) && form.edits(event, self.snapshot.calendars@)
            }
        }
    }

    /// Begins an event's edit.
    pub fn begin_edit_event(&mut self, index: usize)
        requires
            index < old(self).snapshot.events@.len(),
        ensures
            old(self).after_edit(old(self).snapshot.events@[index as int], *final(self)),
            old(self).wf() ==> final(self).wf(),
    {
        if !self.calendar_is_writable(self.snapshot.events[index].calendar_id.as_str()) {
            self.tell("This calendar is read-only", true);
            return;
        }
        self.ensure_interaction_context(index);
        if self.snapshot.events[index].has_recurrence {
            let id = self.snapshot.events[index].id.clone();
            self.ask_scope(id, RecurrenceMutationAction::Edit, Mode::RecurringEditScope);
            return;
        }
        let form = EventForm::from_event(&self.snapshot.events[index], &self.snapshot.calendars);
        self.open_form(form);
    }

    /// The state after an event's duplication is begun.
    pub open spec fn after_duplicate(self, event: Event, post: App) -> bool {
        if !self.writable(event.calendar_id@) {
            self.told("This calendar is read-only"@, true, post)
        } else if AlarmEditorView::of_existing(event.alarms@) is ProtectedExisting {
            self.told(
                "This event has custom/protected alarms and cannot be duplicated"@,
                true,
                post,
            )
        } else {
            &&& self.has_context(event, post.interaction_context)
            &&& (App { interaction_context: post.interaction_context, ..self }).form_opened(post)
            &&& post.form matches Some(form) && form.duplicates(event, self.snapshot.calendars@)
        }
    }

    /// Begins an event's duplication.
    pub fn begin_duplicate_event(&mut self, index: usize)
        requires
            index < old(self).snapshot.events@.len(),
        ensures
            old(self).after_duplicate(old(self).snapshot.events@[index as int], *final(self)),
            old(self).wf() ==> final(self).wf(),
    {
        if !self.calendar_is_writable(self.snapshot.events[index].calendar_id.as_str()) {
            self.tell("This calendar is read-only", true);
            return;
        }
        if AlarmEditorState::from_existing(&self.snapshot.events[index].alarms).is_protected() {
            self.tell("This event has custom/protected alarms and cannot be duplicated", true);
            return;
        }
        self.ensure_interaction_context(index);
        let form = EventForm::duplicate_from(
            &self.snapshot.events[index],
            &self.snapshot.calendars,
        );
        self.open_form(form);
    }

    /// The state after an event's deletion is begun: it is to be confirmed, or the scope of the
    /// deletion is to be chosen where the event recurs.
    pub open spec fn after_delete(self, event: Event, post: App) -> bool {
        if !self.writable(event.calendar_id@) {
            self.told("This calendar is read-only"@, true, post)
        } else {
            &&& self.has_context(event, post.interaction_context)
            &&& if event.has_recurrence {
                self.scope_asked(
                    event,
                    RecurrenceMutationAction::Delete,
                    Mode::RecurringDeleteScope,
                    post,
                )
            } else {
                &&& post == (App {
                    interaction_context: post.interaction_context,
                    delete_span: EventSpan::ThisEvent,
                    delete_recurrence_scope: None,
                    pending_delete_event_id: Some(event.id),
                    mode: Mode::Delete,
                    modal_stack: post.modal_stack,
                    ..self
                })
                &&& post.modal_stack@ == frames_entered(self.modal_stack@, self.mode, Mode::Delete)
            }
        }
    }

    /// Begins an event's deletion.
    pub fn begin_delete_event(&mut self, index: usize)
        requires
            index < old(self).snapshot.events@.len(),
        ensures
            old(self).after_delete(old(self).snapshot.events@[index as int], *final(self)),
            old(self).wf() ==> final(self).wf(),
    {
        if !self.calendar_is_writable(self.snapshot.events[index].calendar_id.as_str()) {
            self.tell("This calendar is read-only", true);
            return;
        }
        self.ensure_interaction_context(index);
        let id = self.snapshot.events[index].id.clone();
        if self.snapshot.events[index].has_recurrence {
            self.ask_scope(id, RecurrenceMutationAction::Delete, Mode::RecurringDeleteScope);
            return;
        }
        self.delete_span = EventSpan::ThisEvent;
        self.delete_recurrence_scope = None;
        self.pending_delete_event_id = Some(id);
        self.enter_modal(Mode::Delete);
    }

    /// The state after an event is moved to a target, in a scope that was chosen for a recurring
    /// event; for one without a scope it is to be chosen.
    pub open spec fn after_move(
        self,
        event: Event,
        target: EventMoveTarget,
        scope: Option<RecurrenceMutationScope>,
        post: App,
        r: Option<WorkerCommand>,
    ) -> bool {
        if !self.writable(event.calendar_id@) {
            r is None && self.told("This calendar is read-only"@, true, post)
        } else if event.has_recurrence && scope is None {
            &&& r is None
            &&& post.interaction_context == self.interaction_context
            &&& self.scope_asked(
                event,
                RecurrenceMutationAction::Move(target),
                Mode::RecurringEditScope,
                post,
            )
        } else {
            match move_fault(event, target) {
                Some(text) => r is None && self.told(text, true, post),
                None => post == self && command_view(r) == Some(
                    move_command(event, target, scope),
                ),
            }
        }
    }

    fn build_move(
        &self,
        index: usize,
        target: EventMoveTarget,
        scope: Option<RecurrenceMutationScope>,
    ) -> (r: WorkerCommand)
        requires
            index < self.snapshot.events@.len(),
        ensures
            r@ == move_command(self.snapshot.events@[index as int], target, scope),
    {
        let event = &self.snapshot.events[index];
        let (time, change) = match target {
            EventMoveTarget::Timed { start, end } => (
                EventTimeInput::Timed { start, end },
                EventTimeMutation::ReplaceLegacy,
            ),
            EventMoveTarget::AllDay { start_date, end_date_exclusive } => (
                EventTimeInput::LegacyAllDayUnknown { start: event.start, end: event.end },
                EventTimeMutation::ReplaceAllDay { start_date, end_date_exclusive },
            ),
        };
        let span = match scope {
            Some(RecurrenceMutationScope::FutureEvents) => EventSpan::FutureEvents,
            _ => EventSpan::ThisEvent,
        };
        let draft = EventDraft {
            id: event.provider_id.clone(),
            occurrence_id: Some(event.id.clone()),
            occurrence_start: Some(event.start),
            occurrence_calendar_id: Some(event.calendar_id.clone()),
            calendar_id: event.calendar_id.clone(),
            title: event.title.clone(),
            time,
            location: event.location.clone(),
            notes: event.notes.clone(),
            url: event.url.clone(),
            time_zone: event.time_zone.clone(),
            availability: event.availability,
            attendees: Vec::new(),
            alarms: clone_alarms(&event.alarms),
            recurrence: clone_rules(&event.recurrence),
        };
        proof {
            assert(draft@.attendees =~= Seq::<Seq<char>>::empty());
        }
        WorkerCommand::Update(draft, span, scope, AlarmMutation::Preserve, change)
    }

    /// Moves an event to a target.
    pub fn begin_move_event(
        &mut self,
        index: usize,
        target: EventMoveTarget,
        scope: Option<RecurrenceMutationScope>,
    ) -> (r: Option<WorkerCommand>)
        requires
            index < old(self).snapshot.events@.len(),
        ensures
            old(self).after_move(
                old(self).snapshot.events@[index as int],
                target,
                scope,
                *final(self),
                r,
            ),
            old(self).wf() ==> final(self).wf(),
    {
        if !self.calendar_is_writable(self.snapshot.events[index].calendar_id.as_str()) {
            self.tell("This calendar is read-only", true);
            return None;
        }
        if self.snapshot.events[index].has_recurrence && scope.is_none() {
            let id = self.snapshot.events[index].id.clone();
            self.ask_scope(id, RecurrenceMutationAction::Move(target), Mode::RecurringEditScope);
            return None;
        }
        match find_move_fault(&self.snapshot.events[index], target) {
            Some(text) => {
                self.tell(text, true);
                None
            },
            None => Some(self.build_move(index, target, scope)),
        }
    }

    /// Where an event goes that is moved by days and minutes, or why it cannot.
    pub open spec fn shifted_target(event: Event, days: int, minutes: int) -> Result<
        EventMoveTarget,
        Seq<char>,
    > {
        if event.all_day {
            match event.date_range() {
                None => Err("Legacy all-day events must be refreshed before moving"@),
                Some(dates) => match (dates.0.shifted(days), dates.1.shifted(days)) {
                    (Some(start_date), Some(end_date_exclusive)) => Ok(
                        EventMoveTarget::AllDay { start_date, end_date_exclusive },
                    ),
                    _ => Err("All-day move is out of range"@),
                },
            }
        } else {
            let seconds = days * 86_400 + minutes * 60;
            Ok(
                EventMoveTarget::Timed {
                    start: event.start.shifted(seconds),
                    end: event.end.shifted(seconds),
                },
            )
        }
    }

    fn shift_target(event: &Event, days: i32, minutes: i32) -> (r: Result<
        EventMoveTarget,
        String,
    >)
        ensures
            result_view(r) == Self::shifted_target(*event, days as int, minutes as int),
    {
        if event.all_day {
            let (first, last) = match event.all_day_date_range() {
                Some(dates) => dates,
                None => return Err(
                    "Legacy all-day events must be refreshed before moving".to_owned(),
                ),
            };
            match (first.plus_days(days as i64), last.plus_days(days as i64)) {
                (Some(start_date), Some(end_date_exclusive)) => Ok(
                    EventMoveTarget::AllDay { start_date, end_date_exclusive },
                ),
                _ => Err("All-day move is out of range".to_owned()),
            }
        } else {
            let seconds: i64 = days as i64 * 86_400 + minutes as i64 * 60;
            Ok(
                EventMoveTarget::Timed {
                    start: event.start.plus_seconds(seconds),
                    end: event.end.plus_seconds(seconds),
                },
            )
        }
    }

    /// The state after a move of the event with an identity; where it is not shown the user is
    /// told.
    pub open spec fn after_move_of(
        self,
        id: Seq<char>,
        target: EventMoveTarget,
        post: App,
        r: Option<WorkerCommand>,
    ) -> bool {
        exists|index: Option<int>| #[trigger]
            self.may_act_on(id, index) && match index {
                None => r is None && self.told("Event no longer exists"@, true, post),
                Some(i) => self.after_move(self.snapshot.events@[i], target, None, post, r),
            }
    }

    /// Moves the event with an identity.
    pub fn move_event(&mut self, id: &str, target: EventMoveTarget) -> (r: Option<WorkerCommand>)
        ensures
            old(self).after_move_of(id@, target, *final(self), r),
            old(self).wf() ==> final(self).wf(),
    {
        let index = self.visible_event_index(id);
        proof {
            assert(old(self).may_act_on(id@, index_view(index)));
        }
        match index {
            None => {
                self.tell("Event no longer exists", true);
                None
            },
            Some(i) => self.begin_move_event(i, target, None),
        }
    }

    /// The state after the selected event is moved by days and minutes.
    pub open spec fn after_move_selected(
        self,
        days: int,
        minutes: int,
        post: App,
        r: Option<WorkerCommand>,
    ) -> bool {
        exists|selected: Option<int>| #[trigger]
            self.may_select(selected) && match selected {
                None => r is None && self.told("Select an event first"@, true, post),
                Some(i) => {
                    let event = self.snapshot.events@[i];
                    match Self::shifted_target(event, days, minutes) {
                        Err(text) => r is None && self.told(text, true, post),
                        Ok(target) => self.after_move_of(event.id@, target, post, r),
                    }
                },
            }
    }

    /// Moves the selected event by days and minutes.
    pub fn move_selected_event(&mut self, days: i32, minutes: i32) -> (r: Option<WorkerCommand>)
        ensures
            old(self).after_move_selected(days as int, minutes as int, *final(self), r),
            old(self).wf() ==> final(self).wf(),
    {
        let selected = self.selected_event_index();
        proof {
            assert(old(self).may_select(index_view(selected)));
        }
        match selected {
            None => {
                self.tell("Select an event first", true);
                None
            },
            Some(i) => match Self::shift_target(&self.snapshot.events[i], days, minutes) {
                Err(text) => {
                    self.tell(text.as_str(), true);
                    None
                },
                Ok(target) => {
                    let id = self.snapshot.events[i].id.clone();
                    self.move_event(id.as_str(), target)
                },
            },
        }
    }

    /// The state after an event that took place between two instants is made longer or shorter by
    /// minutes: a move to where it is, with another end.
    pub open spec fn after_resize_of(
        self,
        event: Event,
        start: Timestamp,
        end: Timestamp,
        minutes: int,
        post: App,
        r: Option<WorkerCommand>,
    ) -> bool {
        let target = EventMoveTarget::Timed { start, end };
        let new_end = end.shifted(minutes * 60);
        if !self.writable(event.calendar_id@) || event.has_recurrence || move_fault(event, target)
            is Some {
            r is None && self.after_move(event, target, None, post, r)
        } else if new_end.nanos <= start.nanos {
            r is None && self.told("Event duration must remain positive"@, true, post)
        } else {
            post == self && command_view(r) == Some(
                move_command(event, EventMoveTarget::Timed { start, end: new_end }, None),
            )
        }
    }

    fn resize_event(
        &mut self,
        index: usize,
        start: Timestamp,
        end: Timestamp,
        minutes: i32,
    ) -> (r: Option<WorkerCommand>)
        requires
            index < old(self).snapshot.events@.len(),
        ensures
            old(self).after_resize_of(
                old(self).snapshot.events@[index as int],
                start,
                end,
                minutes as int,
                *final(self),
                r,
            ),
            old(self).wf() ==> final(self).wf(),
    {
        let target = EventMoveTarget::Timed { start, end };
        if !self.calendar_is_writable(self.snapshot.events[index].calendar_id.as_str())
            || self.snapshot.events[index].has_recurrence || find_move_fault(
            &self.snapshot.events[index],
            target,
        ).is_some() {
            return self.begin_move_event(index, target, None);
        }
        let new_end = end.plus_seconds(minutes as i64 * 60);
        if new_end.nanos <= start.nanos {
            self.tell("Event duration must remain positive", true);
            return None;
        }
        Some(self.build_move(index, EventMoveTarget::Timed { start, end: new_end }, None))
    }

    /// The state after the selected event is made longer or shorter by minutes.
    pub open spec fn after_resize(self, minutes: int, post: App, r: Option<WorkerCommand>) -> bool {
        exists|selected: Option<int>| #[trigger]
            self.may_select(selected) && match selected {
                None => r is None && self.told("Select an event first"@, true, post),
                Some(i) => {
                    let event = self.snapshot.events@[i];
                    if event.has_recurrence || event.all_day {
                        r is None && self.told(
                            "Use the event editor for recurring or all-day events"@,
                            true,
                            post,
                        )
                    } else {
                        exists|index: Option<int>| #[trigger]
                            self.may_act_on(event.id@, index) && match index {
                                None => r is None && self.told(
                                    "Event no longer exists"@,
                                    true,
                                    post,
                                ),
                                Some(k) => self.after_resize_of(
                                    self.snapshot.events@[k],
                                    event.start,
                                    event.end,
                                    minutes,
                                    post,
                                    r,
                                ),
                            }
                    }
                },
            }
    }

    /// Makes the selected event longer or shorter by minutes.
    pub fn resize_selected_event(&mut self, minutes: i32) -> (r: Option<WorkerCommand>)
        ensures
            old(self).after_resize(minutes as int, *final(self), r),
            old(self).wf() ==> final(self).wf(),
    {
        let selected = self.selected_event_index();
        proof {
            assert(old(self).may_select(index_view(selected)));
        }
        let i: usize = match selected {
            None => {
                self.tell("Select an event first", true);
                return None;
            },
            Some(i) => i,
        };
        if self.snapshot.events[i].has_recurrence || self.snapshot.events[i].all_day {
            self.tell("Use the event editor for recurring or all-day events", true);
            return None;
        }
        let id = self.snapshot.events[i].id.clone();
        let start = self.snapshot.events[i].start;
        let end = self.snapshot.events[i].end;
        let index = self.visible_event_index(id.as_str());
        proof {
            assert(old(self).may_act_on(id@, index_view(index)));
        }
        match index {
            None => {
                self.tell("Event no longer exists", true);
                None
            },
            Some(k) => self.resize_event(k, start, end, minutes),
        }
    }

    /// The minute of the day that a clock time writes.
    pub open spec fn config_start_minute(self) -> int {
        match clock_time(self.config.event.default_start_time@) {
            Some(second) => second as int / 60,
            None => 540,
        }
    }

    /// The minute at which a new event is suggested to start, where the selected event's start
    /// shows as `selected` on the clock, which shows `clock` now: that of the selected event on the
    /// active date; else the next step of the clock on the current date, and the default on any
    /// other.
    pub open spec fn start_suggested(
        self,
        selected: Option<WallTime>,
        clock: WallTime,
    ) -> int {
        if selected matches Some(at) && at.date == self.active_date {
            selected->0.minute_of_day()
        } else if self.active_date != clock.date {
            self.config_start_minute()
        } else {
            rounded_minute(
                clock.minute_of_day(),
                self.config.event.time_rounding_minutes as int,
            )
        }
    }

    /// The minute at which a new event is suggested to start.
    pub fn suggest_start(
        &self,
        selected: Option<WallTime>,
        clock: WallTime,
    ) -> (r: u16)
        requires
            selected matches Some(at) ==> at.valid(),
            clock.valid(),
        ensures
            r == self.start_suggested(selected, clock),
    {
        match selected {
            Some(at) => {
                if at.date.day == self.active_date.day {
                    return at.minute() as u16;
                }
            },
            None => {},
        }
        if self.active_date.day != clock.date.day {
            match parse_clock_time(self.config.event.default_start_time.as_str()) {
                Some(second) => (second / 60) as u16,
                None => 540,
            }
        } else {
            round_minute(clock.minute() as u16, self.config.event.time_rounding_minutes)
        }
    }

    /// Whether a clock may show a wall time for the start of the event at an index: none is asked
    /// for where there is no event, or one that takes all day.
    pub open spec fn may_start_at(self, index: Option<int>, shown: Option<WallTime>) -> bool {
        match index {
            Some(i) => if self.snapshot.events@[i].all_day {
                shown is None
            } else {
                shown matches Some(at) && shows_near(self.snapshot.events@[i].start, at)
            },
            None => shown is None,
        }
    }

    /// Whether a minute may be suggested for a new event, for what the clock may show.
    pub open spec fn may_suggest(self, minute: int) -> bool {
        exists|index: Option<int>, selected: Option<WallTime>, clock: WallTime|
            #![trigger self.may_start_at(index, selected), self.start_suggested(selected, clock)]
            self.may_select(index) && self.may_start_at(index, selected) && is_current(clock)
                && minute == self.start_suggested(selected, clock)
    }

    /// The minute at which a new event is suggested to start, as the machine's clock has it.
    pub fn suggested_start_minute(&self) -> (r: u16)
        ensures
            self.may_suggest(r as int),
    {
        let index = self.selected_event_index();
        let selected = match index {
            Some(i) => if self.snapshot.events[i].all_day {
                None
            } else {
                Some(local_wall_time(self.snapshot.events[i].start))
            },
            None => None,
        };
        let clock = local_now();
        proof {
            assert(self.may_start_at(index_view(index), selected));
        }
        self.suggest_start(selected, clock)
    }
}

/// A minute at the nearest multiple of a step, within the day.
pub open spec fn rounded_minute(minute: int, step: int) -> int {
    let step = if step < 1 {
        1
    } else {
        step
    };
    let rounded = (minute + step / 2) / step * step;
    if rounded > 1_439 {
        1_439
    } else {
        rounded
    }
}

/// A minute at the nearest multiple of a step, within the day.
pub fn round_minute(minute: u16, step: u16) -> (r: u16)
    ensures
        r == rounded_minute(minute as int, step as int),
        r <= 1_439,
{
    let step: u32 = if step < 1 {
        1
    } else {
        step as u32
    };
    let total: u32 = minute as u32 + step / 2;
    proof {
        let t = total as int;
        let n = step as int;
        vstd::arithmetic::div_mod::lemma_fundamental_div_mod(t, n);
        vstd::arithmetic::div_mod::lemma_div_pos_is_pos(t, n);
        assert(t / n * n <= t) by (nonlinear_arith)
            requires
                t == n * (t / n) + t % n,
                t % n >= 0,
        ;
        assert(t / n * n >= 0) by (nonlinear_arith)
            requires
                t / n >= 0,
                n > 0,
        ;
    }
    let rounded: u32 = total / step * step;
    if rounded > 1_439 {
        1_439
    } else {
        rounded as u16
    }
}

/// A move changes an event's time and nothing else: the alarms are kept, and the draft is what the
/// event is.
pub proof fn law_moves_change_the_time_alone(
    event: Event,
    target: EventMoveTarget,
    scope: Option<RecurrenceMutationScope>,
)
    ensures
        move_command(event, target, scope) matches WorkerCommandView::Update(
            draft,
            _,
            _,
            alarms,
            _,
        ) && alarms is None && draft == (EventDraftView {
            time: draft.time,
            ..draft_at(
                event,
                EventTimeInput::Timed { start: event.start, end: event.end },
            )
        }),
{
}

/// A move that is accepted keeps a timed event's duration and an all-day event's number of days.
pub proof fn law_moves_keep_the_length(event: Event, target: EventMoveTarget)
    requires
        move_fault(event, target) is None,
    ensures
        match target {
            EventMoveTarget::Timed { start, end } => !event.all_day && start.nanos < end.nanos
                && start.nanos_until(end) == event.start.nanos_until(event.end),
            EventMoveTarget::AllDay { start_date, end_date_exclusive } => event.date_range()
                matches Some(dates) && end_date_exclusive.day - start_date.day == dates.1.day
                - dates.0.day,
        },
{
}

/// A move by days and minutes is one that is accepted: it keeps the length.
pub proof fn law_shifts_are_accepted(event: Event, days: int, minutes: int)
    requires
        App::shifted_target(event, days, minutes) is Ok,
        !event.all_day ==> event.start.nanos < event.end.nanos,
        event.start.in_reach(),
        event.end.in_reach(),
        -1_000_000_000 <= days <= 1_000_000_000,
        -1_000_000_000 <= minutes <= 1_000_000_000,
    ensures
        move_fault(event, App::shifted_target(event, days, minutes)->Ok_0) is None,
{
}

} // verus!
