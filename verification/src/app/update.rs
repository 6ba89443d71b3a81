//! Taking in what the worker reports.

use super::overlays::place_or_none;
use super::shown::{near_midnight, place_of};
use super::{
    clear_when, close_when, message, say_when, says, App, Mode, ModalFrame, MutationState,
    VisibleRangeError, VisibleRangeState, WorkerUpdate,
};
use crate::calendar_form::{
    calendar_color_error_message, calendar_delete_error_message, calendar_error_message,
    calendar_rename_error_message, color_error_text, create_error_text, delete_error_text,
    rename_error_text,
};
use crate::event_form::EventForm;
use crate::model::{
    calendar_at, find_calendar, index_view, CalendarDateRange, RangePriority, RangeReason,
    RangeRequest, Snapshot,
};
use crate::sorting::indices;
use crate::text::opt_view;
use crate::time::{now, was_now, Timestamp};
use vstd::prelude::*;
use vstd::view::View as _;

verus! {

/// Whether an overlay shows details.
pub open spec fn has_details_frame(frames: Seq<ModalFrame>) -> bool {
    exists|i: int| 0 <= i < frames.len() && (#[trigger] frames[i]).current == Mode::Details
}

impl App {
    /// The identity of the selected event.
    pub open spec fn id_at(self, index: Option<int>) -> Option<Seq<char>> {
        match index {
            Some(i) => Some(self.snapshot.events@[i].id@),
            None => None,
        }
    }

    /// Whether details are shown, or wait under another overlay.
    pub open spec fn shows_details(self) -> bool {
        self.mode == Mode::Details || has_details_frame(self.modal_stack@)
    }

    /// The event that details are of.
    pub open spec fn details_target(self, selected: Option<int>) -> Option<Seq<char>> {
        if !self.shows_details() {
            None
        } else {
            match self.interaction_context {
                Some(context) => Some(context.occurrence_id@),
                None => if self.mode == Mode::Details {
                    self.id_at(selected)
                } else {
                    None
                },
            }
        }
    }

    /// The event to select once other events are there: one that a change reported, else the one
    /// that an overlay is about, else the selected one.
    pub open spec fn wanted_event(self, selected: Option<int>) -> Option<Seq<char>> {
        match (self.pending_selection, self.interaction_context) {
            (Some(id), _) => Some(id@),
            (None, Some(context)) => Some(context.occurrence_id@),
            (None, None) => self.id_at(selected),
        }
    }

    /// The identity of the calendar at an index.
    pub open spec fn calendar_id_at(self, index: int) -> Option<Seq<char>> {
        if 0 <= index < self.snapshot.calendars@.len() {
            Some(self.snapshot.calendars@[index].id@)
        } else {
            None
        }
    }

    /// The calendar to select once other calendars are there.
    pub open spec fn wanted_calendar(self) -> Option<Seq<char>> {
        match self.pending_calendar_selection {
            Some(id) => Some(id@),
            None => self.calendar_id_at(self.selected_calendar as int),
        }
    }

    /// The calendar that the form's event is for.
    pub open spec fn form_calendar(self) -> Option<Seq<char>> {
        match self.form {
            Some(form) => self.calendar_id_at(form.calendar_index as int),
            None => None,
        }
    }

    /// The index of the form's calendar among other calendars. Where the calendar is gone it is one
    /// that no calendar has, so that the draft is not saved to another.
    pub open spec fn new_form_index(self, snapshot: Snapshot) -> int {
        match (self.form, self.form_calendar()) {
            (Some(form), None) => form.calendar_index as int,
            (_, Some(id)) => match calendar_at(snapshot.calendars@, id) {
                Some(i) => i,
                None => snapshot.calendars@.len() as int,
            },
            _ => 0,
        }
    }

    /// The form with its calendar found among other calendars.
    pub open spec fn form_rebound(self, snapshot: Snapshot, post: Option<EventForm>) -> bool {
        match self.form {
            None => post is None,
            Some(form) => post matches Some(new) && new == (EventForm {
                calendar_index: new.calendar_index,
                ..form
            }) && new.calendar_index == self.new_form_index(snapshot),
        }
    }

    /// The index of the selected calendar among other calendars.
    pub open spec fn new_calendar_index(self, snapshot: Snapshot) -> int {
        let found = match self.wanted_calendar() {
            Some(id) => calendar_at(snapshot.calendars@, id),
            None => None,
        };
        let last = if snapshot.calendars@.len() > 0 {
            snapshot.calendars@.len() - 1
        } else {
            0
        };
        match found {
            Some(i) => i,
            None => if self.selected_calendar < last {
                self.selected_calendar as int
            } else {
                last
            },
        }
    }

    /// Whether the form's calendar is not among other calendars.
    pub open spec fn form_gone(self, snapshot: Snapshot) -> bool {
        self.form_calendar() matches Some(id) && calendar_at(snapshot.calendars@, id) is None
    }

    /// Whether the selected calendar is not among other calendars while calendars are managed.
    pub open spec fn calendar_gone(self, snapshot: Snapshot) -> bool {
        &&& self.wanted_calendar() matches Some(id) && calendar_at(snapshot.calendars@, id) is None
        &&& self.mode == Mode::CalendarManager || self.mode == Mode::CalendarManagerDetails
    }

    /// The state with other events and calendars in place: the calendar of the form and the selected
    /// calendar follow their identities, and what is gone is said.
    pub open spec fn installed(self, snapshot: Snapshot, post: App) -> bool {
        let calendar_gone = self.calendar_gone(snapshot);
        let form_gone = self.form_gone(snapshot);
        &&& post == (App {
            snapshot,
            pending_selection: None,
            pending_calendar_selection: None,
            form: post.form,
            selected_calendar: self.new_calendar_index(snapshot) as usize,
            status: post.status,
            ..self
        })
        &&& self.form_rebound(snapshot, post.form)
        &&& if calendar_gone {
            says(post.status, "Selected calendar was removed"@, false)
        } else if form_gone {
            says(
                post.status,
                "The draft calendar was removed; choose another calendar"@,
                true,
            )
        } else {
            post.status == self.status
        }
    }

    /// The state with the selection on the event that is wanted among those shown. Where it is gone
    /// that is said. Details of an event that is gone are closed: they do not show another.
    pub open spec fn settled(
        self,
        wanted: Option<Seq<char>>,
        target: Option<Seq<char>>,
        list: Seq<int>,
        post: App,
    ) -> bool {
        let events = self.snapshot.events@;
        let place = match wanted {
            Some(id) => place_of(events, list, id),
            None => None,
        };
        let event_gone = wanted is Some && place is None;
        let details_gone = target matches Some(id) && place_of(events, list, id) is None;
        &&& post == (App {
            selected_event: if wanted is Some {
                place_or_none(place)
            } else if self.selected_event < list.len() {
                self.selected_event
            } else {
                usize::MAX
            },
            mode: if details_gone {
                Mode::Normal
            } else {
                self.mode
            },
            modal_stack: if details_gone {
                post.modal_stack
            } else {
                self.modal_stack
            },
            interaction_context: if details_gone {
                None
            } else {
                self.interaction_context
            },
            detail_scroll: if details_gone {
                0
            } else {
                self.detail_scroll
            },
            status: if event_gone {
                post.status
            } else {
                self.status
            },
            ..self
        })
        &&& details_gone ==> post.modal_stack@.len() == 0
        &&& event_gone ==> says(post.status, "Selected event was removed"@, false)
    }

    /// The state with other events and calendars, whatever the machine's clock says of which event
    /// was selected and which events are shown now.
    pub open spec fn after_snapshot(self, snapshot: Snapshot, post: App) -> bool {
        exists|selected: Option<int>, list: Seq<int>, mid: App|
            self.may_select(selected) && self.installed(snapshot, mid) && mid.may_show(list)
                && #[trigger] mid.settled(
                self.wanted_event(selected),
                self.details_target(selected),
                list,
                post,
            )
    }

    fn details_are_shown(&self) -> (r: bool)
        ensures
            r == self.shows_details(),
    {
        if self.mode == Mode::Details {
            return true;
        }
        let mut i: usize = 0;
        while i < self.modal_stack.len()
            invariant
                i <= self.modal_stack@.len(),
                self.mode != Mode::Details,
                forall|j: int|
                    0 <= j < i ==> (#[trigger] self.modal_stack@[j]).current != Mode::Details,
            decreases self.modal_stack@.len() - i,
        {
            if self.modal_stack[i].current == Mode::Details {
                return true;
            }
            i += 1;
        }
        false
    }

    fn find_details_target(&self, selected: Option<usize>) -> (r: Option<String>)
        requires
            selected matches Some(i) ==> i < self.snapshot.events@.len(),
        ensures
            opt_view(r) == self.details_target(index_view(selected)),
    {
        if !self.details_are_shown() {
            return None;
        }
        match &self.interaction_context {
            Some(context) => Some(context.occurrence_id.clone()),
            None => if self.mode == Mode::Details {
                match selected {
                    Some(i) => Some(self.snapshot.events[i].id.clone()),
                    None => None,
                }
            } else {
                None
            },
        }
    }

    fn find_wanted_event(&self, selected: Option<usize>) -> (r: Option<String>)
        requires
            selected matches Some(i) ==> i < self.snapshot.events@.len(),
        ensures
            opt_view(r) == self.wanted_event(index_view(selected)),
    {
        match (&self.pending_selection, &self.interaction_context) {
            (Some(id), _) => Some(id.clone()),
            (None, Some(context)) => Some(context.occurrence_id.clone()),
            (None, None) => match selected {
                Some(i) => Some(self.snapshot.events[i].id.clone()),
                None => None,
            },
        }
    }

    fn id_of_calendar(&self, index: usize) -> (r: Option<String>)
        ensures
            opt_view(r) == self.calendar_id_at(index as int),
    {
        if index < self.snapshot.calendars.len() {
            Some(self.snapshot.calendars[index].id.clone())
        } else {
            None
        }
    }

    fn find_wanted_calendar(&self) -> (r: Option<String>)
        ensures
            opt_view(r) == self.wanted_calendar(),
    {
        match &self.pending_calendar_selection {
            Some(id) => Some(id.clone()),
            None => self.id_of_calendar(self.selected_calendar),
        }
    }

    fn find_form_calendar(&self) -> (r: Option<String>)
        ensures
            opt_view(r) == self.form_calendar(),
    {
        match &self.form {
            Some(form) => self.id_of_calendar(form.calendar_index),
            None => None,
        }
    }

    /// Finds the form's calendar among other calendars; says so where it is gone.
    fn rebind_form(&mut self, snapshot: &Snapshot)
        ensures
            *final(self) == (App {
                form: final(self).form,
                status: final(self).status,
                ..*old(self)
            }),
            old(self).form_rebound(*snapshot, final(self).form),
            old(self).wf() ==> final(self).wf(),
            old(self).form_gone(*snapshot) ==> says(
                final(self).status,
                "The draft calendar was removed; choose another calendar"@,
                true,
            ),
            !old(self).form_gone(*snapshot) ==> final(self).status == old(self).status,
    {
        let id = match self.find_form_calendar() {
            Some(id) => id,
            None => return,
        };
        let found = find_calendar(&snapshot.calendars, id.as_str());
        let index: usize = match found {
            Some(i) => i,
            None => snapshot.calendars.len(),
        };
        match &mut self.form {
            Some(form) => form.calendar_index = index,
            None => {},
        }
        if found.is_none() {
            self.status = message(
                "The draft calendar was removed; choose another calendar".to_owned(),
                true,
            );
        }
    }

    /// Finds the selected calendar among other calendars, and whether it is to be said that it is
    /// gone.
    fn find_new_calendar(&self, snapshot: &Snapshot) -> (r: (usize, bool))
        ensures
            r.0 == self.new_calendar_index(*snapshot),
            r.1 == self.calendar_gone(*snapshot),
    {
        let wanted = self.find_wanted_calendar();
        let count: usize = snapshot.calendars.len();
        let last: usize = if count > 0 {
            count - 1
        } else {
            0
        };
        let found = match &wanted {
            Some(id) => find_calendar(&snapshot.calendars, id.as_str()),
            None => None,
        };
        let managing = self.mode == Mode::CalendarManager || self.mode
            == Mode::CalendarManagerDetails;
        match found {
            Some(i) => (i, false),
            None => (
                if self.selected_calendar < last {
                    self.selected_calendar
                } else {
                    last
                },
                wanted.is_some() && managing,
            ),
        }
    }

    /// Puts other events and calendars in place.
    fn install(&mut self, snapshot: Snapshot)
        ensures
            old(self).installed(snapshot, *final(self)),
            old(self).wf() ==> final(self).wf(),
    {
        let (calendar, calendar_gone) = self.find_new_calendar(&snapshot);
        self.rebind_form(&snapshot);
        say_when(&mut self.status, calendar_gone, "Selected calendar was removed", false);
        self.snapshot = snapshot;
        self.selected_calendar = calendar;
        self.pending_calendar_selection = None;
        self.pending_selection = None;
    }

    /// Selects the event that is wanted among those shown, and closes details whose event is gone.
    pub fn settle(&mut self, wanted: Option<String>, target: Option<String>, list: &Vec<usize>)
        requires
            forall|i: int|
                0 <= i < list@.len() ==> #[trigger] list@[i] < old(self).snapshot.events@.len(),
        ensures
            old(self).settled(opt_view(wanted), opt_view(target), indices(list@), *final(self)),
            old(self).wf() ==> final(self).wf(),
    {
        let place = match &wanted {
            Some(id) => self.place_in(list, id.as_str()),
            None => None,
        };
        let details_gone = match &target {
            Some(id) => self.place_in(list, id.as_str()).is_none(),
            None => false,
        };
        proof {
            assert(indices(list@).len() == list@.len());
        }
        let selected: usize = match place {
            Some(k) => k,
            None => if wanted.is_none() && self.selected_event < list.len() {
                self.selected_event
            } else {
                usize::MAX
            },
        };
        let event_gone = wanted.is_some() && place.is_none();
        self.selected_event = selected;
        say_when(&mut self.status, event_gone, "Selected event was removed", false);
        close_when(&mut self.modal_stack, details_gone);
        clear_when(&mut self.interaction_context, details_gone);
        self.mode = if details_gone {
            Mode::Normal
        } else {
            self.mode
        };
        self.detail_scroll = if details_gone {
            0
        } else {
            self.detail_scroll
        };
    }

    /// Takes in other events and calendars.
    pub fn take_snapshot(&mut self, snapshot: Snapshot)
        ensures
            old(self).after_snapshot(snapshot, *final(self)),
            old(self).wf() ==> final(self).wf(),
    {
        let selected = self.selected_event_index();
        let target = self.find_details_target(selected);
        let wanted = self.find_wanted_event(selected);
        self.install(snapshot);
        let ghost mid = *self;
        let list = self.visible_indices();
        self.settle(wanted, target, &list);
        proof {
            let before = *old(self);
            assert(before.may_select(index_view(selected)));
            assert(mid.settled(
                before.wanted_event(index_view(selected)),
                before.details_target(index_view(selected)),
                indices(list@),
                *self,
            ));
        }
    }

    /// The request of a range that failed to load: the one that is shown, else one for what is
    /// shown.
    pub open spec fn is_failed_range(self, id: u64, range: RangeRequest) -> bool {
        match self.visible_range {
            Some(known) => range == known,
            None => {
                &&& range.id == id
                &&& near_midnight(range.start, self.window().0)
                &&& near_midnight(range.end, self.window().1)
                &&& range.all_day_range == Some(
                    CalendarDateRange {
                        start_date: self.window().0,
                        end_date_exclusive: self.window().1,
                    },
                )
                &&& range.reason == RangeReason::VisibleWeek
                &&& range.priority == RangePriority::Interactive
            },
        }
    }

    /// The state after the range that is shown failed to load.
    pub open spec fn range_failed(self, id: u64, error: Seq<char>, post: App) -> bool {
        &&& post == (App {
            visible_range_state: post.visible_range_state,
            status: post.status,
            ..self
        })
        &&& post.visible_range_state matches VisibleRangeState::Failed(failure)
            && was_now(failure.timestamp) && failure.request_id == id && failure.error@ == error && self.is_failed_range(
            id,
            failure.range,
        )
        &&& says(post.status, error, true)
    }

    fn fail_range(&mut self, id: u64, error: String)
        ensures
            old(self).range_failed(id, error@, *final(self)),
    {
        let range = match self.visible_range {
            Some(range) => range,
            None => {
                let (start, end) = self.view_range();
                let (start_date, end_date_exclusive) = self.view_date_range();
                RangeRequest {
                    id,
                    start,
                    end,
                    all_day_range: Some(CalendarDateRange { start_date, end_date_exclusive }),
                    reason: RangeReason::VisibleWeek,
                    priority: RangePriority::Interactive,
                }
            },
        };
        self.visible_range_state = VisibleRangeState::Failed(
            VisibleRangeError { request_id: id, range, error: error.clone(), timestamp: now() },
        );
        self.status = message(error, true);
    }

    /// Whether a report is about calendars being created, renamed, colored or deleted.
    pub open spec fn is_calendar_update(update: WorkerUpdate) -> bool {
        update is CalendarCreateSucceeded || update is CalendarCreateFailed || update
            is CalendarRenameSucceeded || update is CalendarRenameFailed || update
            is CalendarColorSucceeded || update is CalendarColorFailed || update
            is CalendarDeleteSucceeded || update is CalendarDeleteFailed
    }

    /// What is said of a report about calendars, and whether it is an error.
    pub open spec fn calendar_report(update: WorkerUpdate) -> (Seq<char>, bool) {
        match update {
            WorkerUpdate::CalendarCreateSucceeded(_) => ("Calendar created"@, false),
            WorkerUpdate::CalendarCreateFailed(error) => (create_error_text(error), true),
            WorkerUpdate::CalendarRenameSucceeded(_) => ("Calendar renamed"@, false),
            WorkerUpdate::CalendarRenameFailed(error) => (rename_error_text(error), true),
            WorkerUpdate::CalendarColorSucceeded(_) => ("Calendar color updated"@, false),
            WorkerUpdate::CalendarColorFailed(error) => (color_error_text(error), true),
            WorkerUpdate::CalendarDeleteSucceeded(_) => ("Calendar deleted"@, false),
            WorkerUpdate::CalendarDeleteFailed(error) => (delete_error_text(error), true),
            _ => (Seq::empty(), false),
        }
    }

    /// The calendar to select after a report about calendars.
    pub open spec fn calendar_to_select(self, update: WorkerUpdate) -> Option<String> {
        match update {
            WorkerUpdate::CalendarCreateSucceeded(calendar) => Some(calendar.id),
            WorkerUpdate::CalendarRenameSucceeded(calendar) => Some(calendar.id),
            WorkerUpdate::CalendarColorSucceeded(calendar) => Some(calendar.id),
            _ => self.pending_calendar_selection,
        }
    }

    /// The state after a report about calendars: the form of what succeeded is closed, that of what
    /// failed stays open, and a deletion is no longer to be confirmed.
    pub open spec fn after_calendar_update(self, update: WorkerUpdate, post: App) -> bool {
        let (text, failed) = Self::calendar_report(update);
        let deletion = update is CalendarDeleteSucceeded || update is CalendarDeleteFailed;
        &&& post == (App {
            mutation_state: if failed {
                MutationState::Failed
            } else {
                MutationState::Idle
            },
            calendar_form: if update is CalendarCreateSucceeded {
                None
            } else {
                self.calendar_form
            },
            calendar_rename_form: if update is CalendarRenameSucceeded {
                None
            } else {
                self.calendar_rename_form
            },
            calendar_color_form: if update is CalendarColorSucceeded {
                None
            } else {
                self.calendar_color_form
            },
            calendar_delete_confirmation: if deletion {
                None
            } else {
                self.calendar_delete_confirmation
            },
            pending_calendar_selection: self.calendar_to_select(update),
            mode: if deletion || !failed {
                Mode::CalendarManager
            } else {
                self.mode
            },
            status: post.status,
            ..self
        })
        &&& says(post.status, text, failed)
    }

    fn calendar_report_text(update: &WorkerUpdate) -> (r: (&'static str, bool))
        requires
            Self::is_calendar_update(*update),
        ensures
            Self::calendar_report(*update) == (r.0@, r.1),
    {
        match update {
            WorkerUpdate::CalendarCreateSucceeded(_) => ("Calendar created", false),
            WorkerUpdate::CalendarCreateFailed(error) => (calendar_error_message(*error), true),
            WorkerUpdate::CalendarRenameSucceeded(_) => ("Calendar renamed", false),
            WorkerUpdate::CalendarRenameFailed(error) => (
                calendar_rename_error_message(*error),
                true,
            ),
            WorkerUpdate::CalendarColorSucceeded(_) => ("Calendar color updated", false),
            WorkerUpdate::CalendarColorFailed(error) => (
                calendar_color_error_message(*error),
                true,
            ),
            WorkerUpdate::CalendarDeleteSucceeded(_) => ("Calendar deleted", false),
            WorkerUpdate::CalendarDeleteFailed(error) => (
                calendar_delete_error_message(*error),
                true,
            ),
            _ => ("", false),
        }
    }

    fn close_calendar_form(&mut self, update: &WorkerUpdate)
        ensures
            *final(self) == (App {
                calendar_form: if *update is CalendarCreateSucceeded {
                    None
                } else {
                    old(self).calendar_form
                },
                calendar_rename_form: if *update is CalendarRenameSucceeded {
                    None
                } else {
                    old(self).calendar_rename_form
                },
                calendar_color_form: if *update is CalendarColorSucceeded {
                    None
                } else {
                    old(self).calendar_color_form
                },
                pending_calendar_selection: old(self).calendar_to_select(*update),
                ..*old(self)
            }),
    {
        match update {
            WorkerUpdate::CalendarCreateSucceeded(calendar) => {
                self.calendar_form = None;
                self.pending_calendar_selection = Some(calendar.id.clone());
            },
            WorkerUpdate::CalendarRenameSucceeded(calendar) => {
                self.calendar_rename_form = None;
                self.pending_calendar_selection = Some(calendar.id.clone());
            },
            WorkerUpdate::CalendarColorSucceeded(calendar) => {
                self.calendar_color_form = None;
                self.pending_calendar_selection = Some(calendar.id.clone());
            },
            _ => {},
        }
    }

    fn apply_calendar_update(&mut self, update: WorkerUpdate)
        requires
            Self::is_calendar_update(update),
        ensures
            old(self).after_calendar_update(update, *final(self)),
            old(self).wf() ==> final(self).wf(),
    {
        let (text, failed) = Self::calendar_report_text(&update);
        let deletion = match &update {
            WorkerUpdate::CalendarDeleteSucceeded(_) => true,
            WorkerUpdate::CalendarDeleteFailed(_) => true,
            _ => false,
        };
        self.close_calendar_form(&update);
        self.mutation_state = if failed {
            MutationState::Failed
        } else {
            MutationState::Idle
        };
        clear_when(&mut self.calendar_delete_confirmation, deletion);
        self.mode = if deletion || !failed {
            Mode::CalendarManager
        } else {
            self.mode
        };
        self.status = message(text.to_owned(), failed);
    }

    /// The state after a report of the worker. Reports of a range with another number than the last
    /// request's, and of a change in another session than the current one, change nothing.
    pub open spec fn after_update(self, update: WorkerUpdate, post: App) -> bool {
        let current = |session: u64| self.active_mutation_session == Some(session);
        match update {
            WorkerUpdate::Syncing(value) => post == (App { syncing: value, ..self }),
            WorkerUpdate::BackendState(state) => post == (App { backend_state: state, ..self }),
            WorkerUpdate::CalendarCapabilities(capabilities) => post == (App {
                calendar_capabilities: capabilities,
                ..self
            }),
            WorkerUpdate::CalendarSources(sources) => post == (App {
                calendar_sources: sources,
                ..self
            }),
            WorkerUpdate::Snapshot(snapshot) => self.after_snapshot(snapshot, post),
            WorkerUpdate::RangeStarted(id) => if id == self.visible_range_request_id {
                post == (App { visible_range_state: VisibleRangeState::Loading, ..self })
            } else {
                post == self
            },
            WorkerUpdate::RangeLoaded(id) => if id == self.visible_range_request_id {
                post == (App { visible_range_state: VisibleRangeState::Ready, ..self })
            } else {
                post == self
            },
            WorkerUpdate::RangeFailed(id, error) => if id == self.visible_range_request_id {
                self.range_failed(id, error@, post)
            } else {
                post == self
            },
            WorkerUpdate::MutationSaving => post == (App {
                mutation_state: MutationState::Saving,
                ..self
            }),
            WorkerUpdate::MutationSucceeded(effect) => self.after_success(effect, post),
            WorkerUpdate::MutationFailed(text) => self.after_failure(text@, post),
            WorkerUpdate::MutationSavingFor(session) => if current(session) {
                post == (App { mutation_state: MutationState::Saving, ..self })
            } else {
                post == self
            },
            WorkerUpdate::MutationSucceededFor(session, effect) => if current(session) {
                self.after_success(effect, post)
            } else {
                post == self
            },
            WorkerUpdate::MutationFailedFor(session, text) => if current(session) {
                self.after_failure(text@, post)
            } else {
                post == self
            },
            WorkerUpdate::Status(text) => post == (App { status: post.status, ..self }) && says(
                post.status,
                text@,
                false,
            ),
            WorkerUpdate::Error(text) => post == (App { status: post.status, ..self }) && says(
                post.status,
                text@,
                true,
            ),
            _ => self.after_calendar_update(update, post),
        }
    }

    fn session_is_current(&self, session: u64) -> (r: bool)
        ensures
            r == (self.active_mutation_session == Some(session)),
    {
        match self.active_mutation_session {
            Some(active) => active == session,
            None => false,
        }
    }

    /// Takes in a report of the worker.
    pub fn apply_update(&mut self, update: WorkerUpdate)
        requires
            old(self).wf(),
        ensures
            old(self).after_update(update, *final(self)),
            final(self).wf(),
    {
        match update {
            WorkerUpdate::Syncing(value) => self.syncing = value,
            WorkerUpdate::BackendState(state) => self.backend_state = state,
            WorkerUpdate::CalendarCapabilities(capabilities) => {
                self.calendar_capabilities = capabilities;
            },
            WorkerUpdate::CalendarSources(sources) => self.calendar_sources = sources,
            WorkerUpdate::Snapshot(snapshot) => self.take_snapshot(snapshot),
            WorkerUpdate::RangeStarted(id) => {
                if id == self.visible_range_request_id {
                    self.visible_range_state = VisibleRangeState::Loading;
                }
            },
            WorkerUpdate::RangeLoaded(id) => {
                if id == self.visible_range_request_id {
                    self.visible_range_state = VisibleRangeState::Ready;
                }
            },
            WorkerUpdate::RangeFailed(id, error) => {
                if id == self.visible_range_request_id {
                    self.fail_range(id, error);
                }
            },
            WorkerUpdate::MutationSaving => self.mutation_state = MutationState::Saving,
            WorkerUpdate::MutationSucceeded(effect) => self.apply_mutation_success(effect),
            WorkerUpdate::MutationFailed(text) => self.apply_mutation_failure(text),
            WorkerUpdate::MutationSavingFor(session) => {
                if self.session_is_current(session) {
                    self.mutation_state = MutationState::Saving;
                }
            },
            WorkerUpdate::MutationSucceededFor(session, effect) => {
                if self.session_is_current(session) {
                    self.apply_mutation_success(effect);
                }
            },
            WorkerUpdate::MutationFailedFor(session, text) => {
                if self.session_is_current(session) {
                    self.apply_mutation_failure(text);
                }
            },
            WorkerUpdate::Status(text) => self.status = message(text, false),
            WorkerUpdate::Error(text) => self.status = message(text, true),
            other => self.apply_calendar_update(other),
        }
    }
}

/// Which events can be shown depends on the events, the calendars and the view alone.
pub proof fn lemma_same_shown(a: App, b: App, list: Seq<int>)
    requires
        a.may_show(list),
        a.snapshot == b.snapshot,
        a.window() == b.window(),
    ensures
        b.may_show(list),
{
    let (start, end) = choose|start: Timestamp, end: Timestamp|
        near_midnight(start, a.window().0) && near_midnight(end, a.window().1) && list
            == #[trigger] a.shown_between(start, end);
    assert(list == b.shown_between(start, end));
}

/// A report of a change that was begun in another session than the current one changes nothing.
pub proof fn law_stale_sessions_change_nothing(app: App, session: u64, update: WorkerUpdate, post: App)
    requires
        app.active_mutation_session != Some(session),
        update == WorkerUpdate::MutationSavingFor(session) || (update
            matches WorkerUpdate::MutationSucceededFor(s, _) && s == session) || (update
            matches WorkerUpdate::MutationFailedFor(s, _) && s == session),
        app.after_update(update, post),
    ensures
        post == app,
{
}

/// A report of a range that is no longer the one shown changes nothing.
pub proof fn law_stale_ranges_change_nothing(app: App, id: u64, update: WorkerUpdate, post: App)
    requires
        app.visible_range_request_id != id,
        update == WorkerUpdate::RangeStarted(id) || update == WorkerUpdate::RangeLoaded(id) || (
        update matches WorkerUpdate::RangeFailed(n, _) && n == id),
        app.after_update(update, post),
    ensures
        post == app,
{
}

/// A state of the provider, and whether it is being synchronized, touch nothing that the user does.
pub proof fn law_backend_state_touches_nothing_else(app: App, update: WorkerUpdate, post: App)
    requires
        update is BackendState || update is Syncing,
        app.after_update(update, post),
    ensures
        post == (App { backend_state: post.backend_state, syncing: post.syncing, ..app }),
{
}

/// A change that the provider refused leaves the form, and the overlay that it is in, as they are.
pub proof fn law_failure_keeps_the_form(app: App, text: Seq<char>, post: App)
    requires
        app.after_failure(text, post),
    ensures
        post.form == app.form,
        post.form_dirty == app.form_dirty,
        post.mode == app.mode,
        post.modal_stack == app.modal_stack,
        post.mutation_state == MutationState::Failed,
{
}

} // verus!
