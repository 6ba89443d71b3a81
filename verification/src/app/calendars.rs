//! The list of calendars, and creating, renaming, coloring and deleting them.

use super::{command_view, App, Mode, MutationState, WorkerCommand, WorkerCommandView};
use crate::calendar_form::{
    is_color, text_after_key, type_key, CalendarColorForm, CalendarDeleteConfirmation, CalendarForm,
    CalendarRenameForm,
};
use crate::input::{KeyCode, KeyEvent};
use crate::model::{CalendarInfo, DeleteCalendarRequest, Snapshot};
use crate::text::{ascii_upper, trimmed};
use vstd::prelude::*;
use vstd::view::View as _;

verus! {

/// The index after another among `count`, not beyond the last.
pub open spec fn next_index(index: usize, count: int) -> usize {
    if count == 0 {
        index
    } else if index + 1 < count {
        (index + 1) as usize
    } else {
        (count - 1) as usize
    }
}

/// The index before another, not before the first.
pub open spec fn previous_index(index: usize) -> usize {
    if index > 0 {
        (index - 1) as usize
    } else {
        0
    }
}

pub(crate) fn step_forward(index: usize, count: usize) -> (r: usize)
    ensures
        r == next_index(index, count as int),
{
    if count == 0 {
        index
    } else if index < count - 1 {
        index + 1
    } else {
        count - 1
    }
}

pub(crate) fn step_back(index: usize) -> (r: usize)
    ensures
        r == previous_index(index),
{
    if index > 0 {
        index - 1
    } else {
        0
    }
}

/// Whether a key steps forwards through a list.
pub open spec fn is_next(code: KeyCode) -> bool {
    code == KeyCode::Char('j') || code == KeyCode::Down
}

/// Whether a key steps backwards through a list.
pub open spec fn is_previous(code: KeyCode) -> bool {
    code == KeyCode::Char('k') || code == KeyCode::Up
}

impl App {
    /// The number of calendars.
    pub open spec fn calendar_count(self) -> int {
        self.snapshot.calendars@.len() as int
    }

    /// The state with the selected calendar shown or hidden, which the worker is told.
    pub open spec fn calendar_toggled(self, post: App, r: Option<WorkerCommand>) -> bool {
        let i = self.selected_calendar as int;
        if i < self.calendar_count() {
            let calendar = self.snapshot.calendars@[i];
            &&& post == (App {
                snapshot: Snapshot { calendars: post.snapshot.calendars, ..self.snapshot },
                ..self
            })
            &&& post.snapshot.calendars@ == self.snapshot.calendars@.update(
                i,
                CalendarInfo { enabled: !calendar.enabled, ..calendar },
            )
            &&& r == Some(WorkerCommand::SetCalendarEnabled(calendar.id, !calendar.enabled))
        } else {
            r is None && post == self
        }
    }

    fn toggle_calendar(&mut self) -> (r: Option<WorkerCommand>)
        ensures
            old(self).calendar_toggled(*final(self), r),
            old(self).wf() ==> final(self).wf(),
    {
        let i: usize = self.selected_calendar;
        if i >= self.snapshot.calendars.len() {
            return None;
        }
        let mut calendar = self.snapshot.calendars[i].clone();
        let enabled = !calendar.enabled;
        let id = calendar.id.clone();
        calendar.enabled = enabled;
        self.snapshot.calendars.set(i, calendar);
        Some(WorkerCommand::SetCalendarEnabled(id, enabled))
    }

    /// The state after a key in the list of calendars.
    pub open spec fn after_calendars_key(self, key: KeyEvent, post: App, r: Option<WorkerCommand>) -> bool {
        let code = key.code;
        if code == KeyCode::Char(' ') || code == KeyCode::Enter {
            self.calendar_toggled(post, r)
        } else {
            &&& r is None
            &&& if code == KeyCode::Esc || code == KeyCode::Char('q') {
                post == (App { mode: Mode::Normal, ..self })
            } else if code == KeyCode::Char('c') {
                post == (App { sidebar_visible: false, mode: Mode::Normal, ..self })
            } else if is_next(code) {
                post == (App {
                    selected_calendar: next_index(self.selected_calendar, self.calendar_count()),
                    ..self
                })
            } else if is_previous(code) {
                post == (App { selected_calendar: previous_index(self.selected_calendar), ..self })
            } else {
                post == self
            }
        }
    }

    /// Handles a key in the list of calendars.
    pub fn handle_calendars(&mut self, key: KeyEvent) -> (r: Option<WorkerCommand>)
        requires
            old(self).wf(),
        ensures
            old(self).after_calendars_key(key, *final(self), r),
            final(self).wf(),
    {
        match key.code {
            KeyCode::Char(' ') | KeyCode::Enter => return self.toggle_calendar(),
            KeyCode::Esc | KeyCode::Char('q') => self.mode = Mode::Normal,
            KeyCode::Char('c') => {
                self.sidebar_visible = false;
                self.mode = Mode::Normal;
            },
            KeyCode::Char('j') | KeyCode::Down => {
                self.selected_calendar = step_forward(
                    self.selected_calendar,
                    self.snapshot.calendars.len(),
                );
            },
            KeyCode::Char('k') | KeyCode::Up => {
                self.selected_calendar = step_back(self.selected_calendar);
            },
            _ => {},
        }
        None
    }

    /// The state with the calendar manager open.
    pub open spec fn manager_opened(self) -> App {
        App {
            pending_g: false,
            sidebar_visible: false,
            selected_calendar: if self.calendar_count() == 0 {
                0
            } else if self.selected_calendar < self.calendar_count() {
                self.selected_calendar
            } else {
                (self.calendar_count() - 1) as usize
            },
            mode: Mode::CalendarManager,
            ..self
        }
    }

    /// Opens the calendar manager.
    pub fn open_calendar_manager(&mut self)
        ensures
            *final(self) == old(self).manager_opened(),
    {
        let count: usize = self.snapshot.calendars.len();
        let selected: usize = if count == 0 {
            0
        } else if self.selected_calendar < count {
            self.selected_calendar
        } else {
            count - 1
        };
        self.pending_g = false;
        self.sidebar_visible = false;
        self.selected_calendar = selected;
        self.mode = Mode::CalendarManager;
    }

    /// The state after the form of a new calendar is asked for.
    pub open spec fn after_open_create(self, post: App) -> bool {
        if self.calendar_sources@.len() == 0 {
            self.told("Calendar sources are unavailable; refresh and try again"@, true, post)
        } else {
            &&& post == (App {
                calendar_form: post.calendar_form,
                mutation_state: MutationState::Idle,
                mode: Mode::CalendarCreate,
                ..self
            })
            &&& post.calendar_form matches Some(form) && form.title@.len() == 0 && form.color@
                == "#5E9EFF"@ && form.source_index is None && form.selected == 0
        }
    }

    /// Opens the form of a new calendar.
    pub fn open_calendar_create(&mut self)
        ensures
            old(self).after_open_create(*final(self)),
            old(self).wf() ==> final(self).wf(),
    {
        if self.calendar_sources.len() == 0 {
            self.tell("Calendar sources are unavailable; refresh and try again", true);
            return;
        }
        self.calendar_form = Some(CalendarForm::new());
        self.mutation_state = MutationState::Idle;
        self.mode = Mode::CalendarCreate;
    }

    /// The state after the form to rename the selected calendar is asked for.
    pub open spec fn after_open_rename(self, post: App) -> bool {
        let i = self.selected_calendar as int;
        if !self.calendar_capabilities.can_update || i >= self.calendar_count() {
            post == self
        } else if !self.snapshot.calendars@[i].permissions.can_modify_metadata {
            self.told("This calendar's metadata cannot be modified"@, true, post)
        } else {
            post == (App {
                calendar_rename_form: Some(
                    CalendarRenameForm {
                        calendar_id: self.snapshot.calendars@[i].id,
                        title: self.snapshot.calendars@[i].title,
                    },
                ),
                mutation_state: MutationState::Idle,
                mode: Mode::CalendarRename,
                ..self
            })
        }
    }

    /// Opens the form to rename the selected calendar.
    pub fn open_calendar_rename(&mut self)
        ensures
            old(self).after_open_rename(*final(self)),
            old(self).wf() ==> final(self).wf(),
    {
        let i: usize = self.selected_calendar;
        if !self.calendar_capabilities.can_update || i >= self.snapshot.calendars.len() {
            return;
        }
        if !self.snapshot.calendars[i].permissions.can_modify_metadata {
            self.tell("This calendar's metadata cannot be modified", true);
            return;
        }
        self.calendar_rename_form = Some(CalendarRenameForm::new(&self.snapshot.calendars[i]));
        self.mutation_state = MutationState::Idle;
        self.mode = Mode::CalendarRename;
    }

    /// The state after the form to color the selected calendar is asked for.
    pub open spec fn after_open_color(self, post: App) -> bool {
        let i = self.selected_calendar as int;
        if !self.calendar_capabilities.can_change_color || i >= self.calendar_count() {
            post == self
        } else if !self.snapshot.calendars@[i].permissions.can_modify_metadata {
            self.told("Calendar metadata is read-only"@, true, post)
        } else {
            post == (App {
                calendar_color_form: Some(
                    CalendarColorForm {
                        calendar_id: self.snapshot.calendars@[i].id,
                        color: self.snapshot.calendars@[i].color,
                    },
                ),
                mutation_state: MutationState::Idle,
                mode: Mode::CalendarColor,
                ..self
            })
        }
    }

    /// Opens the form to color the selected calendar.
    pub fn open_calendar_color(&mut self)
        ensures
            old(self).after_open_color(*final(self)),
            old(self).wf() ==> final(self).wf(),
    {
        let i: usize = self.selected_calendar;
        if !self.calendar_capabilities.can_change_color || i >= self.snapshot.calendars.len() {
            return;
        }
        if !self.snapshot.calendars[i].permissions.can_modify_metadata {
            self.tell("Calendar metadata is read-only", true);
            return;
        }
        self.calendar_color_form = Some(CalendarColorForm::new(&self.snapshot.calendars[i]));
        self.mutation_state = MutationState::Idle;
        self.mode = Mode::CalendarColor;
    }

    /// The state after the selected calendar's deletion is asked for: it is to be confirmed.
    pub open spec fn after_open_delete(self, post: App) -> bool {
        let i = self.selected_calendar as int;
        if !self.calendar_capabilities.can_delete {
            self.told("Calendar deletion is not supported"@, true, post)
        } else if i >= self.calendar_count() {
            post == self
        } else if !self.snapshot.calendars@[i].permissions.can_delete {
            self.told("This calendar cannot be deleted"@, true, post)
        } else {
            post == (App {
                calendar_delete_confirmation: Some(
                    CalendarDeleteConfirmation {
                        calendar_id: self.snapshot.calendars@[i].id,
                        title: self.snapshot.calendars@[i].title,
                    },
                ),
                mutation_state: MutationState::Idle,
                mode: Mode::CalendarDeleteConfirm,
                ..self
            })
        }
    }

    /// Asks for the selected calendar's deletion.
    pub fn open_calendar_delete_confirm(&mut self)
        ensures
            old(self).after_open_delete(*final(self)),
            old(self).wf() ==> final(self).wf(),
    {
        if !self.calendar_capabilities.can_delete {
            self.tell("Calendar deletion is not supported", true);
            return;
        }
        let i: usize = self.selected_calendar;
        if i >= self.snapshot.calendars.len() {
            return;
        }
        if !self.snapshot.calendars[i].permissions.can_delete {
            self.tell("This calendar cannot be deleted", true);
            return;
        }
        self.calendar_delete_confirmation = Some(
            CalendarDeleteConfirmation {
                calendar_id: self.snapshot.calendars[i].id.clone(),
                title: self.snapshot.calendars[i].title.clone(),
            },
        );
        self.mutation_state = MutationState::Idle;
        self.mode = Mode::CalendarDeleteConfirm;
    }

    /// The state after a key in the calendar manager.
    pub open spec fn after_manager_key(self, key: KeyEvent, post: App) -> bool {
        let code = key.code;
        if code == KeyCode::Esc || code == KeyCode::Char('q') {
            post == (App { mode: Mode::Normal, ..self })
        } else if is_next(code) {
            post == (App {
                selected_calendar: next_index(self.selected_calendar, self.calendar_count()),
                ..self
            })
        } else if is_previous(code) {
            post == (App { selected_calendar: previous_index(self.selected_calendar), ..self })
        } else if code == KeyCode::Enter {
            post == (App { mode: Mode::CalendarManagerDetails, ..self })
        } else if code == KeyCode::Char('c') && self.calendar_capabilities.can_create {
            self.after_open_create(post)
        } else if code == KeyCode::Char('e') {
            self.after_open_rename(post)
        } else if code == KeyCode::Char('C') {
            self.after_open_color(post)
        } else if code == KeyCode::Char('d') {
            self.after_open_delete(post)
        } else {
            post == self
        }
    }

    /// Handles a key in the calendar manager.
    pub fn handle_calendar_manager(&mut self, key: KeyEvent)
        requires
            old(self).wf(),
        ensures
            old(self).after_manager_key(key, *final(self)),
            final(self).wf(),
    {
        match key.code {
            KeyCode::Esc | KeyCode::Char('q') => self.mode = Mode::Normal,
            KeyCode::Char('j') | KeyCode::Down => {
                self.selected_calendar = step_forward(
                    self.selected_calendar,
                    self.snapshot.calendars.len(),
                );
            },
            KeyCode::Char('k') | KeyCode::Up => {
                self.selected_calendar = step_back(self.selected_calendar);
            },
            KeyCode::Enter => self.mode = Mode::CalendarManagerDetails,
            KeyCode::Char('c') => {
                if self.calendar_capabilities.can_create {
                    self.open_calendar_create();
                }
            },
            KeyCode::Char('e') => self.open_calendar_rename(),
            KeyCode::Char('C') => self.open_calendar_color(),
            KeyCode::Char('d') => self.open_calendar_delete_confirm(),
            _ => {},
        }
    }

    /// Handles a key in the details of a calendar.
    pub fn handle_calendar_manager_details(&mut self, key: KeyEvent)
        ensures
            *final(self) == (App {
                mode: if key.code == KeyCode::Esc || key.code == KeyCode::Char('q') || key.code
                    == KeyCode::Enter {
                    Mode::CalendarManager
                } else {
                    old(self).mode
                },
                ..*old(self)
            }),
    {
        if key.code == KeyCode::Esc || key.code == KeyCode::Char('q') || key.code
            == KeyCode::Enter {
            self.mode = Mode::CalendarManager;
        }
    }

    /// Whether a form is to be saved: Control and `s`.
    pub open spec fn is_save(key: KeyEvent) -> bool {
        key.modifiers.control && key.code == KeyCode::Char('s')
    }

    /// The state after the form of a new calendar is saved.
    pub open spec fn after_create_save(self, post: App, r: Option<WorkerCommand>) -> bool {
        match self.calendar_form {
            None => r is None && self.told("Calendar form is unavailable"@, true, post),
            Some(form) => {
                let source = form.source_index matches Some(i) && i < self.calendar_sources@.len();
                if trimmed(form.title@).len() > 0 && is_color(form.color@) && source {
                    &&& post == (App { mutation_state: MutationState::Saving, ..self })
                    &&& command_view(r) == Some(
                        WorkerCommandView::CreateCalendar {
                            source_id: self.calendar_sources@[form.source_index->0 as int].id@,
                            title: trimmed(form.title@),
                            color: form.color@,
                        },
                    )
                } else {
                    r is None && self.told(
                        if trimmed(form.title@).len() == 0 {
                            "Calendar title is required"@
                        } else if !is_color(form.color@) {
                            "Calendar color must use #RRGGBB"@
                        } else {
                            "Select a calendar source"@
                        },
                        true,
                        post,
                    )
                }
            },
        }
    }

    fn save_calendar(&mut self) -> (r: Option<WorkerCommand>)
        ensures
            old(self).after_create_save(*final(self), r),
            old(self).wf() ==> final(self).wf(),
    {
        let request = match &self.calendar_form {
            None => Err("Calendar form is unavailable".to_owned()),
            Some(form) => form.to_request(&self.calendar_sources),
        };
        match request {
            Ok(request) => {
                self.mutation_state = MutationState::Saving;
                Some(WorkerCommand::CreateCalendar(request))
            },
            Err(text) => {
                self.tell(text.as_str(), true);
                None
            },
        }
    }

    /// The state after a key in the form of a new calendar.
    pub open spec fn after_create_key(self, key: KeyEvent, post: App, r: Option<WorkerCommand>) -> bool {
        if Self::is_save(key) {
            if self.mutation_state == MutationState::Saving {
                r is None && post == self
            } else {
                self.after_create_save(post, r)
            }
        } else {
            &&& r is None
            &&& match self.calendar_form {
                None => post == (App { mode: Mode::CalendarManager, ..self }),
                Some(form) => if key.code == KeyCode::Esc {
                    post == (App {
                        mode: Mode::CalendarManager,
                        calendar_form: None,
                        mutation_state: MutationState::Idle,
                        ..self
                    })
                } else {
                    &&& post == (App { calendar_form: post.calendar_form, ..self })
                    &&& post.calendar_form matches Some(new) && form.is_after_key(
                        key,
                        self.calendar_sources@.len() as int,
                        new,
                    )
                },
            }
        }
    }

    /// Handles a key in the form of a new calendar.
    pub fn handle_calendar_create(&mut self, key: KeyEvent) -> (r: Option<WorkerCommand>)
        requires
            old(self).wf(),
        ensures
            old(self).after_create_key(key, *final(self), r),
            final(self).wf(),
    {
        if key.modifiers.control && key.code == KeyCode::Char('s') {
            if self.mutation_state == MutationState::Saving {
                return None;
            }
            return self.save_calendar();
        }
        if self.calendar_form.is_none() {
            self.mode = Mode::CalendarManager;
            return None;
        }
        if key.code == KeyCode::Esc {
            self.mode = Mode::CalendarManager;
            self.calendar_form = None;
            self.mutation_state = MutationState::Idle;
            return None;
        }
        match &mut self.calendar_form {
            Some(form) => form.handle_key(key, &self.calendar_sources),
            None => {},
        }
        None
    }

    /// The state after the form to rename a calendar is saved.
    pub open spec fn after_rename_save(self, post: App, r: Option<WorkerCommand>) -> bool {
        match self.calendar_rename_form {
            None => r is None && self.told("Calendar rename form is unavailable"@, true, post),
            Some(form) => if trimmed(form.title@).len() > 0 {
                &&& post == (App { mutation_state: MutationState::Saving, ..self })
                &&& command_view(r) == Some(
                    WorkerCommandView::RenameCalendar {
                        calendar_id: form.calendar_id@,
                        title: trimmed(form.title@),
                    },
                )
            } else {
                r is None && self.told("Calendar title is required"@, true, post)
            },
        }
    }

    fn save_rename(&mut self) -> (r: Option<WorkerCommand>)
        ensures
            old(self).after_rename_save(*final(self), r),
            old(self).wf() ==> final(self).wf(),
    {
        let request = match &self.calendar_rename_form {
            None => Err("Calendar rename form is unavailable".to_owned()),
            Some(form) => form.to_request(),
        };
        match request {
            Ok(request) => {
                self.mutation_state = MutationState::Saving;
                Some(WorkerCommand::RenameCalendar(request))
            },
            Err(text) => {
                self.tell(text.as_str(), true);
                None
            },
        }
    }

    /// The state after a key in the form to rename a calendar.
    pub open spec fn after_rename_key(self, key: KeyEvent, post: App, r: Option<WorkerCommand>) -> bool {
        if Self::is_save(key) {
            if self.mutation_state == MutationState::Saving {
                r is None && post == self
            } else {
                self.after_rename_save(post, r)
            }
        } else {
            &&& r is None
            &&& match self.calendar_rename_form {
                None => post == (App { mode: Mode::CalendarManager, ..self }),
                Some(form) => if key.code == KeyCode::Esc {
                    post == (App {
                        mode: Mode::CalendarManager,
                        calendar_rename_form: None,
                        mutation_state: MutationState::Idle,
                        ..self
                    })
                } else {
                    &&& post == (App { calendar_rename_form: post.calendar_rename_form, ..self })
                    &&& post.calendar_rename_form matches Some(new) && new.calendar_id
                        == form.calendar_id && new.title@ == text_after_key(form.title@, key)
                },
            }
        }
    }

    /// Handles a key in the form to rename a calendar.
    pub fn handle_calendar_rename(&mut self, key: KeyEvent) -> (r: Option<WorkerCommand>)
        requires
            old(self).wf(),
        ensures
            old(self).after_rename_key(key, *final(self), r),
            final(self).wf(),
    {
        if key.modifiers.control && key.code == KeyCode::Char('s') {
            if self.mutation_state == MutationState::Saving {
                return None;
            }
            return self.save_rename();
        }
        if self.calendar_rename_form.is_none() {
            self.mode = Mode::CalendarManager;
            return None;
        }
        if key.code == KeyCode::Esc {
            self.mode = Mode::CalendarManager;
            self.calendar_rename_form = None;
            self.mutation_state = MutationState::Idle;
            return None;
        }
        match &mut self.calendar_rename_form {
            Some(form) => type_key(&mut form.title, key),
            None => {},
        }
        None
    }

    /// The state after the form to color a calendar is saved.
    pub open spec fn after_color_save(self, post: App, r: Option<WorkerCommand>) -> bool {
        match self.calendar_color_form {
            None => r is None && self.told("Calendar color form is unavailable"@, true, post),
            Some(form) => if is_color(form.color@) {
                &&& post == (App { mutation_state: MutationState::Saving, ..self })
                &&& command_view(r) == Some(
                    WorkerCommandView::SetCalendarColor {
                        calendar_id: form.calendar_id@,
                        color: ascii_upper(form.color@),
                    },
                )
            } else {
                r is None && self.told("Calendar color must use #RRGGBB"@, true, post)
            },
        }
    }

    fn save_color(&mut self) -> (r: Option<WorkerCommand>)
        ensures
            old(self).after_color_save(*final(self), r),
            old(self).wf() ==> final(self).wf(),
    {
        let request = match &self.calendar_color_form {
            None => Err("Calendar color form is unavailable".to_owned()),
            Some(form) => form.to_request(),
        };
        match request {
            Ok(request) => {
                self.mutation_state = MutationState::Saving;
                Some(WorkerCommand::SetCalendarColor(request))
            },
            Err(text) => {
                self.tell(text.as_str(), true);
                None
            },
        }
    }

    /// The state after a key in the form to color a calendar.
    pub open spec fn after_color_key(self, key: KeyEvent, post: App, r: Option<WorkerCommand>) -> bool {
        if Self::is_save(key) {
            if self.mutation_state == MutationState::Saving {
                r is None && post == self
            } else {
                self.after_color_save(post, r)
            }
        } else {
            &&& r is None
            &&& match self.calendar_color_form {
                None => post == (App { mode: Mode::CalendarManager, ..self }),
                Some(form) => if key.code == KeyCode::Esc {
                    post == (App {
                        mode: Mode::CalendarManager,
                        calendar_color_form: None,
                        mutation_state: MutationState::Idle,
                        ..self
                    })
                } else {
                    &&& post == (App { calendar_color_form: post.calendar_color_form, ..self })
                    &&& post.calendar_color_form matches Some(new) && new.calendar_id
                        == form.calendar_id && new.color@ == text_after_key(form.color@, key)
                },
            }
        }
    }

    /// Handles a key in the form to color a calendar.
    pub fn handle_calendar_color(&mut self, key: KeyEvent) -> (r: Option<WorkerCommand>)
        requires
            old(self).wf(),
        ensures
            old(self).after_color_key(key, *final(self), r),
            final(self).wf(),
    {
        if key.modifiers.control && key.code == KeyCode::Char('s') {
            if self.mutation_state == MutationState::Saving {
                return None;
            }
            return self.save_color();
        }
        if self.calendar_color_form.is_none() {
            self.mode = Mode::CalendarManager;
            return None;
        }
        if key.code == KeyCode::Esc {
            self.mode = Mode::CalendarManager;
            self.calendar_color_form = None;
            self.mutation_state = MutationState::Idle;
            return None;
        }
        match &mut self.calendar_color_form {
            Some(form) => type_key(&mut form.color, key),
            None => {},
        }
        None
    }

    /// The state after a key where a calendar's deletion is to be confirmed. While it is being
    /// deleted no key does anything.
    pub open spec fn after_confirm_key(self, key: KeyEvent, post: App, r: Option<WorkerCommand>) -> bool {
        let code = key.code;
        if self.mutation_state == MutationState::Deleting {
            r is None && post == self
        } else if code == KeyCode::Esc || code == KeyCode::Char('n') || code == KeyCode::Char(
            'q',
        ) {
            &&& r is None
            &&& post == (App {
                calendar_delete_confirmation: None,
                mutation_state: MutationState::Idle,
                mode: Mode::CalendarManager,
                ..self
            })
        } else if code == KeyCode::Char('y') {
            match self.calendar_delete_confirmation {
                None => r is None && post == (App { mode: Mode::CalendarManager, ..self }),
                Some(confirmation) => {
                    &&& post == (App { mutation_state: MutationState::Deleting, ..self })
                    &&& command_view(r) == Some(
                        WorkerCommandView::DeleteCalendar {
                            calendar_id: confirmation.calendar_id@,
                        },
                    )
                },
            }
        } else {
            r is None && post == self
        }
    }

    /// Handles a key where a calendar's deletion is to be confirmed.
    pub fn handle_calendar_delete_confirm(&mut self, key: KeyEvent) -> (r: Option<WorkerCommand>)
        requires
            old(self).wf(),
        ensures
            old(self).after_confirm_key(key, *final(self), r),
            final(self).wf(),
    {
        if self.mutation_state == MutationState::Deleting {
            return None;
        }
        let code = key.code;
        if code == KeyCode::Esc || code == KeyCode::Char('n') || code == KeyCode::Char('q') {
            self.calendar_delete_confirmation = None;
            self.mutation_state = MutationState::Idle;
            self.mode = Mode::CalendarManager;
            return None;
        }
        if code == KeyCode::Char('y') {
            let calendar_id = match &self.calendar_delete_confirmation {
                None => {
                    self.mode = Mode::CalendarManager;
                    return None;
                },
                Some(confirmation) => confirmation.calendar_id.clone(),
            };
            self.mutation_state = MutationState::Deleting;
            return Some(WorkerCommand::DeleteCalendar(DeleteCalendarRequest { calendar_id }));
        }
        None
    }
}

/// A calendar is deleted only after its deletion was asked for and confirmed, and it is the one
/// that was asked about.
pub proof fn law_calendars_are_deleted_on_confirmation(
    app: App,
    key: KeyEvent,
    post: App,
    command: WorkerCommand,
)
    requires
        app.after_confirm_key(key, post, Some(command)),
    ensures
        key.code == KeyCode::Char('y'),
        app.mutation_state != MutationState::Deleting,
        app.calendar_delete_confirmation matches Some(confirmation) && command@ == (
        WorkerCommandView::DeleteCalendar { calendar_id: confirmation.calendar_id@ }),
{
}

} // verus!
