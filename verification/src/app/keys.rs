//! Keys: what each does in the calendar itself, and which overlay it goes to.

use super::actions::EventAction;
use super::calendars::{next_index, previous_index, step_back, step_forward};
use super::overlays::{moved_place, places_on};
use super::prompts::{lines_of, scroll_by, scroll_lines, scrolled_by};
use super::shown::days_fit;
use super::{App, Mode, UserAction, View, WorkerCommand};
use crate::input::{KeyCode, KeyEvent};
use crate::model::index_view;
use crate::quick_add::QuickAddParseResult;
use crate::search::EventDays;
use vstd::prelude::*;
use vstd::view::View as _;

verus! {

/// What a key does in the calendar.
#[derive(Clone, Copy, Debug, PartialEq, Eq, Structural)]
pub enum NormalCommand {
    Quit,
    /// To the next event of the active date, or the previous.
    MonthEvent { backwards: bool },
    /// To another date.
    Days(i32),
    /// To another event.
    Select(i32),
    /// To another period.
    Period { backwards: bool },
    Scroll(i32),
    /// The first key of two.
    Prefix,
    Today,
    ToggleSidebar,
    PreviousCalendar,
    NextCalendar,
    Search,
    Palette,
    CreateEvent,
    QuickAdd,
    OnSelected(EventAction),
    Undo,
    Redo,
    /// Moves the selected event by days.
    MoveDays(i32),
    /// Moves the selected event by the configured step.
    MoveStep { backwards: bool },
    /// Makes the selected event longer or shorter by the configured step.
    Resize { shorter: bool },
    Refresh,
    RetryVisibleRange,
    Help,
    Details,
    Nothing,
}

/// What a key without Alt and Control does, where that does not depend on the view.
pub open spec fn plain_command(c: char) -> NormalCommand {
    if c == 'q' {
        NormalCommand::Quit
    } else if c == 'H' {
        NormalCommand::Period { backwards: true }
    } else if c == 'L' {
        NormalCommand::Period { backwards: false }
    } else if c == 'g' {
        NormalCommand::Prefix
    } else if c == 't' {
        NormalCommand::Today
    } else if c == 'c' {
        NormalCommand::ToggleSidebar
    } else if c == '[' {
        NormalCommand::PreviousCalendar
    } else if c == ']' {
        NormalCommand::NextCalendar
    } else if c == '/' {
        NormalCommand::Search
    } else if c == ':' {
        NormalCommand::Palette
    } else if c == 'n' {
        NormalCommand::CreateEvent
    } else if c == 'a' {
        NormalCommand::QuickAdd
    } else if c == 'D' {
        NormalCommand::OnSelected(EventAction::Duplicate)
    } else if c == 'e' {
        NormalCommand::OnSelected(EventAction::Edit)
    } else if c == 'd' {
        NormalCommand::OnSelected(EventAction::Delete)
    } else if c == 'u' {
        NormalCommand::Undo
    } else if c == 'J' {
        NormalCommand::Resize { shorter: false }
    } else if c == 'K' {
        NormalCommand::Resize { shorter: true }
    } else if c == 'R' {
        NormalCommand::RetryVisibleRange
    } else if c == '?' {
        NormalCommand::Help
    } else {
        NormalCommand::Nothing
    }
}

/// What a key does in the calendar in a view.
pub open spec fn bound(view: View, key: KeyEvent) -> NormalCommand {
    let by_weeks = view == View::Month || view == View::Week;
    match key.code {
        KeyCode::Tab => if view == View::Month {
            NormalCommand::MonthEvent { backwards: false }
        } else {
            NormalCommand::Nothing
        },
        KeyCode::BackTab => if view == View::Month {
            NormalCommand::MonthEvent { backwards: true }
        } else {
            NormalCommand::Nothing
        },
        KeyCode::Down => if view == View::Month {
            NormalCommand::Days(7)
        } else {
            NormalCommand::Select(1)
        },
        KeyCode::Up => if view == View::Month {
            NormalCommand::Days((-7) as i32)
        } else {
            NormalCommand::Select((-1) as i32)
        },
        KeyCode::Left => NormalCommand::Days((-1) as i32),
        KeyCode::Right => NormalCommand::Days(1),
        KeyCode::PageUp => NormalCommand::Scroll((-120) as i32),
        KeyCode::PageDown => NormalCommand::Scroll(120),
        KeyCode::Enter => NormalCommand::Details,
        KeyCode::Char(c) => if c == 'j' {
            if key.modifiers.alt {
                NormalCommand::MoveStep { backwards: false }
            } else if by_weeks {
                NormalCommand::Days(7)
            } else {
                NormalCommand::Select(1)
            }
        } else if c == 'k' {
            if key.modifiers.alt {
                NormalCommand::MoveStep { backwards: true }
            } else if by_weeks {
                NormalCommand::Days((-7) as i32)
            } else {
                NormalCommand::Select((-1) as i32)
            }
        } else if c == 'h' {
            if key.modifiers.alt {
                NormalCommand::MoveDays((-1) as i32)
            } else {
                NormalCommand::Days((-1) as i32)
            }
        } else if c == 'l' {
            if key.modifiers.alt {
                NormalCommand::MoveDays(1)
            } else {
                NormalCommand::Days(1)
            }
        } else if c == 'r' {
            if key.modifiers.control {
                NormalCommand::Redo
            } else {
                NormalCommand::Refresh
            }
        } else {
            plain_command(c)
        },
        _ => NormalCommand::Nothing,
    }
}

fn command_of_char(c: char) -> (r: NormalCommand)
    ensures
        r == plain_command(c),
{
    if c == 'q' {
        NormalCommand::Quit
    } else if c == 'H' {
        NormalCommand::Period { backwards: true }
    } else if c == 'L' {
        NormalCommand::Period { backwards: false }
    } else if c == 'g' {
        NormalCommand::Prefix
    } else if c == 't' {
        NormalCommand::Today
    } else if c == 'c' {
        NormalCommand::ToggleSidebar
    } else if c == '[' {
        NormalCommand::PreviousCalendar
    } else if c == ']' {
        NormalCommand::NextCalendar
    } else if c == '/' {
        NormalCommand::Search
    } else if c == ':' {
        NormalCommand::Palette
    } else if c == 'n' {
        NormalCommand::CreateEvent
    } else if c == 'a' {
        NormalCommand::QuickAdd
    } else if c == 'D' {
        NormalCommand::OnSelected(EventAction::Duplicate)
    } else if c == 'e' {
        NormalCommand::OnSelected(EventAction::Edit)
    } else if c == 'd' {
        NormalCommand::OnSelected(EventAction::Delete)
    } else if c == 'u' {
        NormalCommand::Undo
    } else if c == 'J' {
        NormalCommand::Resize { shorter: false }
    } else if c == 'K' {
        NormalCommand::Resize { shorter: true }
    } else if c == 'R' {
        NormalCommand::RetryVisibleRange
    } else if c == '?' {
        NormalCommand::Help
    } else {
        NormalCommand::Nothing
    }
}

/// What a key does in the calendar in a view.
pub fn normal_command(view: View, key: KeyEvent) -> (r: NormalCommand)
    ensures
        r == bound(view, key),
{
    let by_weeks = view == View::Month || view == View::Week;
    match key.code {
        KeyCode::Tab => if view == View::Month {
            NormalCommand::MonthEvent { backwards: false }
        } else {
            NormalCommand::Nothing
        },
        KeyCode::BackTab => if view == View::Month {
            NormalCommand::MonthEvent { backwards: true }
        } else {
            NormalCommand::Nothing
        },
        KeyCode::Down => if view == View::Month {
            NormalCommand::Days(7)
        } else {
            NormalCommand::Select(1)
        },
        KeyCode::Up => if view == View::Month {
            NormalCommand::Days(-7)
        } else {
            NormalCommand::Select(-1)
        },
        KeyCode::Left => NormalCommand::Days(-1),
        KeyCode::Right => NormalCommand::Days(1),
        KeyCode::PageUp => NormalCommand::Scroll(-120),
        KeyCode::PageDown => NormalCommand::Scroll(120),
        KeyCode::Enter => NormalCommand::Details,
        KeyCode::Char(c) => if c == 'j' {
            if key.modifiers.alt {
                NormalCommand::MoveStep { backwards: false }
            } else if by_weeks {
                NormalCommand::Days(7)
            } else {
                NormalCommand::Select(1)
            }
        } else if c == 'k' {
            if key.modifiers.alt {
                NormalCommand::MoveStep { backwards: true }
            } else if by_weeks {
                NormalCommand::Days(-7)
            } else {
                NormalCommand::Select(-1)
            }
        } else if c == 'h' {
            if key.modifiers.alt {
                NormalCommand::MoveDays(-1)
            } else {
                NormalCommand::Days(-1)
            }
        } else if c == 'l' {
            if key.modifiers.alt {
                NormalCommand::MoveDays(1)
            } else {
                NormalCommand::Days(1)
            }
        } else if c == 'r' {
            if key.modifiers.control {
                NormalCommand::Redo
            } else {
                NormalCommand::Refresh
            }
        } else {
            command_of_char(c)
        },
        _ => NormalCommand::Nothing,
    }
}

impl App {
    /// The state with the next calendar, or the previous, selected in the sidebar.
    pub open spec fn calendar_stepped(self, backwards: bool) -> App {
        if self.snapshot.calendars@.len() == 0 {
            self
        } else {
            App {
                sidebar_visible: true,
                mode: Mode::Calendars,
                selected_calendar: if backwards {
                    previous_index(self.selected_calendar)
                } else {
                    next_index(self.selected_calendar, self.calendar_count())
                },
                ..self
            }
        }
    }

    fn step_calendar(&mut self, backwards: bool)
        ensures
            *final(self) == old(self).calendar_stepped(backwards),
    {
        let count: usize = self.snapshot.calendars.len();
        if count == 0 {
            return;
        }
        self.sidebar_visible = true;
        self.mode = Mode::Calendars;
        self.selected_calendar = if backwards {
            step_back(self.selected_calendar)
        } else {
            step_forward(self.selected_calendar, count)
        };
    }

    /// The state with details of the selected event open, where there is one.
    pub open spec fn after_open_details(self, post: App) -> bool {
        exists|selected: Option<int>| #[trigger]
            self.may_select(selected) && match selected {
                None => post == self,
                Some(i) => {
                    &&& (App {
                        detail_scroll: 0,
                        interaction_context: post.interaction_context,
                        ..self
                    }).modal_entered(Mode::Details, post)
                    &&& post.interaction_context matches Some(context) && self.is_context_of(
                        self.snapshot.events@[i],
                        context,
                    )
                },
            }
    }

    /// Opens details of the selected event.
    pub fn open_details(&mut self)
        ensures
            old(self).after_open_details(*final(self)),
            old(self).wf() ==> final(self).wf(),
    {
        let selected = self.selected_event_index();
        proof {
            assert(old(self).may_select(index_view(selected)));
        }
        match selected {
            None => {},
            Some(i) => {
                let context = self.interaction_context_for(&self.snapshot.events[i]);
                self.detail_scroll = 0;
                self.interaction_context = Some(context);
                self.enter_modal(Mode::Details);
            },
        }
    }

    /// The state with the help open.
    pub open spec fn help_opened(self, post: App) -> bool {
        (App { help_scroll: 0, ..self }).modal_entered(Mode::Help, post)
    }

    fn open_help(&mut self)
        ensures
            old(self).help_opened(*final(self)),
            old(self).wf() ==> final(self).wf(),
    {
        self.help_scroll = 0;
        self.enter_modal(Mode::Help);
    }

    /// The state on a date some days away, and what is shown there asked for.
    pub open spec fn after_days(self, days: int, post: App, r: Option<WorkerCommand>) -> bool {
        self.on_date(self.active_date.clamped_shift(days)).range_asked(false, post, r)
    }

    fn go_days(&mut self, days: i32) -> (r: Option<WorkerCommand>)
        ensures
            old(self).after_days(days as int, *final(self), r),
            old(self).wf() ==> final(self).wf(),
    {
        self.navigate_date(days);
        self.ask_range(false)
    }

    /// The state a period away, and what is shown there asked for.
    pub open spec fn after_period(self, backwards: bool, post: App, r: Option<WorkerCommand>) -> bool {
        self.on_date(self.next_period(backwards)).range_asked(false, post, r)
    }

    fn go_period(&mut self, backwards: bool) -> (r: Option<WorkerCommand>)
        ensures
            old(self).after_period(backwards, *final(self), r),
            old(self).wf() ==> final(self).wf(),
    {
        self.navigate_period(backwards);
        self.ask_range(false)
    }

    /// The state with the selection moved.
    pub open spec fn after_select(self, delta: int, post: App) -> bool {
        exists|list: Seq<int>| #[trigger]
            self.may_show(list) && post == (App {
                selected_event: moved_place(self.selected_event, delta, list.len() as int),
                ..self
            })
    }

    /// The state with the selection on another event of the active date.
    pub open spec fn after_month_event(self, backwards: bool, post: App) -> bool {
        exists|list: Seq<int>, days: Seq<EventDays>|
            self.may_show(list) && days_fit(self.snapshot.events@, days) && self.moved_on_date(
                #[trigger] places_on(list, days, self.active_date, list.len() as int),
                backwards,
                post,
            )
    }

    /// The minutes by which an event is moved or resized.
    pub open spec fn step_minutes(self, backwards: bool) -> int {
        if backwards {
            -(self.config.event.move_step_minutes as int)
        } else {
            self.config.event.move_step_minutes as int
        }
    }

    fn step(&self, backwards: bool) -> (r: i32)
        ensures
            r == self.step_minutes(backwards),
    {
        if backwards {
            -(self.config.event.move_step_minutes as i32)
        } else {
            self.config.event.move_step_minutes as i32
        }
    }

    /// The state after a command of the calendar.
    pub open spec fn after_normal_command(
        self,
        command: NormalCommand,
        post: App,
        r: Option<WorkerCommand>,
    ) -> bool {
        match command {
            NormalCommand::Quit => r is None && post == (App { should_quit: true, ..self }),
            NormalCommand::MonthEvent { backwards } => r is None && self.after_month_event(
                backwards,
                post,
            ),
            NormalCommand::Days(days) => self.after_days(days as int, post, r),
            NormalCommand::Select(delta) => r is None && self.after_select(delta as int, post),
            NormalCommand::Period { backwards } => self.after_period(backwards, post, r),
            NormalCommand::Scroll(minutes) => r is None && post == (App {
                timeline_start_minute: self.scrolled(minutes as int),
                timeline_viewport_owner: super::TimelineViewportOwner::Manual,
                ..self
            }),
            NormalCommand::Prefix => r is None && post == (App { pending_g: true, ..self }),
            NormalCommand::Today => self.after_action(UserAction::Today, post, r),
            NormalCommand::ToggleSidebar => r is None && post == self.sidebar_toggled(),
            NormalCommand::PreviousCalendar => r is None && post == self.calendar_stepped(true),
            NormalCommand::NextCalendar => r is None && post == self.calendar_stepped(false),
            NormalCommand::Search => self.after_action(UserAction::Search, post, r),
            NormalCommand::Palette => r is None && self.prompt_opened(Mode::Palette, post),
            NormalCommand::CreateEvent => self.after_action(UserAction::CreateEvent, post, r),
            NormalCommand::QuickAdd => self.after_action(UserAction::QuickAdd, post, r),
            NormalCommand::OnSelected(action) => r is None && self.after_selected_action(
                action,
                post,
            ),
            NormalCommand::Undo => self.after_action(UserAction::Undo, post, r),
            NormalCommand::Redo => self.after_action(UserAction::Redo, post, r),
            NormalCommand::MoveDays(days) => self.after_move_selected(days as int, 0, post, r),
            NormalCommand::MoveStep { backwards } => self.after_move_selected(
                0,
                self.step_minutes(backwards),
                post,
                r,
            ),
            NormalCommand::Resize { shorter } => self.after_resize(
                self.step_minutes(shorter),
                post,
                r,
            ),
            NormalCommand::Refresh => self.after_action(UserAction::Refresh, post, r),
            NormalCommand::RetryVisibleRange => self.after_action(
                UserAction::RetryVisibleRange,
                post,
                r,
            ),
            NormalCommand::Help => r is None && self.help_opened(post),
            NormalCommand::Details => r is None && self.after_open_details(post),
            NormalCommand::Nothing => r is None && post == self,
        }
    }

    fn run_simple(&mut self, command: NormalCommand) -> (r: bool)
        requires
            old(self).wf(),
        ensures
            r ==> old(self).after_normal_command(command, *final(self), None),
            !r ==> *final(self) == *old(self),
            !r ==> command is Days || command is Period || command is Today || command is Search
                || command is CreateEvent || command is QuickAdd || command is Undo || command
                is Redo || command is MoveDays || command is MoveStep || command is Resize
                || command is Refresh || command is RetryVisibleRange,
            final(self).wf(),
    {
        match command {
            NormalCommand::Quit => self.should_quit = true,
            NormalCommand::MonthEvent { backwards } => self.move_month_event_selection(backwards),
            NormalCommand::Select(delta) => self.move_selection(delta),
            NormalCommand::Scroll(minutes) => self.scroll_timeline(minutes),
            NormalCommand::Prefix => self.pending_g = true,
            NormalCommand::ToggleSidebar => self.toggle_sidebar(),
            NormalCommand::PreviousCalendar => self.step_calendar(true),
            NormalCommand::NextCalendar => self.step_calendar(false),
            NormalCommand::Palette => self.open_prompt(Mode::Palette),
            NormalCommand::OnSelected(action) => self.selected_event_action(action),
            NormalCommand::Help => self.open_help(),
            NormalCommand::Details => self.open_details(),
            NormalCommand::Nothing => {},
            _ => return false,
        }
        true
    }

    /// Carries out a command of the calendar.
    pub fn run_normal(&mut self, command: NormalCommand) -> (r: Option<WorkerCommand>)
        requires
            old(self).wf(),
        ensures
            old(self).after_normal_command(command, *final(self), r),
            final(self).wf(),
    {
        if self.run_simple(command) {
            return None;
        }
        match command {
            NormalCommand::Days(days) => self.go_days(days),
            NormalCommand::Period { backwards } => self.go_period(backwards),
            NormalCommand::Today => self.execute_action(UserAction::Today),
            NormalCommand::Search => self.execute_action(UserAction::Search),
            NormalCommand::CreateEvent => self.execute_action(UserAction::CreateEvent),
            NormalCommand::QuickAdd => self.execute_action(UserAction::QuickAdd),
            NormalCommand::Undo => self.execute_action(UserAction::Undo),
            NormalCommand::Redo => self.execute_action(UserAction::Redo),
            NormalCommand::MoveDays(days) => self.move_selected_event(days, 0),
            NormalCommand::MoveStep { backwards } => {
                let minutes: i32 = self.step(backwards);
                self.move_selected_event(0, minutes)
            },
            NormalCommand::Resize { shorter } => {
                let minutes: i32 = self.step(shorter);
                self.resize_selected_event(minutes)
            },
            NormalCommand::Refresh => self.execute_action(UserAction::Refresh),
            NormalCommand::RetryVisibleRange => self.execute_action(UserAction::RetryVisibleRange),
            _ => None,
        }
    }

    /// The state after the second key of two: to today, to a view, or to the calendar manager. Any
    /// other key asks for what is shown.
    pub open spec fn after_second_key(self, key: KeyEvent, post: App, r: Option<WorkerCommand>) -> bool {
        let code = key.code;
        let ready = App { pending_g: false, ..self };
        if code == KeyCode::Char('g') {
            ready.after_action(UserAction::Today, post, r)
        } else if code == KeyCode::Char('d') {
            ready.after_action(UserAction::ChangeView(View::Day), post, r)
        } else if code == KeyCode::Char('w') {
            ready.after_action(UserAction::ChangeView(View::Week), post, r)
        } else if code == KeyCode::Char('m') {
            ready.after_action(UserAction::ChangeView(View::Month), post, r)
        } else if code == KeyCode::Char('a') {
            ready.after_action(UserAction::ChangeView(View::Agenda), post, r)
        } else if code == KeyCode::Char('c') {
            r is None && post == ready.manager_opened()
        } else {
            ready.range_asked(false, post, r)
        }
    }

    fn handle_second_key(&mut self, key: KeyEvent) -> (r: Option<WorkerCommand>)
        requires
            old(self).wf(),
        ensures
            old(self).after_second_key(key, *final(self), r),
            final(self).wf(),
    {
        self.pending_g = false;
        match key.code {
            KeyCode::Char('g') => self.execute_action(UserAction::Today),
            KeyCode::Char('d') => self.execute_action(UserAction::ChangeView(View::Day)),
            KeyCode::Char('w') => self.execute_action(UserAction::ChangeView(View::Week)),
            KeyCode::Char('m') => self.execute_action(UserAction::ChangeView(View::Month)),
            KeyCode::Char('a') => self.execute_action(UserAction::ChangeView(View::Agenda)),
            KeyCode::Char('c') => {
                self.open_calendar_manager();
                None
            },
            _ => self.ask_range(false),
        }
    }

    /// The state after a key in the calendar.
    pub open spec fn after_calendar_key(self, key: KeyEvent, post: App, r: Option<WorkerCommand>) -> bool {
        if self.pending_g {
            self.after_second_key(key, post, r)
        } else {
            self.after_normal_command(bound(self.view, key), post, r)
        }
    }

    /// Handles a key in the calendar.
    pub fn handle_normal(&mut self, key: KeyEvent) -> (r: Option<WorkerCommand>)
        requires
            old(self).wf(),
        ensures
            old(self).after_calendar_key(key, *final(self), r),
            final(self).wf(),
    {
        if self.pending_g {
            self.handle_second_key(key)
        } else {
            self.run_normal(normal_command(self.view, key))
        }
    }

    /// The state after a key in the help.
    pub open spec fn after_help_key(self, key: KeyEvent, post: App) -> bool {
        let code = key.code;
        if code == KeyCode::Esc || code == KeyCode::Char('q') || code == KeyCode::Char('?') {
            self.modal_left(post)
        } else {
            post == (App {
                help_scroll: if code == KeyCode::Home {
                    0
                } else if code == KeyCode::End {
                    u16::MAX
                } else {
                    match scroll_lines(code) {
                        Some(lines) => scrolled_by(self.help_scroll, lines as int),
                        None => self.help_scroll,
                    }
                },
                ..self
            })
        }
    }

    /// Handles a key in the help.
    pub fn handle_help(&mut self, key: KeyEvent)
        ensures
            old(self).after_help_key(key, *final(self)),
            old(self).wf() ==> final(self).wf(),
    {
        let code = key.code;
        if code == KeyCode::Esc || code == KeyCode::Char('q') || code == KeyCode::Char('?') {
            self.leave_modal();
            return;
        }
        let position: u16 = if code == KeyCode::Home {
            0
        } else if code == KeyCode::End {
            u16::MAX
        } else {
            match lines_of(code) {
                Some(lines) => scroll_by(self.help_scroll, lines),
                None => self.help_scroll,
            }
        };
        self.help_scroll = position;
    }

    /// The state after a key in the mode that the application is in.
    pub open spec fn after_mode_key(
        self,
        key: KeyEvent,
        parsed: QuickAddParseResult,
        post: App,
        r: Option<WorkerCommand>,
    ) -> bool {
        match self.mode {
            Mode::Normal => self.after_calendar_key(key, post, r),
            Mode::Calendars => self.after_calendars_key(key, post, r),
            Mode::CalendarManager => r is None && self.after_manager_key(key, post),
            Mode::CalendarManagerDetails => r is None && post == (App {
                mode: if key.code == KeyCode::Esc || key.code == KeyCode::Char('q') || key.code
                    == KeyCode::Enter {
                    Mode::CalendarManager
                } else {
                    self.mode
                },
                ..self
            }),
            Mode::CalendarCreate => self.after_create_key(key, post, r),
            Mode::CalendarRename => self.after_rename_key(key, post, r),
            Mode::CalendarColor => self.after_color_key(key, post, r),
            Mode::CalendarDeleteConfirm => self.after_confirm_key(key, post, r),
            Mode::QuickAdd => self.after_quick_key(key, parsed, post, r),
            Mode::Details => self.after_details_key(key, post, r),
            Mode::Search => self.after_search_key(key, post, r),
            Mode::Palette => self.after_palette_key(key, post, r),
            Mode::DateJump => self.after_date_key(key, post, r),
            Mode::Form => self.after_form_key(key, post, r),
            Mode::DiscardConfirm => self.after_discard_key(key, post, r),
            Mode::Delete => self.after_delete_key(key, post, r),
            Mode::RecurringEditScope => self.after_scope_key(key, post, r),
            Mode::RecurringDeleteScope => self.after_scope_key(key, post, r),
            Mode::Help => r is None && self.after_help_key(key, post),
        }
    }

    fn handle_mode_key(&mut self, key: KeyEvent, parsed: QuickAddParseResult) -> (r: Option<
        WorkerCommand,
    >)
        requires
            old(self).wf(),
        ensures
            old(self).after_mode_key(key, parsed, *final(self), r),
            final(self).wf(),
    {
        match self.mode {
            Mode::Normal => self.handle_normal(key),
            Mode::Calendars => self.handle_calendars(key),
            Mode::CalendarManager => {
                self.handle_calendar_manager(key);
                None
            },
            Mode::CalendarManagerDetails => {
                self.handle_calendar_manager_details(key);
                None
            },
            Mode::CalendarCreate => self.handle_calendar_create(key),
            Mode::CalendarRename => self.handle_calendar_rename(key),
            Mode::CalendarColor => self.handle_calendar_color(key),
            Mode::CalendarDeleteConfirm => self.handle_calendar_delete_confirm(key),
            Mode::QuickAdd => self.handle_quick_add(key, parsed),
            Mode::Details => self.handle_details(key),
            Mode::Search => self.handle_search(key),
            Mode::Palette => self.handle_palette(key),
            Mode::DateJump => self.handle_date_jump(key),
            Mode::Form => self.handle_form(key),
            Mode::DiscardConfirm => self.handle_discard_confirm(key),
            Mode::Delete => self.handle_delete(key),
            Mode::RecurringEditScope => self.handle_recurring_scope(key),
            Mode::RecurringDeleteScope => self.handle_recurring_scope(key),
            Mode::Help => {
                self.handle_help(key);
                None
            },
        }
    }

    /// The state after a key. A key that is released does nothing, Escape gives up a move that is
    /// being tried, and Control and `c` ends the application, whatever the mode.
    pub open spec fn after_key(
        self,
        key: KeyEvent,
        parsed: QuickAddParseResult,
        post: App,
        r: Option<WorkerCommand>,
    ) -> bool {
        if key.released {
            r is None && post == self
        } else if key.code == KeyCode::Esc && self.drag_session.event_id is Some {
            &&& r is None
            &&& post == (App { drag_session: post.drag_session, ..self })
            &&& post.drag_session.is_idle()
        } else if key.modifiers.control && key.code == KeyCode::Char('c') {
            r is None && post == (App { should_quit: true, ..self })
        } else {
            self.after_mode_key(key, parsed, post, r)
        }
    }

    /// Handles a key, where the text of quick add was read as `parsed`.
    pub fn handle_key_parsed(&mut self, key: KeyEvent, parsed: QuickAddParseResult) -> (r: Option<
        WorkerCommand,
    >)
        requires
            old(self).wf(),
        ensures
            old(self).after_key(key, parsed, *final(self), r),
            final(self).wf(),
    {
        if key.released {
            return None;
        }
        if key.code == KeyCode::Esc && self.drag_session.event_id.is_some() {
            self.drag_session.cancel();
            return None;
        }
        if key.modifiers.control && key.code == KeyCode::Char('c') {
            self.should_quit = true;
            return None;
        }
        self.handle_mode_key(key, parsed)
    }

    /// Handles a key where quick add is not open: what was read from its text does not matter.
    pub fn handle_key(&mut self, key: KeyEvent) -> (r: Option<WorkerCommand>)
        requires
            old(self).wf(),
            old(self).mode != Mode::QuickAdd,
        ensures
            forall|parsed: QuickAddParseResult| #[trigger]
                old(self).after_key(key, parsed, *final(self), r),
            final(self).wf(),
    {
        let parsed = QuickAddParseResult::nothing();
        self.handle_key_parsed(key, parsed)
    }
}

/// A key that is released does nothing, in any mode.
pub proof fn law_released_keys_do_nothing(
    app: App,
    key: KeyEvent,
    parsed: QuickAddParseResult,
    post: App,
    r: Option<WorkerCommand>,
)
    requires
        key.released,
        app.after_key(key, parsed, post, r),
    ensures
        r is None,
        post == app,
{
}

/// Moving through dates, whatever the view, selects nothing and asks for what is shown.
pub proof fn law_date_keys_ask_for_the_range(
    app: App,
    days: i32,
    post: App,
    r: Option<WorkerCommand>,
)
    requires
        app.after_normal_command(NormalCommand::Days(days), post, r),
    ensures
        post.active_date == app.active_date.clamped_shift(days as int),
        post.view == app.view,
        post.selected_event == usize::MAX,
        r matches Some(WorkerCommand::EnsureRange(request)) && post.is_range_request(request),
{
}

} // verus!
