//! The palette of commands.

use super::actions::EventAction;
use super::{App, UserAction, View, WorkerCommand};
use crate::alarm::{AlarmEditorState, AlarmEditorView};
use crate::model::{index_view, Event};
use crate::text::{ascii_lower, contains, occurs_in, to_ascii_lower};
use crate::seqs::lemma_filter_all;
use vstd::prelude::*;
use vstd::view::View as _;

verus! {

#[derive(Clone, Copy, Debug, PartialEq, Eq, Structural)]
pub enum PaletteCommand {
    Today,
    GoToDate,
    NewEvent,
    QuickAdd,
    EditEvent,
    DuplicateEvent,
    DeleteEvent,
    Undo,
    Redo,
    Search,
    Refresh,
    RetryVisibleRange,
    ToggleSidebar,
    Day,
    Week,
    Month,
    Agenda,
}

/// The commands, in order.
pub open spec fn all_commands() -> Seq<PaletteCommand> {
    seq![
        PaletteCommand::Today,
        PaletteCommand::GoToDate,
        PaletteCommand::NewEvent,
        PaletteCommand::QuickAdd,
        PaletteCommand::EditEvent,
        PaletteCommand::DuplicateEvent,
        PaletteCommand::DeleteEvent,
        PaletteCommand::Undo,
        PaletteCommand::Redo,
        PaletteCommand::Search,
        PaletteCommand::Refresh,
        PaletteCommand::RetryVisibleRange,
        PaletteCommand::ToggleSidebar,
        PaletteCommand::Day,
        PaletteCommand::Week,
        PaletteCommand::Month,
        PaletteCommand::Agenda,
    ]
}

impl PaletteCommand {
    /// The commands, in order.
    pub fn all() -> (r: Vec<PaletteCommand>)
        ensures
            r@ == all_commands(),
    {
        let commands = vec![
            PaletteCommand::Today,
            PaletteCommand::GoToDate,
            PaletteCommand::NewEvent,
            PaletteCommand::QuickAdd,
            PaletteCommand::EditEvent,
            PaletteCommand::DuplicateEvent,
            PaletteCommand::DeleteEvent,
            PaletteCommand::Undo,
            PaletteCommand::Redo,
            PaletteCommand::Search,
            PaletteCommand::Refresh,
            PaletteCommand::RetryVisibleRange,
            PaletteCommand::ToggleSidebar,
            PaletteCommand::Day,
            PaletteCommand::Week,
            PaletteCommand::Month,
            PaletteCommand::Agenda,
        ];
        proof {
            assert(commands@ =~= all_commands());
        }
        commands
    }

    /// The name of the command.
    pub open spec fn text(self) -> Seq<char> {
        match self {
            PaletteCommand::Today => "Go to today"@,
            PaletteCommand::GoToDate => "Go to date"@,
            PaletteCommand::NewEvent => "New event"@,
            PaletteCommand::QuickAdd => "Quick Add Event"@,
            PaletteCommand::EditEvent => "Edit selected event"@,
            PaletteCommand::DuplicateEvent => "Duplicate selected event"@,
            PaletteCommand::DeleteEvent => "Delete selected event"@,
            PaletteCommand::Undo => "Undo"@,
            PaletteCommand::Redo => "Redo"@,
            PaletteCommand::Search => "Search events"@,
            PaletteCommand::Refresh => "Refresh calendars"@,
            PaletteCommand::RetryVisibleRange => "Retry visible range"@,
            PaletteCommand::ToggleSidebar => "Toggle calendar sidebar"@,
            PaletteCommand::Day => "Day view"@,
            PaletteCommand::Week => "Week view"@,
            PaletteCommand::Month => "Month view"@,
            PaletteCommand::Agenda => "Agenda view"@,
        }
    }

    /// The name of the command.
    pub fn label(self) -> (r: &'static str)
        ensures
            r@ == self.text(),
    {
        match self {
            PaletteCommand::Today => "Go to today",
            PaletteCommand::GoToDate => "Go to date",
            PaletteCommand::NewEvent => "New event",
            PaletteCommand::QuickAdd => "Quick Add Event",
            PaletteCommand::EditEvent => "Edit selected event",
            PaletteCommand::DuplicateEvent => "Duplicate selected event",
            PaletteCommand::DeleteEvent => "Delete selected event",
            PaletteCommand::Undo => "Undo",
            PaletteCommand::Redo => "Redo",
            PaletteCommand::Search => "Search events",
            PaletteCommand::Refresh => "Refresh calendars",
            PaletteCommand::RetryVisibleRange => "Retry visible range",
            PaletteCommand::ToggleSidebar => "Toggle calendar sidebar",
            PaletteCommand::Day => "Day view",
            PaletteCommand::Week => "Week view",
            PaletteCommand::Month => "Month view",
            PaletteCommand::Agenda => "Agenda view",
        }
    }

    /// The keys that do the same, where there are any.
    pub open spec fn keys(self) -> Seq<char> {
        match self {
            PaletteCommand::Today => "gg / t"@,
            PaletteCommand::GoToDate => ""@,
            PaletteCommand::NewEvent => "n"@,
            PaletteCommand::QuickAdd => "a"@,
            PaletteCommand::EditEvent => "e"@,
            PaletteCommand::DuplicateEvent => "D"@,
            PaletteCommand::DeleteEvent => "d"@,
            PaletteCommand::Undo => "u"@,
            PaletteCommand::Redo => "Ctrl-R"@,
            PaletteCommand::Search => "/"@,
            PaletteCommand::Refresh => "r"@,
            PaletteCommand::RetryVisibleRange => "R"@,
            PaletteCommand::ToggleSidebar => "c"@,
            PaletteCommand::Day => "gd"@,
            PaletteCommand::Week => "gw"@,
            PaletteCommand::Month => "gm"@,
            PaletteCommand::Agenda => "ga"@,
        }
    }

    /// The keys that do the same, where there are any. The palette and the help both show them.
    pub fn key_hint(self) -> (r: &'static str)
        ensures
            r@ == self.keys(),
    {
        match self {
            PaletteCommand::Today => "gg / t",
            PaletteCommand::GoToDate => "",
            PaletteCommand::NewEvent => "n",
            PaletteCommand::QuickAdd => "a",
            PaletteCommand::EditEvent => "e",
            PaletteCommand::DuplicateEvent => "D",
            PaletteCommand::DeleteEvent => "d",
            PaletteCommand::Undo => "u",
            PaletteCommand::Redo => "Ctrl-R",
            PaletteCommand::Search => "/",
            PaletteCommand::Refresh => "r",
            PaletteCommand::RetryVisibleRange => "R",
            PaletteCommand::ToggleSidebar => "c",
            PaletteCommand::Day => "gd",
            PaletteCommand::Week => "gw",
            PaletteCommand::Month => "gm",
            PaletteCommand::Agenda => "ga",
        }
    }

    /// Other words by which the command is found.
    pub open spec fn other_words(self) -> Seq<char> {
        match self {
            PaletteCommand::Today => "today"@,
            PaletteCommand::GoToDate => "jump date"@,
            PaletteCommand::NewEvent => "create event"@,
            PaletteCommand::QuickAdd => "add event"@,
            PaletteCommand::EditEvent => "edit"@,
            PaletteCommand::DuplicateEvent => "duplicate copy"@,
            PaletteCommand::DeleteEvent => "delete remove"@,
            PaletteCommand::Undo => "undo revert"@,
            PaletteCommand::Redo => "redo repeat"@,
            PaletteCommand::Search => "find search"@,
            PaletteCommand::Refresh => "reload refresh"@,
            PaletteCommand::RetryVisibleRange => "retry range"@,
            PaletteCommand::ToggleSidebar => "calendar sidebar"@,
            PaletteCommand::Day => "view day"@,
            PaletteCommand::Week => "view week"@,
            PaletteCommand::Month => "view month"@,
            PaletteCommand::Agenda => "view agenda"@,
        }
    }

    fn keywords(self) -> (r: &'static str)
        ensures
            r@ == self.other_words(),
    {
        match self {
            PaletteCommand::Today => "today",
            PaletteCommand::GoToDate => "jump date",
            PaletteCommand::NewEvent => "create event",
            PaletteCommand::QuickAdd => "add event",
            PaletteCommand::EditEvent => "edit",
            PaletteCommand::DuplicateEvent => "duplicate copy",
            PaletteCommand::DeleteEvent => "delete remove",
            PaletteCommand::Undo => "undo revert",
            PaletteCommand::Redo => "redo repeat",
            PaletteCommand::Search => "find search",
            PaletteCommand::Refresh => "reload refresh",
            PaletteCommand::RetryVisibleRange => "retry range",
            PaletteCommand::ToggleSidebar => "calendar sidebar",
            PaletteCommand::Day => "view day",
            PaletteCommand::Week => "view week",
            PaletteCommand::Month => "view month",
            PaletteCommand::Agenda => "view agenda",
        }
    }

    /// Whether a query in lower case finds the command.
    pub open spec fn is_found(self, query: Seq<char>) -> bool {
        occurs_in(ascii_lower(self.text()), query) || occurs_in(self.other_words(), query)
    }

    /// Whether a query in lower case finds the command.
    pub fn matches_query(self, query: &str) -> (r: bool)
        ensures
            r == self.is_found(query@),
    {
        contains(to_ascii_lower(self.label()).as_str(), query) || contains(self.keywords(), query)
    }
}

/// A command as the palette shows it.
#[derive(Clone, Copy, Debug, PartialEq, Eq)]
pub struct PaletteEntry {
    pub command: PaletteCommand,
    pub enabled: bool,
    pub reason: Option<&'static str>,
}

impl PaletteEntry {
    /// Why the command cannot be used.
    pub fn unavailable_reason(self) -> (r: &'static str)
        ensures
            r@ == (match self.reason {
                Some(reason) => reason@,
                None => "This command is unavailable"@,
            }),
    {
        match self.reason {
            Some(reason) => reason,
            None => "This command is unavailable",
        }
    }
}

/// Whether an entry shows a command that cannot be used for a reason, or can be used.
pub open spec fn is_entry(
    entry: PaletteEntry,
    command: PaletteCommand,
    fault: Option<Seq<char>>,
) -> bool {
    &&& entry.command == command
    &&& entry.enabled == (fault is None)
    &&& match fault {
        Some(reason) => entry.reason matches Some(shown) && shown@ == reason,
        None => entry.reason is None,
    }
}

/// Whether a query finds a command.
pub open spec fn finds(query: Seq<char>) -> spec_fn(PaletteCommand) -> bool {
    |command: PaletteCommand| query.len() == 0 || command.is_found(query)
}

impl App {
    /// Whether there is a calendar that can be written to.
    pub open spec fn has_writable(self) -> bool {
        exists|i: int|
            0 <= i < self.snapshot.calendars@.len() && (#[trigger] self.snapshot.calendars@[i]).is_writable
    }

    /// Why the selected event cannot be changed.
    pub open spec fn selection_fault(self, selected: Option<int>) -> Option<Seq<char>> {
        match selected {
            None => Some("Select an event first"@),
            Some(i) => if self.writable(self.snapshot.events@[i].calendar_id@) {
                None
            } else {
                Some("This calendar is read-only"@)
            },
        }
    }

    /// Why a command cannot be used, where `selected` is the selected event.
    pub open spec fn command_fault(self, command: PaletteCommand, selected: Option<int>) -> Option<
        Seq<char>,
    > {
        match command {
            PaletteCommand::NewEvent => if self.has_writable() {
                None
            } else {
                Some("No writable calendars are available"@)
            },
            PaletteCommand::QuickAdd => if self.has_writable() {
                None
            } else {
                Some("No writable calendars are available"@)
            },
            PaletteCommand::EditEvent => self.selection_fault(selected),
            PaletteCommand::DeleteEvent => self.selection_fault(selected),
            PaletteCommand::DuplicateEvent => match self.selection_fault(selected) {
                Some(reason) => Some(reason),
                None => if selected matches Some(i) && AlarmEditorView::of_existing(
                    self.snapshot.events@[i].alarms@,
                ) is ProtectedExisting {
                    Some("This event has custom/protected alarms and cannot be duplicated"@)
                } else {
                    None
                },
            },
            PaletteCommand::Undo => self.history_fault(true),
            PaletteCommand::Redo => self.history_fault(false),
            _ => None,
        }
    }

    fn any_writable(&self) -> (r: bool)
        ensures
            r == self.has_writable(),
    {
        let mut i: usize = 0;
        while i < self.snapshot.calendars.len()
            invariant
                i <= self.snapshot.calendars@.len(),
                forall|j: int|
                    0 <= j < i ==> !(#[trigger] self.snapshot.calendars@[j]).is_writable,
            decreases self.snapshot.calendars@.len() - i,
        {
            if self.snapshot.calendars[i].is_writable {
                return true;
            }
            i += 1;
        }
        false
    }

    fn selection_unavailable_reason(&self, selected: Option<usize>) -> (r: Option<&'static str>)
        requires
            selected matches Some(i) ==> i < self.snapshot.events@.len(),
        ensures
            match r {
                Some(reason) => self.selection_fault(index_view(selected)) == Some(reason@),
                None => self.selection_fault(index_view(selected)) is None,
            },
    {
        match selected {
            None => Some("Select an event first"),
            Some(i) => if self.calendar_is_writable(
                self.snapshot.events[i].calendar_id.as_str(),
            ) {
                None
            } else {
                Some("This calendar is read-only")
            },
        }
    }

    /// Why a command cannot be used, where `selected` is the selected event.
    pub fn palette_command_fault(&self, command: PaletteCommand, selected: Option<usize>) -> (r:
        Option<&'static str>)
        requires
            selected matches Some(i) ==> i < self.snapshot.events@.len(),
        ensures
            match r {
                Some(reason) => self.command_fault(command, index_view(selected)) == Some(reason@),
                None => self.command_fault(command, index_view(selected)) is None,
            },
    {
        match command {
            PaletteCommand::NewEvent | PaletteCommand::QuickAdd => if self.any_writable() {
                None
            } else {
                Some("No writable calendars are available")
            },
            PaletteCommand::EditEvent | PaletteCommand::DeleteEvent =>
                self.selection_unavailable_reason(selected),
            PaletteCommand::DuplicateEvent => {
                match self.selection_unavailable_reason(selected) {
                    Some(reason) => return Some(reason),
                    None => {},
                }
                match selected {
                    Some(i) => if AlarmEditorState::from_existing(
                        &self.snapshot.events[i].alarms,
                    ).is_protected() {
                        Some("This event has custom/protected alarms and cannot be duplicated")
                    } else {
                        None
                    },
                    None => None,
                }
            },
            PaletteCommand::Undo => self.history_available_reason(true),
            PaletteCommand::Redo => self.history_available_reason(false),
            _ => None,
        }
    }

    /// The commands that the palette's text finds.
    pub open spec fn found_commands(self) -> Seq<PaletteCommand> {
        all_commands().filter(finds(ascii_lower(self.palette_query@)))
    }

    /// Whether entries are those of the palette, where `selected` is the selected event.
    pub open spec fn are_entries(self, selected: Option<int>, entries: Seq<PaletteEntry>) -> bool {
        &&& entries.len() == self.found_commands().len()
        &&& forall|i: int|
            0 <= i < entries.len() ==> is_entry(
                #[trigger] entries[i],
                self.found_commands()[i],
                self.command_fault(self.found_commands()[i], selected),
            )
    }

    /// The entries of the palette, where `selected` is the selected event.
    pub fn palette_entries_for(&self, selected: Option<usize>) -> (r: Vec<PaletteEntry>)
        requires
            selected matches Some(i) ==> i < self.snapshot.events@.len(),
        ensures
            self.are_entries(index_view(selected), r@),
    {
        let query = to_ascii_lower(self.palette_query.as_str());
        let all = PaletteCommand::all();
        let ghost keep = finds(query@);
        let mut entries: Vec<PaletteEntry> = Vec::new();
        let mut i: usize = 0;
        proof {
            assert(all@.take(0).filter(keep) =~= Seq::<PaletteCommand>::empty());
        }
        while i < all.len()
            invariant
                i <= all@.len(),
                keep == finds(query@),
                selected matches Some(i) ==> i < self.snapshot.events@.len(),
                entries@.len() == all@.take(i as int).filter(keep).len(),
                forall|j: int|
                    0 <= j < entries@.len() ==> is_entry(
                        #[trigger] entries@[j],
                        all@.take(i as int).filter(keep)[j],
                        self.command_fault(
                            all@.take(i as int).filter(keep)[j],
                            index_view(selected),
                        ),
                    ),
            decreases all@.len() - i,
        {
            let command = all[i];
            proof {
                assert(all@.take(i + 1) =~= all@.take(i as int).push(command));
                all@.take(i as int).lemma_filter_push(command, keep);
            }
            if query.as_str().is_empty() || command.matches_query(query.as_str()) {
                let reason = self.palette_command_fault(command, selected);
                let enabled = reason.is_none();
                entries.push(PaletteEntry { command, enabled, reason });
            }
            i += 1;
        }
        proof {
            assert(all@.take(i as int) =~= all@);
        }
        entries
    }

    /// The entries of the palette.
    pub fn palette_entries(&self) -> (r: Vec<PaletteEntry>)
        ensures
            exists|selected: Option<int>| #[trigger]
                self.may_select(selected) && self.are_entries(selected, r@),
    {
        let selected = self.selected_event_index();
        proof {
            assert(self.may_select(index_view(selected)));
        }
        self.palette_entries_for(selected)
    }

    /// The state after a command of the palette.
    pub open spec fn after_palette_command(
        self,
        command: PaletteCommand,
        post: App,
        r: Option<WorkerCommand>,
    ) -> bool {
        match command {
            PaletteCommand::Today => self.after_action(UserAction::Today, post, r),
            PaletteCommand::GoToDate => self.after_action(UserAction::OpenDateJump, post, r),
            PaletteCommand::NewEvent => self.after_action(UserAction::CreateEvent, post, r),
            PaletteCommand::QuickAdd => self.after_action(UserAction::QuickAdd, post, r),
            PaletteCommand::EditEvent => r is None && self.after_selected_action(
                EventAction::Edit,
                post,
            ),
            PaletteCommand::DuplicateEvent => r is None && self.after_selected_action(
                EventAction::Duplicate,
                post,
            ),
            PaletteCommand::DeleteEvent => r is None && self.after_selected_action(
                EventAction::Delete,
                post,
            ),
            PaletteCommand::Undo => self.after_action(UserAction::Undo, post, r),
            PaletteCommand::Redo => self.after_action(UserAction::Redo, post, r),
            PaletteCommand::Search => self.after_action(UserAction::Search, post, r),
            PaletteCommand::Refresh => self.after_action(UserAction::Refresh, post, r),
            PaletteCommand::RetryVisibleRange => self.after_action(
                UserAction::RetryVisibleRange,
                post,
                r,
            ),
            PaletteCommand::ToggleSidebar => self.after_action(UserAction::ToggleSidebar, post, r),
            PaletteCommand::Day => self.after_action(UserAction::ChangeView(View::Day), post, r),
            PaletteCommand::Week => self.after_action(UserAction::ChangeView(View::Week), post, r),
            PaletteCommand::Month => self.after_action(
                UserAction::ChangeView(View::Month),
                post,
                r,
            ),
            PaletteCommand::Agenda => self.after_action(
                UserAction::ChangeView(View::Agenda),
                post,
                r,
            ),
        }
    }

    /// Carries out a command of the palette.
    pub fn execute_palette(&mut self, command: PaletteCommand) -> (r: Option<WorkerCommand>)
        requires
            old(self).wf(),
        ensures
            old(self).after_palette_command(command, *final(self), r),
            final(self).wf(),
    {
        let action = match command {
            PaletteCommand::EditEvent => {
                self.selected_event_action(EventAction::Edit);
                return None;
            },
            PaletteCommand::DuplicateEvent => {
                self.selected_event_action(EventAction::Duplicate);
                return None;
            },
            PaletteCommand::DeleteEvent => {
                self.selected_event_action(EventAction::Delete);
                return None;
            },
            PaletteCommand::Today => UserAction::Today,
            PaletteCommand::GoToDate => UserAction::OpenDateJump,
            PaletteCommand::NewEvent => UserAction::CreateEvent,
            PaletteCommand::QuickAdd => UserAction::QuickAdd,
            PaletteCommand::Undo => UserAction::Undo,
            PaletteCommand::Redo => UserAction::Redo,
            PaletteCommand::Search => UserAction::Search,
            PaletteCommand::Refresh => UserAction::Refresh,
            PaletteCommand::RetryVisibleRange => UserAction::RetryVisibleRange,
            PaletteCommand::ToggleSidebar => UserAction::ToggleSidebar,
            PaletteCommand::Day => UserAction::ChangeView(View::Day),
            PaletteCommand::Week => UserAction::ChangeView(View::Week),
            PaletteCommand::Month => UserAction::ChangeView(View::Month),
            PaletteCommand::Agenda => UserAction::ChangeView(View::Agenda),
        };
        self.execute_action(action)
    }
}

/// An empty text in the palette shows all commands.
pub proof fn law_empty_palette_shows_all(app: App)
    requires
        app.palette_query@.len() == 0,
    ensures
        app.found_commands() == all_commands(),
{
    let keep = finds(ascii_lower(app.palette_query@));
    let all = all_commands();
    lemma_filter_all(all, keep);
}

} // verus!
