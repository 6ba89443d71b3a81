//! What the user wants, carried out.

use super::{
    message, says, App, Mode, MutationState, SelectionContext, UserAction, View, WorkerCommand,
};
use crate::model::{index_view, Event, RangeRequest};
use crate::text::{concat3, is_blank, trimmed};
use crate::time::{format_day, formatted_day, local_today, may_be_today, Date};
use vstd::prelude::*;
use vstd::string::StringExecFns;
use vstd::view::View as _;

verus! {

/// What is done with an event that is chosen by its identity.
#[derive(Clone, Copy, Debug, PartialEq, Eq, Structural)]
pub enum EventAction {
    Edit,
    Duplicate,
    Delete,
}

/// What is said while a month is loaded.
pub open spec fn loading_text(date: Date) -> Seq<char> {
    "Loading "@ + formatted_day(date.clamped().day, "%B %Y"@) + "…"@
}

/// The bytes of a text as they stand in a link: letters, digits and `-_.~` as they are, any other
/// byte as a percent sign and two digits.
pub open spec fn encoded_bytes(bytes: Seq<u8>) -> Seq<char>
    decreases bytes.len(),
{
    if bytes.len() == 0 {
        Seq::empty()
    } else {
        encoded_bytes(bytes.drop_last()) + encoded_byte(bytes.last())
    }
}

/// Whether a byte stands as it is in a link.
pub open spec fn is_plain(byte: u8) -> bool {
    65 <= byte <= 90 || 97 <= byte <= 122 || 48 <= byte <= 57 || byte == 45 || byte == 95 || byte
        == 46 || byte == 126
}

/// A hexadecimal digit in upper case.
pub open spec fn hex_digit(n: int) -> char {
    if n < 10 {
        (48 + n) as char
    } else {
        (55 + n) as char
    }
}

/// A byte as it stands in a link.
pub open spec fn encoded_byte(byte: u8) -> Seq<char> {
    if is_plain(byte) {
        seq![byte as char]
    } else {
        seq!['%', hex_digit(byte as int / 16), hex_digit(byte as int % 16)]
    }
}

fn push_hex(out: &mut String, n: u8)
    requires
        n < 16,
    ensures
        final(out)@ == old(out)@.push(hex_digit(n as int)),
{
    if n < 10 {
        out.push((48 + n) as char);
    } else {
        out.push((55 + n) as char);
    }
}

/// A text as it stands in a link.
pub fn encode_url_component(value: &str) -> (r: String)
    ensures
        r@ == encoded_bytes(vstd::utf8::encode_utf8(value@)),
{
    let bytes = value.as_bytes();
    let mut out = String::new();
    let mut i: usize = 0;
    proof {
        assert(bytes@.take(0) =~= Seq::<u8>::empty());
        assert(out@ =~= Seq::<char>::empty());
    }
    while i < bytes.len()
        invariant
            i <= bytes@.len(),
            bytes@ == vstd::utf8::encode_utf8(value@),
            out@ == encoded_bytes(bytes@.take(i as int)),
        decreases bytes@.len() - i,
    {
        let byte: u8 = bytes[i];
        let ghost before = out@;
        proof {
            assert(bytes@.take(i + 1).drop_last() =~= bytes@.take(i as int));
            assert(bytes@.take(i + 1).last() == byte);
        }
        if (65 <= byte && byte <= 90) || (97 <= byte && byte <= 122) || (48 <= byte && byte <= 57)
            || byte == 45 || byte == 95 || byte == 46 || byte == 126 {
            out.push(byte as char);
            proof {
                assert(out@ =~= before + encoded_byte(byte));
            }
        } else {
            out.push('%');
            push_hex(&mut out, byte / 16);
            push_hex(&mut out, byte % 16);
            proof {
                assert(out@ =~= before + encoded_byte(byte));
            }
        }
        i += 1;
    }
    proof {
        assert(bytes@.take(i as int) =~= bytes@);
    }
    out
}

impl App {
    /// The state after what is shown is asked for; the worker loads it where it is missing, or in
    /// any case.
    pub open spec fn range_asked(self, anew: bool, post: App, r: Option<WorkerCommand>) -> bool {
        &&& post == (App {
            visible_range_request_id: post.visible_range_request_id,
            visible_range: post.visible_range,
            visible_range_state: post.visible_range_state,
            ..self
        })
        &&& exists|request: RangeRequest| #[trigger]
            post.is_loading(self.visible_range_request_id, request) && r == Some(
                if anew {
                    WorkerCommand::RefreshRange(request)
                } else {
                    WorkerCommand::EnsureRange(request)
                },
            )
    }

    /// Asks for what is shown.
    pub fn ask_range(&mut self, anew: bool) -> (r: Option<WorkerCommand>)
        ensures
            old(self).range_asked(anew, *final(self), r),
            old(self).wf() ==> final(self).wf(),
    {
        let request = self.visible_range_request();
        proof {
            assert(self.is_loading(old(self).visible_range_request_id, request));
        }
        if anew {
            Some(WorkerCommand::RefreshRange(request))
        } else {
            Some(WorkerCommand::EnsureRange(request))
        }
    }

    /// The state after something is done with an event.
    pub open spec fn after_event_action(self, action: EventAction, event: Event, post: App) -> bool {
        match action {
            EventAction::Edit => self.after_edit(event, post),
            EventAction::Duplicate => self.after_duplicate(event, post),
            EventAction::Delete => self.after_delete(event, post),
        }
    }

    /// The state after something is done with the event with an identity; where it is not shown the
    /// user is told.
    pub open spec fn after_action_on(self, action: EventAction, id: Seq<char>, post: App) -> bool {
        exists|index: Option<int>| #[trigger]
            self.may_act_on(id, index) && match index {
                None => self.told("Event no longer exists"@, true, post),
                Some(i) => self.after_event_action(action, self.snapshot.events@[i], post),
            }
    }

    /// Does something with the event with an identity.
    pub fn act_on(&mut self, action: EventAction, id: &str)
        ensures
            old(self).after_action_on(action, id@, *final(self)),
            old(self).wf() ==> final(self).wf(),
    {
        let index = self.visible_event_index(id);
        proof {
            assert(old(self).may_act_on(id@, index_view(index)));
        }
        match index {
            None => self.tell("Event no longer exists", true),
            Some(i) => match action {
                EventAction::Edit => self.begin_edit_event(i),
                EventAction::Duplicate => self.begin_duplicate_event(i),
                EventAction::Delete => self.begin_delete_event(i),
            },
        }
    }

    /// The state after something is done with the selected event.
    pub open spec fn after_selected_action(self, action: EventAction, post: App) -> bool {
        exists|selected: Option<int>| #[trigger]
            self.may_select(selected) && match selected {
                None => self.told("Select an event first"@, true, post),
                Some(i) => self.after_action_on(action, self.snapshot.events@[i].id@, post),
            }
    }

    /// Does something with the selected event.
    pub fn selected_event_action(&mut self, action: EventAction)
        ensures
            old(self).after_selected_action(action, *final(self)),
            old(self).wf() ==> final(self).wf(),
    {
        let selected = self.selected_event_index();
        proof {
            assert(old(self).may_select(index_view(selected)));
        }
        match selected {
            None => self.tell("Select an event first", true),
            Some(i) => {
                let id = self.snapshot.events[i].id.clone();
                self.act_on(action, id.as_str());
            },
        }
    }

    /// The state after something is done with the event that details are shown of.
    pub open spec fn after_details_action(self, action: EventAction, post: App) -> bool {
        match self.interaction_context {
            None => self.told("Event no longer exists"@, true, post),
            Some(context) => exists|index: Option<int>| #[trigger]
                self.may_act_on(context.occurrence_id@, index) && match index {
                    None => self.told("Event no longer exists"@, true, post),
                    Some(i) => self.after_action_on(
                        action,
                        self.snapshot.events@[i].id@,
                        post,
                    ),
                },
        }
    }

    /// Does something with the event that details are shown of.
    pub fn details_event_action(&mut self, action: EventAction)
        ensures
            old(self).after_details_action(action, *final(self)),
            old(self).wf() ==> final(self).wf(),
    {
        let index = match &self.interaction_context {
            None => None,
            Some(context) => {
                let index = self.visible_event_index(context.occurrence_id.as_str());
                proof {
                    assert(self.may_act_on(context.occurrence_id@, index_view(index)));
                }
                index
            },
        };
        match index {
            None => self.tell("Event no longer exists", true),
            Some(i) => {
                let id = self.snapshot.events[i].id.clone();
                self.act_on(action, id.as_str());
            },
        }
    }

    /// The state after the link of an event is opened: its own, or a map of its place.
    pub open spec fn link_opened(self, event: Event, post: App, r: Option<WorkerCommand>) -> bool {
        if trimmed(event.url@).len() > 0 {
            post == self && r == Some(WorkerCommand::OpenUrl(event.url))
        } else if trimmed(event.location@).len() > 0 {
            &&& post == self
            &&& r matches Some(WorkerCommand::OpenUrl(url)) && url@
                == "https://maps.apple.com/?q="@ + encoded_bytes(
                vstd::utf8::encode_utf8(event.location@),
            )
        } else {
            &&& r is None
            &&& self.told("This event has no URL or location to open"@, true, post)
        }
    }

    /// The state after the link of the event that details are shown of is opened.
    pub open spec fn after_open_link(self, post: App, r: Option<WorkerCommand>) -> bool {
        match self.interaction_context {
            None => r is None && post == self,
            Some(context) => exists|index: Option<int>| #[trigger]
                self.may_act_on(context.occurrence_id@, index) && match index {
                    None => r is None && post == self,
                    Some(i) => self.link_opened(self.snapshot.events@[i], post, r),
                },
        }
    }

    fn open_link_of(&mut self, index: usize) -> (r: Option<WorkerCommand>)
        requires
            index < old(self).snapshot.events@.len(),
        ensures
            old(self).link_opened(old(self).snapshot.events@[index as int], *final(self), r),
            old(self).wf() ==> final(self).wf(),
    {
        if !is_blank(self.snapshot.events[index].url.as_str()) {
            return Some(WorkerCommand::OpenUrl(self.snapshot.events[index].url.clone()));
        }
        if !is_blank(self.snapshot.events[index].location.as_str()) {
            let mut url = "https://maps.apple.com/?q=".to_owned();
            url.append(
                encode_url_component(self.snapshot.events[index].location.as_str()).as_str(),
            );
            return Some(WorkerCommand::OpenUrl(url));
        }
        self.tell("This event has no URL or location to open", true);
        None
    }

    /// Opens the link of the event that details are shown of.
    pub fn open_detail_link(&mut self) -> (r: Option<WorkerCommand>)
        ensures
            old(self).after_open_link(*final(self), r),
            old(self).wf() ==> final(self).wf(),
    {
        let index = match &self.interaction_context {
            None => return None,
            Some(context) => {
                let index = self.visible_event_index(context.occurrence_id.as_str());
                proof {
                    assert(self.may_act_on(context.occurrence_id@, index_view(index)));
                }
                index
            },
        };
        match index {
            None => None,
            Some(i) => self.open_link_of(i),
        }
    }

    /// The state with quick add open.
    pub open spec fn quick_add_opened(self, post: App) -> bool {
        &&& (App {
            quick_add_input: post.quick_add_input,
            mutation_state: MutationState::Idle,
            ..self
        }).modal_entered(Mode::QuickAdd, post)
        &&& post.quick_add_input@.len() == 0
    }

    /// Opens quick add.
    pub fn begin_quick_add(&mut self)
        ensures
            old(self).quick_add_opened(*final(self)),
            old(self).wf() ==> final(self).wf(),
    {
        self.quick_add_input = String::new();
        self.mutation_state = MutationState::Idle;
        self.enter_modal(Mode::QuickAdd);
    }

    /// The state with the search open.
    pub open spec fn search_opened(self, post: App) -> bool {
        &&& (App { search_query: post.search_query, search_selected: 0, ..self }).modal_entered(
            Mode::Search,
            post,
        )
        &&& post.search_query@.len() == 0
    }

    /// Opens the search.
    pub fn open_search(&mut self)
        ensures
            old(self).search_opened(*final(self)),
            old(self).wf() ==> final(self).wf(),
    {
        self.search_query = String::new();
        self.search_selected = 0;
        self.enter_modal(Mode::Search);
    }

    /// The state with the palette, or the jump to a date, open; it shares the palette's text.
    pub open spec fn prompt_opened(self, mode: Mode, post: App) -> bool {
        &&& (App {
            palette_query: post.palette_query,
            palette_selected: if mode == Mode::Palette {
                0
            } else {
                self.palette_selected
            },
            ..self
        }).modal_entered(mode, post)
        &&& post.palette_query@.len() == 0
    }

    /// Opens the palette, or the jump to a date.
    pub fn open_prompt(&mut self, mode: Mode)
        ensures
            old(self).prompt_opened(mode, *final(self)),
            old(self).wf() ==> final(self).wf(),
    {
        self.palette_query = String::new();
        self.palette_selected = if mode == Mode::Palette {
            0
        } else {
            self.palette_selected
        };
        self.enter_modal(mode);
    }

    /// The state on a date with all overlays closed, and what is shown there asked for.
    pub open spec fn after_jump(self, date: Date, status: super::Status, post: App, r: Option<
        WorkerCommand,
    >) -> bool {
        &&& (App {
            mode: Mode::Normal,
            modal_stack: post.modal_stack,
            status,
            ..self.on_date(date)
        }).range_asked(false, post, r)
        &&& post.modal_stack@.len() == 0
    }

    /// Goes to a date.
    pub fn go_to_date(&mut self, date: Date) -> (r: Option<WorkerCommand>)
        ensures
            old(self).after_jump(date, final(self).status, *final(self), r),
            says(final(self).status, loading_text(date), false),
            old(self).wf() ==> final(self).wf(),
    {
        let text = concat3("Loading ", format_day(date.nearest().day, "%B %Y").as_str(), "…");
        self.go_to(date);
        self.close_all_modals();
        self.status = message(text, false);
        self.ask_range(false)
    }

    /// Goes to the current date.
    pub fn go_to_today(&mut self) -> (r: Option<WorkerCommand>)
        ensures
            exists|today: Date|
                may_be_today(today) && #[trigger] old(self).after_jump(
                    today,
                    old(self).status,
                    *final(self),
                    r,
                ),
            old(self).wf() ==> final(self).wf(),
    {
        let today = local_today();
        self.go_to(today);
        self.close_all_modals();
        let r = self.ask_range(false);
        proof {
            assert(old(self).after_jump(today, old(self).status, *self, r));
        }
        r
    }

    /// The state in another view, with the selected event selected while it is shown, all overlays
    /// closed, and what is shown asked for.
    pub open spec fn after_change_view(self, view: View, post: App, r: Option<WorkerCommand>) -> bool {
        exists|context: SelectionContext, mid: App|
            self.is_selection_context(context) && #[trigger] (App {
                view,
                ..self
            }).selection_restored(context, mid) && (App {
                mode: Mode::Normal,
                modal_stack: post.modal_stack,
                ..mid
            }).range_asked(false, post, r) && post.modal_stack@.len() == 0
    }

    /// Changes the view.
    pub fn change_view(&mut self, view: View) -> (r: Option<WorkerCommand>)
        ensures
            old(self).after_change_view(view, *final(self), r),
            old(self).wf() ==> final(self).wf(),
    {
        let context = self.selection_context();
        let ghost before = *self;
        self.view = view;
        let ghost turned = *self;
        let kept = SelectionContext {
            active_date: context.active_date,
            selected_event_id: context.selected_event_id.clone(),
            selected_event_date: context.selected_event_date,
        };
        self.restore_selection_context(context);
        let ghost mid = *self;
        self.close_all_modals();
        let r = self.ask_range(false);
        proof {
            assert(kept == context);
            assert(before.is_selection_context(kept));
            assert(turned == (App { view, ..before }));
            assert((App { view, ..before }).selection_restored(kept, mid));
        }
        r
    }

    /// The state with the sidebar shown or hidden, in the mode that goes with it.
    pub open spec fn sidebar_toggled(self) -> App {
        App {
            sidebar_visible: !self.sidebar_visible,
            mode: if self.sidebar_visible {
                Mode::Normal
            } else {
                Mode::Calendars
            },
            ..self
        }
    }

    /// Shows or hides the sidebar.
    pub fn toggle_sidebar(&mut self)
        ensures
            *final(self) == old(self).sidebar_toggled(),
    {
        self.mode = if self.sidebar_visible {
            Mode::Normal
        } else {
            Mode::Calendars
        };
        self.sidebar_visible = !self.sidebar_visible;
    }

    /// The state with all overlays closed.
    pub open spec fn all_closed(self, post: App) -> bool {
        &&& post == (App { mode: Mode::Normal, modal_stack: post.modal_stack, ..self })
        &&& post.modal_stack@.len() == 0
    }

    /// The state after what the user wants.
    pub open spec fn after_action(self, action: UserAction, post: App, r: Option<WorkerCommand>) -> bool {
        match action {
            UserAction::CreateEvent => r is None && self.after_new(post),
            UserAction::QuickAdd => r is None && self.quick_add_opened(post),
            UserAction::EditEvent(id) => r is None && self.after_action_on(
                EventAction::Edit,
                id@,
                post,
            ),
            UserAction::DuplicateEvent(id) => r is None && self.after_action_on(
                EventAction::Duplicate,
                id@,
                post,
            ),
            UserAction::DeleteEvent(id) => r is None && self.after_action_on(
                EventAction::Delete,
                id@,
                post,
            ),
            UserAction::MoveEvent { event_id, target } => self.after_move_of(
                event_id@,
                target,
                post,
                r,
            ),
            UserAction::Search => r is None && self.search_opened(post),
            UserAction::OpenDateJump => r is None && self.prompt_opened(Mode::DateJump, post),
            UserAction::GoToDate(date) => {
                &&& self.after_jump(date, post.status, post, r)
                &&& says(post.status, loading_text(date), false)
            },
            UserAction::Today => exists|today: Date|
                may_be_today(today) && #[trigger] self.after_jump(today, self.status, post, r),
            UserAction::ChangeView(view) => self.after_change_view(view, post, r),
            UserAction::Refresh => self.all_closed(post) && r == Some(WorkerCommand::Refresh),
            UserAction::RetryVisibleRange => {
                &&& (App {
                    mode: Mode::Normal,
                    modal_stack: post.modal_stack,
                    ..self
                }).range_asked(true, post, r)
                &&& post.modal_stack@.len() == 0
            },
            UserAction::ToggleSidebar => {
                &&& r is None
                &&& exists|mid: App| #[trigger]
                    self.modal_left(mid) && post == mid.sidebar_toggled()
            },
            UserAction::Undo => self.after_history(true, post, r),
            UserAction::Redo => self.after_history(false, post, r),
        }
    }

    /// Does what the user wants. This is the one way in which work on an event begins.
    pub fn execute_action(&mut self, action: UserAction) -> (r: Option<WorkerCommand>)
        requires
            old(self).wf(),
        ensures
            old(self).after_action(action, *final(self), r),
            final(self).wf(),
    {
        match action {
            UserAction::CreateEvent => {
                self.begin_new_form();
                None
            },
            UserAction::QuickAdd => {
                self.begin_quick_add();
                None
            },
            UserAction::EditEvent(id) => {
                self.act_on(EventAction::Edit, id.as_str());
                None
            },
            UserAction::DuplicateEvent(id) => {
                self.act_on(EventAction::Duplicate, id.as_str());
                None
            },
            UserAction::DeleteEvent(id) => {
                self.act_on(EventAction::Delete, id.as_str());
                None
            },
            UserAction::MoveEvent { event_id, target } => self.move_event(
                event_id.as_str(),
                target,
            ),
            UserAction::Search => {
                self.open_search();
                None
            },
            UserAction::OpenDateJump => {
                self.open_prompt(Mode::DateJump);
                None
            },
            UserAction::GoToDate(date) => self.go_to_date(date),
            UserAction::Today => self.go_to_today(),
            UserAction::ChangeView(view) => self.change_view(view),
            UserAction::Refresh => {
                self.close_all_modals();
                Some(WorkerCommand::Refresh)
            },
            UserAction::RetryVisibleRange => {
                self.close_all_modals();
                self.ask_range(true)
            },
            UserAction::ToggleSidebar => {
                self.leave_modal();
                let ghost mid = *self;
                proof {
                    assert(old(self).modal_left(mid));
                }
                self.toggle_sidebar();
                None
            },
            UserAction::Undo => self.execute_history(true),
            UserAction::Redo => self.execute_history(false),
        }
    }
}

} // verus!
