//! The event form, and the questions that are asked before something is lost or changed.

use super::editing::scope_of;
use super::overlays::{frames_entered, frames_left, frames_replaced, return_mode};
use super::{
    command_view, message, says, App, Mode, MutationState, RecurrenceMutationAction, WorkerCommand,
    WorkerCommandView,
};
use crate::event_form::{draft_result_view, may_start_on, EventForm, EventFormView};
use crate::input::{KeyCode, KeyEvent};
use crate::model::{
    index_view, Alarm, AlarmMutation, EventDraft, EventDraftView, EventSpan, EventTimeMutation,
    RecurrenceMutationScope,
};
use crate::text::result_view;
use crate::time::{may_be_today, Date};
use vstd::prelude::*;
use vstd::view::View as _;

verus! {

/// The command that saves a draft: an update where the event is known to the provider, else a new
/// event.
pub open spec fn save_command(
    draft: EventDraftView,
    span: EventSpan,
    scope: Option<RecurrenceMutationScope>,
    alarms: Option<Seq<Alarm>>,
    change: EventTimeMutation,
) -> WorkerCommandView {
    if draft.id is Some {
        WorkerCommandView::Update(draft, span, scope, alarms, change)
    } else {
        WorkerCommandView::Create(draft)
    }
}

impl App {
    /// The state with the overlay closed.
    pub open spec fn modal_left(self, post: App) -> bool {
        &&& post == (App {
            mode: return_mode(self.modal_stack@),
            modal_stack: post.modal_stack,
            ..self
        })
        &&& post.modal_stack@ == frames_left(self.modal_stack@)
    }

    /// The state with an overlay opened.
    pub open spec fn modal_entered(self, mode: Mode, post: App) -> bool {
        &&& post == (App { mode, modal_stack: post.modal_stack, ..self })
        &&& post.modal_stack@ == frames_entered(self.modal_stack@, self.mode, mode)
    }

    /// The state after a form is saved, where it makes `drafted`: what is wrong with the form is
    /// said, or the draft goes to the worker.
    pub open spec fn form_saved(
        self,
        form: EventForm,
        drafted: Result<(EventDraftView, EventSpan, Option<Seq<Alarm>>), Seq<char>>,
        post: App,
        r: Option<WorkerCommand>,
    ) -> bool {
        match (drafted, form@.changed_time()) {
            (Err(text), _) => r is None && self.told(text, true, post),
            (Ok(_), Err(text)) => r is None && self.told(text, true, post),
            (Ok(made), Ok(change)) => {
                &&& post == (App { mutation_state: MutationState::Saving, ..self })
                &&& command_view(r) == Some(
                    save_command(made.0, made.1, form.recurrence_scope, made.2, change),
                )
            },
        }
    }

    /// The state after the form is saved. While a change is being saved nothing happens, and
    /// without a form the overlay is closed.
    pub open spec fn after_save(self, post: App, r: Option<WorkerCommand>) -> bool {
        if self.mutation_state == MutationState::Saving {
            r is None && post == self
        } else {
            match self.form {
                None => r is None && self.modal_left(post),
                Some(form) => exists|
                    drafted: Result<(EventDraftView, EventSpan, Option<Seq<Alarm>>), Seq<char>>,
                | #[trigger]
                    form.may_draft(self.snapshot.calendars@, drafted) && self.form_saved(
                        form,
                        drafted,
                        post,
                        r,
                    ),
            }
        }
    }

    /// Turns a draft and what it changes into the command that saves them, or says what is wrong.
    pub fn save_drafted(
        &mut self,
        drafted: Result<(EventDraft, EventSpan, AlarmMutation), String>,
        change: Result<EventTimeMutation, String>,
        scope: Option<RecurrenceMutationScope>,
    ) -> (r: Option<WorkerCommand>)
        ensures
            match (draft_result_view(drafted), result_view(change)) {
                (Err(text), _) => r is None && old(self).told(text, true, *final(self)),
                (Ok(_), Err(text)) => r is None && old(self).told(text, true, *final(self)),
                (Ok(made), Ok(change)) => {
                    &&& *final(self) == (App {
                        mutation_state: MutationState::Saving,
                        ..*old(self)
                    })
                    &&& command_view(r) == Some(
                        save_command(made.0, made.1, scope, made.2, change),
                    )
                },
            },
            old(self).wf() ==> final(self).wf(),
    {
        let (draft, span, alarms) = match drafted {
            Ok(made) => made,
            Err(text) => {
                self.tell(text.as_str(), true);
                return None;
            },
        };
        let change = match change {
            Ok(change) => change,
            Err(text) => {
                self.tell(text.as_str(), true);
                return None;
            },
        };
        self.mutation_state = MutationState::Saving;
        if draft.id.is_some() {
            Some(WorkerCommand::Update(draft, span, scope, alarms, change))
        } else {
            Some(WorkerCommand::Create(draft))
        }
    }

    /// Saves the form.
    pub fn save_form(&mut self) -> (r: Option<WorkerCommand>)
        ensures
            old(self).after_save(*final(self), r),
            old(self).wf() ==> final(self).wf(),
    {
        if self.mutation_state == MutationState::Saving {
            return None;
        }
        let (drafted, change, scope) = match &self.form {
            None => {
                self.leave_modal();
                return None;
            },
            Some(form) => {
                let drafted = form.to_draft(&self.snapshot.calendars);
                proof {
                    assert(form.may_draft(self.snapshot.calendars@, draft_result_view(drafted)));
                }
                (drafted, form.time_mutation(), form.recurrence_scope)
            },
        };
        self.save_drafted(drafted, change, scope)
    }

    /// The state after a key in the list of alarms of a form.
    pub open spec fn after_alarm_key(self, form: EventForm, key: KeyEvent, post: App) -> bool {
        let (view, outcome) = form@.after_alarm_key(key);
        &&& post == (App {
            form: post.form,
            form_dirty: self.form_dirty || outcome == Some(Ok::<bool, Seq<char>>(true)),
            status: post.status,
            ..self
        })
        &&& post.form matches Some(new) && new@ == view && new.wf()
        &&& match outcome {
            Some(Err(text)) => says(post.status, text, true),
            _ => post.status == self.status,
        }
    }

    /// Handles a key in the list of alarms of the form; the result says whether the key was for it.
    fn alarm_key(&mut self, key: KeyEvent) -> (r: bool)
        requires
            old(self).form is Some,
            old(self).wf(),
        ensures
            r == (old(self).form->0@.after_alarm_key(key).1 is Some),
            r ==> old(self).after_alarm_key(old(self).form->0, key, *final(self)),
            !r ==> *final(self) == *old(self),
            final(self).wf(),
    {
        let outcome = match &mut self.form {
            Some(form) => form.handle_alarm_key(key),
            None => None,
        };
        match outcome {
            None => false,
            Some(Ok(changed)) => {
                self.form_dirty = self.form_dirty || changed;
                true
            },
            Some(Err(text)) => {
                self.status = message(text, true);
                true
            },
        }
    }

    /// The state after a key for the lines of a form.
    pub open spec fn after_line_key(self, form: EventForm, key: KeyEvent, post: App) -> bool {
        exists|today: Date, event_start: Date|
            may_be_today(today) && may_start_on(form@.start, event_start) && self.line_key_taken(
                #[trigger] form@.after_key(key, self.snapshot.calendars@, today, event_start),
                post,
            )
    }

    /// The state with the form as given, and changed or not.
    pub open spec fn line_key_taken(self, after: (EventFormView, bool), post: App) -> bool {
        &&& post == (App { form: post.form, form_dirty: self.form_dirty || after.1, ..self })
        &&& post.form matches Some(new) && new@ == after.0 && new.wf()
    }

    fn line_key(&mut self, key: KeyEvent)
        requires
            old(self).form is Some,
            old(self).wf(),
        ensures
            old(self).after_line_key(old(self).form->0, key, *final(self)),
            final(self).wf(),
    {
        let changed = match &mut self.form {
            Some(form) => form.handle_key(key, &self.snapshot.calendars),
            None => false,
        };
        self.form_dirty = self.form_dirty || changed;
    }

    /// The state after a key in the event form. The form is saved with Control and `s`. Escape
    /// leaves it, and asks first where something was changed.
    pub open spec fn after_form_key(self, key: KeyEvent, post: App, r: Option<WorkerCommand>) -> bool {
        if key.modifiers.control && key.code == KeyCode::Char('s') {
            self.after_save(post, r)
        } else {
            &&& r is None
            &&& match self.form {
                None => self.modal_left(post),
                Some(form) => if form@.lacks_reminders() {
                    self.told("Reminders are unavailable for all-day events"@, true, post)
                } else if form@.after_alarm_key(key).1 is Some {
                    self.after_alarm_key(form, key, post)
                } else if key.code == KeyCode::Esc {
                    if self.form_dirty {
                        self.modal_entered(Mode::DiscardConfirm, post)
                    } else {
                        self.editor_cancelled(post)
                    }
                } else {
                    self.after_line_key(form, key, post)
                },
            }
        }
    }

    /// Handles a key in the event form.
    pub fn handle_form(&mut self, key: KeyEvent) -> (r: Option<WorkerCommand>)
        requires
            old(self).wf(),
        ensures
            old(self).after_form_key(key, *final(self), r),
            final(self).wf(),
    {
        if key.modifiers.control && key.code == KeyCode::Char('s') {
            return self.save_form();
        }
        let unavailable = match &self.form {
            None => {
                self.leave_modal();
                return None;
            },
            Some(form) => form.reminders_unavailable(),
        };
        if unavailable {
            self.tell("Reminders are unavailable for all-day events", true);
            return None;
        }
        if self.alarm_key(key) {
            return None;
        }
        if key.code == KeyCode::Esc {
            if self.form_dirty {
                self.enter_modal(Mode::DiscardConfirm);
            } else {
                self.finish_editor_cancel();
            }
            return None;
        }
        self.line_key(key);
        None
    }

    /// The state without what an editor held.
    pub open spec fn editor_dropped(self) -> App {
        App {
            form: None,
            form_dirty: false,
            mutation_state: MutationState::Idle,
            pending_recurring_mutation: None,
            ..self
        }
    }

    /// The state after a key where it is asked whether to save a changed form: yes saves it, no
    /// leaves the editor, and Escape goes back to it.
    pub open spec fn after_discard_key(self, key: KeyEvent, post: App, r: Option<WorkerCommand>) -> bool {
        if key.code == KeyCode::Char('y') || key.code == KeyCode::Char('Y') {
            exists|mid: App| #[trigger] self.modal_left(mid) && mid.after_save(post, r)
        } else {
            &&& r is None
            &&& if key.code == KeyCode::Char('n') || key.code == KeyCode::Char('N') {
                exists|mid: App| #[trigger]
                    self.editor_dropped().modal_left(mid) && mid.editor_cancelled(post)
            } else if key.code == KeyCode::Esc {
                self.modal_left(post)
            } else {
                post == self
            }
        }
    }

    /// Handles a key where it is asked whether to save a changed form.
    pub fn handle_discard_confirm(&mut self, key: KeyEvent) -> (r: Option<WorkerCommand>)
        requires
            old(self).wf(),
        ensures
            old(self).after_discard_key(key, *final(self), r),
            final(self).wf(),
    {
        if key.code == KeyCode::Char('y') || key.code == KeyCode::Char('Y') {
            self.leave_modal();
            let ghost mid = *self;
            proof {
                assert(old(self).modal_left(mid));
            }
            return self.save_form();
        }
        if key.code == KeyCode::Char('n') || key.code == KeyCode::Char('N') {
            self.form = None;
            self.form_dirty = false;
            self.mutation_state = MutationState::Idle;
            self.pending_recurring_mutation = None;
            self.leave_modal();
            let ghost mid = *self;
            proof {
                assert(old(self).editor_dropped().modal_left(mid));
            }
            self.finish_editor_cancel();
            return None;
        }
        if key.code == KeyCode::Esc {
            self.leave_modal();
        }
        None
    }

    /// The state after an overlay over an event is left: back to details that wait under it, else
    /// where the event was chosen.
    pub open spec fn overlay_left(self, post: App) -> bool {
        exists|mid: App| #[trigger]
            self.modal_left(mid) && if mid.mode == Mode::Details {
                post == mid
            } else {
                mid.interaction_returned(post)
            }
    }

    fn leave_overlay(&mut self)
        ensures
            old(self).overlay_left(*final(self)),
            old(self).wf() ==> final(self).wf(),
    {
        self.leave_modal();
        let ghost mid = *self;
        proof {
            assert(old(self).modal_left(mid));
        }
        if self.mode != Mode::Details {
            self.finish_interaction_return();
        }
    }

    /// The state after a deletion is confirmed: the event that was chosen is deleted while it is
    /// shown, whatever is selected now.
    pub open spec fn deletion_confirmed(self, post: App, r: Option<WorkerCommand>) -> bool {
        let closed = App {
            pending_delete_event_id: None,
            pending_recurring_mutation: None,
            mode: Mode::Normal,
            modal_stack: post.modal_stack,
            ..self
        };
        &&& post.modal_stack@.len() == 0
        &&& match self.pending_delete_event_id {
            None => r is None && closed.told("Event no longer exists"@, true, post),
            Some(id) => exists|index: Option<int>| #[trigger]
                self.may_act_on(id@, index) && match index {
                    None => r is None && closed.told("Event no longer exists"@, true, post),
                    Some(_) => post == closed && r == Some(
                        WorkerCommand::Delete(id, self.delete_span, self.delete_recurrence_scope),
                    ),
                },
        }
    }

    fn confirm_deletion(&mut self) -> (r: Option<WorkerCommand>)
        ensures
            old(self).deletion_confirmed(*final(self), r),
            old(self).wf() ==> final(self).wf(),
    {
        let shown = match &self.pending_delete_event_id {
            Some(id) => {
                let index = self.visible_event_index(id.as_str());
                proof {
                    assert(self.may_act_on(id@, index_view(index)));
                }
                index.is_some()
            },
            None => false,
        };
        let id = self.pending_delete_event_id.take();
        self.pending_recurring_mutation = None;
        self.modal_stack.clear();
        self.mode = Mode::Normal;
        match id {
            Some(id) => {
                if shown {
                    return Some(
                        WorkerCommand::Delete(id, self.delete_span, self.delete_recurrence_scope),
                    );
                }
            },
            None => {},
        }
        self.tell("Event no longer exists", true);
        None
    }

    /// The state after a key where a deletion is to be confirmed.
    pub open spec fn after_delete_key(self, key: KeyEvent, post: App, r: Option<WorkerCommand>) -> bool {
        let code = key.code;
        if code == KeyCode::Esc || code == KeyCode::Char('q') || code == KeyCode::Char('n') || code
            == KeyCode::Char('N') {
            &&& r is None
            &&& (App {
                pending_recurring_mutation: None,
                pending_delete_event_id: None,
                ..self
            }).overlay_left(post)
        } else if code == KeyCode::Enter || code == KeyCode::Char('y') {
            self.deletion_confirmed(post, r)
        } else {
            r is None && post == self
        }
    }

    /// Handles a key where a deletion is to be confirmed.
    pub fn handle_delete(&mut self, key: KeyEvent) -> (r: Option<WorkerCommand>)
        requires
            old(self).wf(),
        ensures
            old(self).after_delete_key(key, *final(self), r),
            final(self).wf(),
    {
        let code = key.code;
        if code == KeyCode::Esc || code == KeyCode::Char('q') || code == KeyCode::Char('n') || code
            == KeyCode::Char('N') {
            self.pending_recurring_mutation = None;
            self.pending_delete_event_id = None;
            self.leave_overlay();
            return None;
        }
        if code == KeyCode::Enter || code == KeyCode::Char('y') {
            return self.confirm_deletion();
        }
        None
    }

    /// The state with the overlay turned into another.
    pub open spec fn modal_replaced(self, mode: Mode, post: App) -> bool {
        &&& post == (App { mode, modal_stack: post.modal_stack, ..self })
        &&& post.modal_stack@ == frames_replaced(self.modal_stack@, mode)
    }

    /// The state after a scope is chosen for a change of the event at an index.
    pub open spec fn scope_taken(
        self,
        index: int,
        action: RecurrenceMutationAction,
        span: EventSpan,
        post: App,
        r: Option<WorkerCommand>,
    ) -> bool {
        let event = self.snapshot.events@[index];
        match action {
            RecurrenceMutationAction::Edit => {
                &&& r is None
                &&& (App { form: post.form, form_dirty: false, ..self }).modal_replaced(
                    Mode::Form,
                    post,
                )
                &&& post.form matches Some(form) && form.wf() && form.edits_in_scope(
                    event,
                    self.snapshot.calendars@,
                    span,
                    scope_of(span),
                )
            },
            RecurrenceMutationAction::Delete => {
                &&& r is None
                &&& (App {
                    delete_span: span,
                    delete_recurrence_scope: Some(scope_of(span)),
                    pending_delete_event_id: Some(event.id),
                    ..self
                }).modal_replaced(Mode::Delete, post)
            },
            RecurrenceMutationAction::Move(target) => exists|mid: App| #[trigger]
                self.modal_left(mid) && mid.after_move(
                    event,
                    target,
                    Some(scope_of(span)),
                    post,
                    r,
                ),
        }
    }

    fn take_scope(
        &mut self,
        index: usize,
        action: RecurrenceMutationAction,
        span: EventSpan,
    ) -> (r: Option<WorkerCommand>)
        requires
            index < old(self).snapshot.events@.len(),
            old(self).wf(),
        ensures
            old(self).scope_taken(index as int, action, span, *final(self), r),
            final(self).wf(),
    {
        let scope = match span {
            EventSpan::ThisEvent => RecurrenceMutationScope::ThisEvent,
            EventSpan::FutureEvents => RecurrenceMutationScope::FutureEvents,
        };
        match action {
            RecurrenceMutationAction::Edit => {
                let mut form = EventForm::from_event(
                    &self.snapshot.events[index],
                    &self.snapshot.calendars,
                );
                form.span = span;
                form.recurrence_scope = Some(scope);
                self.form = Some(form);
                self.form_dirty = false;
                self.replace_modal(Mode::Form);
                None
            },
            RecurrenceMutationAction::Delete => {
                self.delete_span = span;
                self.delete_recurrence_scope = Some(scope);
                self.pending_delete_event_id = Some(self.snapshot.events[index].id.clone());
                self.replace_modal(Mode::Delete);
                None
            },
            RecurrenceMutationAction::Move(target) => {
                self.leave_modal();
                let ghost mid = *self;
                proof {
                    assert(old(self).modal_left(mid));
                }
                self.begin_move_event(index, target, Some(scope))
            },
        }
    }

    /// The state after a scope is chosen for the change that waits for it.
    pub open spec fn scope_chosen(
        self,
        span: EventSpan,
        post: App,
        r: Option<WorkerCommand>,
    ) -> bool {
        let taken = App { pending_recurring_mutation: None, ..self };
        match self.pending_recurring_mutation {
            None => r is None && self.modal_left(post),
            Some(pending) => exists|index: Option<int>| #[trigger]
                self.may_act_on(pending.0@, index) && match index {
                    None => {
                        &&& r is None
                        &&& (App { status: post.status, ..taken }).modal_left(post)
                        &&& says(post.status, "Event no longer exists"@, true)
                    },
                    Some(i) => taken.scope_taken(i, pending.1, span, post, r),
                },
        }
    }

    fn choose_scope(&mut self, span: EventSpan) -> (r: Option<WorkerCommand>)
        requires
            old(self).wf(),
        ensures
            old(self).scope_chosen(span, *final(self), r),
            final(self).wf(),
    {
        let index = match &self.pending_recurring_mutation {
            None => {
                self.leave_modal();
                return None;
            },
            Some(pending) => {
                let index = self.visible_event_index(pending.0.as_str());
                proof {
                    assert(self.may_act_on(pending.0@, index_view(index)));
                }
                index
            },
        };
        let pending = self.pending_recurring_mutation.take();
        match (index, pending) {
            (Some(i), Some((_, action))) => self.take_scope(i, action, span),
            _ => {
                self.status = message("Event no longer exists".to_owned(), true);
                self.leave_modal();
                None
            },
        }
    }

    /// The state after a key where the scope of a change of a recurring event is to be chosen.
    pub open spec fn after_scope_key(self, key: KeyEvent, post: App, r: Option<WorkerCommand>) -> bool {
        if key.code == KeyCode::Esc || key.code == KeyCode::Char('q') {
            r is None && (App { pending_recurring_mutation: None, ..self }).overlay_left(post)
        } else if key.code == KeyCode::Char('1') {
            self.scope_chosen(EventSpan::ThisEvent, post, r)
        } else if key.code == KeyCode::Char('2') {
            self.scope_chosen(EventSpan::FutureEvents, post, r)
        } else {
            r is None && post == self
        }
    }

    /// Handles a key where the scope of a change of a recurring event is to be chosen.
    pub fn handle_recurring_scope(&mut self, key: KeyEvent) -> (r: Option<WorkerCommand>)
        requires
            old(self).wf(),
        ensures
            old(self).after_scope_key(key, *final(self), r),
            final(self).wf(),
    {
        if key.code == KeyCode::Esc || key.code == KeyCode::Char('q') {
            self.pending_recurring_mutation = None;
            self.leave_overlay();
            return None;
        }
        if key.code == KeyCode::Char('1') {
            return self.choose_scope(EventSpan::ThisEvent);
        }
        if key.code == KeyCode::Char('2') {
            return self.choose_scope(EventSpan::FutureEvents);
        }
        None
    }
}

/// A deletion that is confirmed is of the event that was chosen, whatever is selected then.
pub proof fn law_confirmed_deletion_is_of_the_chosen_event(
    app: App,
    post: App,
    command: WorkerCommand,
)
    requires
        app.deletion_confirmed(post, Some(command)),
    ensures
        app.pending_delete_event_id is Some,
        command == WorkerCommand::Delete(
            app.pending_delete_event_id->0,
            app.delete_span,
            app.delete_recurrence_scope,
        ),
        post.pending_delete_event_id is None,
{
}

/// While a change is being saved, the form is not saved again.
pub proof fn law_saving_happens_once(app: App, post: App, r: Option<WorkerCommand>)
    requires
        app.mutation_state == MutationState::Saving,
        app.after_save(post, r),
    ensures
        r is None,
        post == app,
{
}

} // verus!
