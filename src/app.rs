use vstd::prelude::*;

use crate::clock::now_millis;
use crate::export::{markdown, notes_markdown};
use crate::types::{ActiveNote, CompletedNote, Todo, MAX_TIME};

verus! {

/// Longest text of a task slot, in characters.
pub const MAX_TODO_LEN: usize = 50;

/// What keys currently drive: the task list, the text of one slot, or a
/// confirmation dialog.
#[derive(Debug, Clone, PartialEq, Eq, Structural)]
pub enum InputMode {
    Normal,
    Editing(usize),
    Modal,
}

/// The confirmation dialogs.
#[derive(Debug, Clone, PartialEq, Eq, Structural)]
pub enum ModalKind {
    CompleteSession,
    ClearNotes,
    NewSession,
    Help,
}

/// The session controller: one active session, the archive of completed
/// ones, and the state of the interface around them.
pub struct App {
    pub active_note: ActiveNote,
    pub completed_notes: Vec<CompletedNote>,
    pub input_mode: InputMode,
    pub selected_todo: usize,
    pub history_index: Option<usize>,
    pub modal: Option<ModalKind>,
    pub should_quit: bool,
    pub status_message: Option<String>,
    pub sound_pending: bool,
    pub show_history: bool,
}

/// The deadline of a countdown of `secs` seconds started at `now`
/// (milliseconds), held at the largest instant that an `i64` can hold.
pub open spec fn deadline_after(now: int, secs: int) -> int {
    if now + secs * 1000 > i64::MAX {
        i64::MAX as int
    } else {
        now + secs * 1000
    }
}

/// Whole seconds from `now` to `target` (milliseconds), rounded up.
pub open spec fn seconds_until(target: int, now: int) -> int {
    (target - now + 999) / 1000
}

/// The selection after a move down: one slot further, stopping at the last.
pub open spec fn slot_below(s: usize) -> usize {
    if s < 3 { (s + 1) as usize } else { 3 }
}

/// The selection after a move up: one slot back, stopping at the first.
pub open spec fn slot_above(s: usize) -> usize {
    if s > 0 { (s - 1) as usize } else { 0 }
}

/// A slot's text after `c` is typed into it: the text takes no more than
/// `MAX_TODO_LEN` characters.
pub open spec fn typed(text: Seq<char>, c: char) -> Seq<char> {
    if text.len() < MAX_TODO_LEN { text.push(c) } else { text }
}

/// Archive entries are numbered 1, 2, 3, ... in order.
pub open spec fn numbered(notes: Seq<CompletedNote>) -> bool {
    forall|i: int| 0 <= i < notes.len() ==> (#[trigger] notes[i]).completion_number == i + 1
}

/// The history cursor after a step forward through `n` entries.
pub open spec fn next_index(cursor: Option<usize>, n: nat) -> Option<usize> {
    if n == 0 {
        cursor
    } else {
        match cursor {
            None => Some(0usize),
            Some(i) => if i + 1 < n { Some((i + 1) as usize) } else { cursor },
        }
    }
}

/// The history cursor after a step back through `n` entries.
pub open spec fn prev_index(cursor: Option<usize>, n: nat) -> Option<usize> {
    if n == 0 {
        cursor
    } else {
        match cursor {
            None => Some((n - 1) as usize),
            Some(i) => if i > 0 { Some((i - 1) as usize) } else { cursor },
        }
    }
}

impl App {
    /// The controller's invariant.
    pub open spec fn inv(&self) -> bool {
        &&& self.active_note.inv()
        &&& self.selected_todo < 4
        &&& (self.history_index matches Some(i) ==> i < self.completed_notes@.len())
        &&& (self.input_mode matches InputMode::Editing(i) ==> i < 4)
        &&& numbered(self.completed_notes@)
    }

    /// The state the controller starts in.
    pub open spec fn is_initial(&self) -> bool {
        &&& self.active_note.is_fresh()
        &&& self.completed_notes@.len() == 0
        &&& self.input_mode == InputMode::Normal
        &&& self.selected_todo == 0
        &&& self.history_index.is_none()
        &&& self.modal.is_none()
        &&& !self.should_quit
        &&& self.status_message.is_none()
        &&& !self.sound_pending
        &&& self.show_history
    }

    /// `new` agrees with `self` on everything but the slots of the active
    /// session, and on every slot but slot `i`.
    pub open spec fn same_but_slot(&self, new: &App, i: int) -> bool {
        &&& *new == (App {
            active_note: ActiveNote { todos: new.active_note.todos, ..self.active_note },
            ..*self
        })
        &&& forall|j: int|
            0 <= j < 4 && j != i ==> #[trigger] new.active_note.todos[j]
                == self.active_note.todos[j]
    }

    /// The controller after the timer is started or paused at instant `now`.
    pub open spec fn toggled(self, now: int) -> App {
        if self.active_note.is_running {
            App {
                active_note: ActiveNote { is_running: false, target_time: None, ..self.active_note },
                ..self
            }
        } else if self.active_note.time_left == 0 {
            self
        } else {
            App {
                active_note: ActiveNote {
                    is_running: true,
                    target_time: Some(deadline_after(now, self.active_note.time_left as int) as i64),
                    ..self.active_note
                },
                ..self
            }
        }
    }

    /// The controller after a poll of the timer at instant `now`.
    pub open spec fn ticked(self, now: int) -> App {
        if !self.active_note.is_running {
            self
        } else {
            match self.active_note.target_time {
                None => self,
                Some(t) => {
                    let r = seconds_until(t as int, now);
                    if r > 0 {
                        App {
                            active_note: ActiveNote {
                                time_left: if r > MAX_TIME { MAX_TIME } else { r as u64 },
                                ..self.active_note
                            },
                            ..self
                        }
                    } else {
                        App {
                            active_note: ActiveNote {
                                time_left: 0,
                                is_running: false,
                                target_time: None,
                                ..self.active_note
                            },
                            sound_pending: true,
                            ..self
                        }
                    }
                },
            }
        }
    }

    /// What archiving turns the session and history of `self` into, in `new`.
    pub open spec fn archived_into(&self, new: &App) -> bool {
        let n = self.completed_notes@.len();
        let note = new.completed_notes@[n as int];
        &&& new.completed_notes@.len() == n + 1
        &&& new.completed_notes@.subrange(0, n as int) == self.completed_notes@
        &&& note.todos@ == self.active_note.todos@
        &&& note.time_spent == MAX_TIME - self.active_note.time_left
        &&& note.completion_number == n + 1
        &&& new.history_index == Some(n as usize)
        &&& new.active_note.is_fresh()
        &&& new.selected_todo == 0
    }

    /// Whether the controller's invariant holds.
    pub fn is_valid(&self) -> (r: bool)
        ensures
            r == self.inv(),
    {
        let n = self.completed_notes.len();
        let history_ok = match self.history_index {
            Some(i) => i < n,
            None => true,
        };
        let editing_ok = match self.input_mode {
            InputMode::Editing(i) => i < 4,
            _ => true,
        };
        let mut numbers_ok = true;
        let mut k: usize = 0;
        while k < n
            invariant
                n == self.completed_notes@.len(),
                k <= n,
                numbers_ok == forall|j: int|
                    0 <= j < k ==> (#[trigger] self.completed_notes@[j]).completion_number == j + 1,
            decreases n - k,
        {
            if self.completed_notes[k].completion_number != k as u64 + 1 {
                numbers_ok = false;
            }
            k = k + 1;
        }
        self.active_note.time_left <= MAX_TIME
            && self.active_note.is_running == self.active_note.target_time.is_some()
            && self.selected_todo < 4 && history_ok && editing_ok && numbers_ok
    }

    pub fn new() -> (r: App)
        ensures
            r.is_initial(),
            r.inv(),
    {
        App::default()
    }

    // Timer

    /// Starts or pauses the countdown at the current instant.
    pub fn toggle_timer(&mut self)
        ensures
            exists|now: int| i64::MIN <= now <= i64::MAX && *final(self) == old(self).toggled(now),
            old(self).active_note.time_left == 0 && !old(self).active_note.is_running ==> !final(self).active_note.is_running,
            old(self).active_note.is_running ==> !final(self).active_note.is_running
                && final(self).active_note.target_time.is_none(),
            !old(self).active_note.is_running && old(self).active_note.time_left > 0
                ==> final(self).active_note.is_running,
    {
        if self.active_note.is_running || self.active_note.time_left == 0 {
            // Pausing, or refusing to start, does not depend on the instant.
            self.toggle_timer_at(0);
        } else {
            let now = now_millis();
            self.toggle_timer_at(now);
        }
    }

    /// Starts or pauses the countdown, taking `now` (milliseconds since the
    /// Unix epoch) as the current instant. A countdown at zero is not started.
    pub fn toggle_timer_at(&mut self, now: i64)
        ensures
            *final(self) == old(self).toggled(now as int),
            old(self).active_note.time_left == 0 && !old(self).active_note.is_running ==> !final(self).active_note.is_running,
    {
        if self.active_note.is_running {
            self.active_note.is_running = false;
            self.active_note.target_time = None;
        } else {
            if self.active_note.time_left == 0 {
                return;
            }
            let target: i128 = now as i128 + (self.active_note.time_left as i128) * 1000;
            let deadline: i64 = if target > i64::MAX as i128 {
                i64::MAX
            } else {
                target as i64
            };
            self.active_note.is_running = true;
            self.active_note.target_time = Some(deadline);
        }
    }

    /// Stops the countdown and sets it back to a full session.
    pub fn reset_timer(&mut self)
        ensures
            *final(self) == (App {
                active_note: ActiveNote {
                    time_left: MAX_TIME,
                    is_running: false,
                    target_time: None,
                    ..old(self).active_note
                },
                ..*old(self)
            }),
            final(self).active_note.time_left == MAX_TIME,
            !final(self).active_note.is_running,
            final(self).active_note.target_time.is_none(),
    {
        self.active_note.time_left = MAX_TIME;
        self.active_note.is_running = false;
        self.active_note.target_time = None;
    }

    /// Recomputes the time left from the deadline at the current instant.
    pub fn tick(&mut self)
        ensures
            exists|now: int| i64::MIN <= now <= i64::MAX && *final(self) == old(self).ticked(now),
    {
        if !self.active_note.is_running {
            assert(old(self).ticked(0) == *old(self));
            return;
        }
        let now = now_millis();
        self.tick_at(now);
    }

    /// Recomputes the time left of a running countdown from its deadline,
    /// taking `now` (milliseconds since the Unix epoch) as the current
    /// instant. Once the deadline has passed the countdown stops at zero and
    /// the alert is raised.
    pub fn tick_at(&mut self, now: i64)
        ensures
            *final(self) == old(self).ticked(now as int),
    {
        if !self.active_note.is_running {
            return;
        }
        match self.active_note.target_time {
            None => {},
            Some(target) => {
                let remaining: i128 = (target as i128 - now as i128 + 999) / 1000;
                if remaining > 0 {
                    self.active_note.time_left = if remaining > MAX_TIME as i128 {
                        MAX_TIME
                    } else {
                        remaining as u64
                    };
                } else {
                    self.active_note.time_left = 0;
                    self.active_note.is_running = false;
                    self.active_note.target_time = None;
                    self.play_sound();
                }
            },
        }
    }

    // Task list

    /// Moves the selection one slot down, stopping at the last slot.
    pub fn move_selection_down(&mut self)
        ensures
            *final(self) == (App {
                selected_todo: slot_below(old(self).selected_todo),
                ..*old(self)
            }),
    {
        if self.selected_todo < 3 {
            self.selected_todo = self.selected_todo + 1;
        } else {
            self.selected_todo = 3;
        }
    }

    /// Moves the selection one slot up, stopping at the first slot.
    pub fn move_selection_up(&mut self)
        ensures
            *final(self) == (App {
                selected_todo: slot_above(old(self).selected_todo),
                ..*old(self)
            }),
    {
        if self.selected_todo > 0 {
            self.selected_todo = self.selected_todo - 1;
        }
    }

    /// Starts editing the selected slot; only from the task list.
    pub fn start_editing(&mut self)
        ensures
            old(self).input_mode == InputMode::Normal ==> *final(self) == (App {
                input_mode: InputMode::Editing(old(self).selected_todo),
                ..*old(self)
            }),
            old(self).input_mode != InputMode::Normal ==> *final(self) == *old(self),
    {
        if self.input_mode == InputMode::Normal {
            self.input_mode = InputMode::Editing(self.selected_todo);
        }
    }

    /// Returns to the task list.
    pub fn stop_editing(&mut self)
        ensures
            *final(self) == (App { input_mode: InputMode::Normal, ..*old(self) }),
    {
        self.input_mode = InputMode::Normal;
    }

    /// Appends `c` to the text of slot `index` while that slot is being
    /// edited, unless the text already holds the most characters a slot
    /// takes.
    pub fn edit_char(&mut self, c: char, index: usize)
        requires
            index < 4,
        ensures
            old(self).input_mode == InputMode::Editing(index) ==> {
                &&& old(self).same_but_slot(final(self), index as int)
                &&& final(self).active_note.todos[index as int].text@ == typed(
                    old(self).active_note.todos[index as int].text@,
                    c,
                )
                &&& final(self).active_note.todos[index as int].completed
                    == old(self).active_note.todos[index as int].completed
            },
            old(self).input_mode != InputMode::Editing(index) ==> *final(self) == *old(self),
            old(self).active_note.todos[index as int].text@.len() >= MAX_TODO_LEN ==> *final(self)
                == *old(self),
    {
        if self.input_mode == InputMode::Editing(index)
            && self.active_note.todos[index].text.as_str().unicode_len() < MAX_TODO_LEN {
            self.active_note.todos[index].text.push(c);
        }
    }

    /// Removes the last character of the text of slot `index`, if any, while
    /// that slot is being edited.
    pub fn edit_backspace(&mut self, index: usize)
        requires
            index < 4,
        ensures
            old(self).input_mode == InputMode::Editing(index) ==> {
                &&& old(self).same_but_slot(final(self), index as int)
                &&& final(self).active_note.todos[index as int].text@ == if old(self).active_note.todos[index as int].text@.len() > 0 {
                    old(self).active_note.todos[index as int].text@.drop_last()
                } else {
                    old(self).active_note.todos[index as int].text@
                }
                &&& final(self).active_note.todos[index as int].completed
                    == old(self).active_note.todos[index as int].completed
            },
            old(self).input_mode != InputMode::Editing(index) ==> *final(self) == *old(self),
    {
        if self.input_mode == InputMode::Editing(index) {
            self.active_note.todos[index].text.pop();
        }
    }

    /// Marks the selected slot done or not done; only from the task list,
    /// and never for a slot without text. Marking it done raises the alert.
    pub fn toggle_todo(&mut self)
        requires
            old(self).inv(),
        ensures
            ({
                let i = old(self).selected_todo as int;
                let t = old(self).active_note.todos[i];
                if old(self).input_mode == InputMode::Normal && t.has_text() {
                    &&& *final(self) == (App {
                        active_note: ActiveNote {
                            todos: final(self).active_note.todos,
                            ..old(self).active_note
                        },
                        sound_pending: old(self).sound_pending || !t.completed,
                        ..*old(self)
                    })
                    &&& final(self).active_note.todos[i] == (Todo {
                        text: t.text,
                        completed: !t.completed,
                    })
                    &&& forall|j: int|
                        0 <= j < 4 && j != i ==> #[trigger] final(self).active_note.todos[j]
                            == old(self).active_note.todos[j]
                } else {
                    *final(self) == *old(self)
                }
            }),
            !old(self).active_note.todos[old(self).selected_todo as int].has_text() ==> final(self).active_note.todos[old(self).selected_todo as int].completed == old(self).active_note.todos[old(self).selected_todo as int].completed,
    {
        let idx = self.selected_todo;
        if self.input_mode == InputMode::Normal && !self.active_note.todos[idx].text.as_str().is_empty() {
            self.active_note.todos[idx].completed = !self.active_note.todos[idx].completed;
            if self.active_note.todos[idx].completed {
                self.play_sound();
            }
        }
    }

    /// Empties the selected slot and marks it not done; only from the task
    /// list.
    pub fn remove_todo(&mut self)
        requires
            old(self).inv(),
        ensures
            old(self).input_mode == InputMode::Normal ==> {
                &&& old(self).same_but_slot(final(self), old(self).selected_todo as int)
                &&& final(self).active_note.todos[old(self).selected_todo as int].is_blank()
            },
            old(self).input_mode != InputMode::Normal ==> *final(self) == *old(self),
    {
        let idx = self.selected_todo;
        if self.input_mode == InputMode::Normal {
            self.active_note.todos[idx].text = String::new();
            self.active_note.todos[idx].completed = false;
        }
    }

    // Session completion

    /// Asks to confirm the end of the session; only when some slot has text.
    pub fn show_complete_session_modal(&mut self)
        ensures
            old(self).active_note.has_content() ==> *final(self) == (App {
                modal: Some(ModalKind::CompleteSession),
                input_mode: InputMode::Modal,
                ..*old(self)
            }),
            !old(self).active_note.has_content() ==> *final(self) == *old(self),
    {
        let mut has_content = false;
        let mut i: usize = 0;
        while i < 4
            invariant
                i <= 4,
                has_content == exists|j: int| 0 <= j < i && (#[trigger] self.active_note.todos[j]).has_text(),
            decreases 4 - i,
        {
            if !self.active_note.todos[i].text.as_str().is_empty() {
                has_content = true;
            }
            i = i + 1;
        }
        if !has_content {
            return;
        }
        self.modal = Some(ModalKind::CompleteSession);
        self.input_mode = InputMode::Modal;
    }

    /// Archives the active session, lands the history cursor on it, and
    /// starts a fresh session.
    fn complete_session(&mut self)
        requires
            old(self).inv(),
            old(self).completed_notes@.len() < usize::MAX,
        ensures
            final(self).inv(),
            old(self).archived_into(final(self)),
            final(self).completed_notes@.len() == old(self).completed_notes@.len() + 1,
            numbered(final(self).completed_notes@),
            final(self).completed_notes@.subrange(0, old(self).completed_notes@.len() as int)
                == old(self).completed_notes@,
            *final(self) == (App {
                active_note: final(self).active_note,
                completed_notes: final(self).completed_notes,
                history_index: final(self).history_index,
                selected_todo: 0,
                ..*old(self)
            }),
    {
        let time_spent = MAX_TIME - self.active_note.time_left;
        let n = self.completed_notes.len();
        let completion_number = n as u64 + 1;
        let todos = vec![
            self.active_note.todos[0].duplicate(),
            self.active_note.todos[1].duplicate(),
            self.active_note.todos[2].duplicate(),
            self.active_note.todos[3].duplicate(),
        ];
        let note = CompletedNote { todos, time_spent, completion_number };
        self.completed_notes.push(note);
        self.history_index = Some(n);
        self.active_note = ActiveNote::default();
        self.selected_todo = 0;
        proof {
            assert(self.completed_notes@.subrange(0, n as int) =~= old(self).completed_notes@);
            assert(self.completed_notes@[n as int].todos@ =~= old(self).active_note.todos@);
            assert forall|i: int| 0 <= i < self.completed_notes@.len() implies (
            #[trigger] self.completed_notes@[i]).completion_number == i + 1 by {
                if i < n {
                    assert(self.completed_notes@[i] == old(self).completed_notes@[i]);
                }
            }
        }
    }

    // History navigation

    /// Moves the history cursor to the next archived session, starting from
    /// the first and stopping at the last.
    pub fn next_history(&mut self)
        ensures
            *final(self) == (App {
                history_index: next_index(old(self).history_index, old(self).completed_notes@.len()),
                ..*old(self)
            }),
    {
        let n = self.completed_notes.len();
        if n == 0 {
            return;
        }
        match self.history_index {
            Some(i) => {
                if i < n - 1 {
                    self.history_index = Some(i + 1);
                }
            },
            None => {
                self.history_index = Some(0);
            },
        }
    }

    /// Moves the history cursor to the previous archived session, starting
    /// from the last and stopping at the first.
    pub fn prev_history(&mut self)
        ensures
            *final(self) == (App {
                history_index: prev_index(old(self).history_index, old(self).completed_notes@.len()),
                ..*old(self)
            }),
    {
        let n = self.completed_notes.len();
        if n == 0 {
            return;
        }
        match self.history_index {
            Some(i) => {
                if i > 0 {
                    self.history_index = Some(i - 1);
                }
            },
            None => {
                self.history_index = Some(n - 1);
            },
        }
    }

    // Modals

    /// Asks to confirm starting over with a fresh session and an empty history.
    pub fn show_new_session_modal(&mut self)
        ensures
            *final(self) == (App {
                modal: Some(ModalKind::NewSession),
                input_mode: InputMode::Modal,
                ..*old(self)
            }),
    {
        self.modal = Some(ModalKind::NewSession);
        self.input_mode = InputMode::Modal;
    }

    /// Asks to confirm clearing the history; only when there is one.
    pub fn show_clear_notes_modal(&mut self)
        ensures
            old(self).completed_notes@.len() > 0 ==> *final(self) == (App {
                modal: Some(ModalKind::ClearNotes),
                input_mode: InputMode::Modal,
                ..*old(self)
            }),
            old(self).completed_notes@.len() == 0 ==> *final(self) == *old(self),
    {
        if self.completed_notes.len() == 0 {
            return;
        }
        self.modal = Some(ModalKind::ClearNotes);
        self.input_mode = InputMode::Modal;
    }

    /// Shows the key help.
    pub fn show_help(&mut self)
        ensures
            *final(self) == (App {
                modal: Some(ModalKind::Help),
                input_mode: InputMode::Modal,
                ..*old(self)
            }),
    {
        self.modal = Some(ModalKind::Help);
        self.input_mode = InputMode::Modal;
    }

    /// Confirms the pending dialog, applies what it asked for, and returns to
    /// the task list.
    pub fn confirm_modal(&mut self)
        requires
            old(self).inv(),
            old(self).completed_notes@.len() < usize::MAX,
        ensures
            final(self).inv(),
            final(self).modal.is_none(),
            final(self).input_mode == InputMode::Normal,
            old(self).modal == Some(ModalKind::CompleteSession) ==> {
                &&& old(self).archived_into(final(self))
                &&& *final(self) == (App {
                    active_note: final(self).active_note,
                    completed_notes: final(self).completed_notes,
                    history_index: final(self).history_index,
                    selected_todo: 0,
                    modal: None,
                    input_mode: InputMode::Normal,
                    ..*old(self)
                })
            },
            old(self).modal == Some(ModalKind::ClearNotes) ==> {
                &&& final(self).completed_notes@.len() == 0
                &&& *final(self) == (App {
                    completed_notes: final(self).completed_notes,
                    history_index: None,
                    modal: None,
                    input_mode: InputMode::Normal,
                    ..*old(self)
                })
            },
            old(self).modal == Some(ModalKind::NewSession) ==> {
                &&& final(self).active_note.is_fresh()
                &&& final(self).completed_notes@.len() == 0
                &&& *final(self) == (App {
                    active_note: final(self).active_note,
                    completed_notes: final(self).completed_notes,
                    selected_todo: 0,
                    history_index: None,
                    modal: None,
                    input_mode: InputMode::Normal,
                    ..*old(self)
                })
            },
            old(self).modal == Some(ModalKind::Help) || old(self).modal.is_none() ==> *final(self)
                == (App { modal: None, input_mode: InputMode::Normal, ..*old(self) }),
    {
        let modal = self.modal.take();
        match modal {
            Some(ModalKind::CompleteSession) => {
                self.complete_session();
            },
            Some(ModalKind::ClearNotes) => {
                self.completed_notes.clear();
                self.history_index = None;
            },
            Some(ModalKind::NewSession) => {
                self.active_note = ActiveNote::default();
                self.completed_notes.clear();
                self.selected_todo = 0;
                self.history_index = None;
            },
            Some(ModalKind::Help) => {},
            None => {},
        }
        self.input_mode = InputMode::Normal;
    }

    /// Closes the pending dialog without applying it.
    pub fn dismiss_modal(&mut self)
        ensures
            *final(self) == (App { modal: None, input_mode: InputMode::Normal, ..*old(self) }),
    {
        self.modal = None;
        self.input_mode = InputMode::Normal;
    }

    /// Shows or hides the history pane.
    pub fn toggle_history(&mut self)
        ensures
            *final(self) == (App { show_history: !old(self).show_history, ..*old(self) }),
    {
        self.show_history = !self.show_history;
    }

    // Export

    /// The archive as a markdown document.
    pub fn build_markdown(&self) -> (r: String)
        ensures
            r@ == markdown(self.completed_notes@),
    {
        notes_markdown(&self.completed_notes)
    }

    /// The document to hand to the clipboard; nothing while the archive is
    /// empty.
    pub fn clipboard_markdown(&self) -> (r: Option<String>)
        ensures
            self.completed_notes@.len() == 0 ==> r.is_none(),
            self.completed_notes@.len() > 0 ==> (r matches Some(md) && md@ == markdown(
                self.completed_notes@,
            )),
    {
        if self.completed_notes.len() == 0 {
            None
        } else {
            Some(self.build_markdown())
        }
    }

    /// Reports how handing the document to the clipboard went, as a status
    /// message: a confirmation, or the clipboard's error.
    pub fn record_copy_result(&mut self, result: Result<(), String>)
        ensures
            *final(self) == (App { status_message: final(self).status_message, ..*old(self) }),
            result is Ok ==> (final(self).status_message matches Some(m)
                && m@ == "Copied to clipboard!"@),
            result matches Err(e) ==> (final(self).status_message matches Some(m)
                && m@ == "Clipboard error: "@ + e@),
    {
        match result {
            Ok(()) => {
                self.status_message = Some(String::from_str("Copied to clipboard!"));
            },
            Err(e) => {
                let mut m = String::from_str("Clipboard error: ");
                m.append(e.as_str());
                self.status_message = Some(m);
            },
        }
    }

    /// Raises the one-shot alert.
    fn play_sound(&mut self)
        ensures
            *final(self) == (App { sound_pending: true, ..*old(self) }),
    {
        self.sound_pending = true;
    }
}

impl Default for App {
    fn default() -> (r: App)
        ensures
            r.is_initial(),
            r.inv(),
    {
        App {
            active_note: ActiveNote::default(),
            completed_notes: Vec::new(),
            input_mode: InputMode::Normal,
            selected_todo: 0,
            history_index: None,
            modal: None,
            should_quit: false,
            status_message: None,
            sound_pending: false,
            show_history: true,
        }
    }
}

} // verus!
