//! The list view's interactive state machine: a snapshot of active tasks
//! and a one-based cursor line over them, stepped one input event at a
//! time.
//!
//! Cursor line `k` selects snapshot row `k - 1` when that index exists.
//! Moving the cursor is never clamped — it may roam above the first row or
//! below the last — and a confirm on an out-of-range line is simply
//! ignored. A mutating action makes the caller re-fetch the snapshot and
//! `reload`, which resets the cursor to the first row.

use vstd::prelude::*;

use crate::input::InputEvent;
use crate::store::{tasks_view, Task, TaskModel};

verus! {

/// What the list session asks its caller to do after one event.
#[derive(PartialEq, Eq, Structural, Clone, Copy, Debug)]
pub enum ListAction {
    /// Move the terminal cursor up one row; no re-render.
    MoveUp,
    /// Move the terminal cursor down one row; no re-render.
    MoveDown,
    /// Move the terminal cursor left one column; purely cosmetic.
    MoveLeft,
    /// Move the terminal cursor right one column; purely cosmetic.
    MoveRight,
    /// Mark the task with this id completed, then re-fetch and reload.
    Complete(u64),
    /// Run the add-entry sub-session, then re-fetch and reload.
    EnterAdd,
    /// Leave the session loop.
    Exit,
    /// Nothing: the event was unrecognized or aimed at no valid row.
    Ignore,
}

/// The mathematical value of a `ListSession`.
#[verifier::ext_equal]
pub struct ListSessionModel {
    pub snapshot: Seq<TaskModel>,
    pub cursor_line: int,
}

/// The whole state machine in one place: the next state and the requested
/// action, for any state and any input event.
pub open spec fn list_transition(s: ListSessionModel, ev: InputEvent) -> (ListSessionModel,
    ListAction) {
    match ev {
        InputEvent::Char(c) => if c == '\n' {
            if 1 <= s.cursor_line && s.cursor_line <= s.snapshot.len() {
                (s, ListAction::Complete(s.snapshot[s.cursor_line - 1].id))
            } else {
                (s, ListAction::Ignore)
            }
        } else if c == 'a' {
            (s, ListAction::EnterAdd)
        } else {
            (s, ListAction::Ignore)
        },
        InputEvent::Up => (
            ListSessionModel { cursor_line: s.cursor_line - 1, ..s },
            ListAction::MoveUp,
        ),
        InputEvent::Down => (
            ListSessionModel { cursor_line: s.cursor_line + 1, ..s },
            ListAction::MoveDown,
        ),
        InputEvent::Left => (s, ListAction::MoveLeft),
        InputEvent::Right => (s, ListAction::MoveRight),
        InputEvent::Backspace => (s, ListAction::Ignore),
        InputEvent::Interrupt => (s, ListAction::Exit),
        InputEvent::Other => (s, ListAction::Ignore),
    }
}

/// The list view session: the current snapshot of active tasks and the
/// cursor line the next confirm would act on.
pub struct ListSession {
    snapshot: Vec<Task>,
    cursor_line: i64,
}

impl View for ListSession {
    type V = ListSessionModel;

    closed spec fn view(&self) -> ListSessionModel {
        ListSessionModel {
            snapshot: tasks_view(self.snapshot@),
            cursor_line: self.cursor_line as int,
        }
    }
}

impl ListSession {
    /// Start a session over a freshly fetched snapshot, cursor on the first
    /// row.
    pub fn new(snapshot: Vec<Task>) -> (s: ListSession)
        ensures
            s@.snapshot == tasks_view(snapshot@),
            s@.cursor_line == 1,
    {
        ListSession { snapshot, cursor_line: 1 }
    }

    /// Replace the snapshot after a mutating action and reset the render:
    /// the cursor returns to the first row.
    pub fn reload(&mut self, snapshot: Vec<Task>)
        ensures
            final(self)@.snapshot == tasks_view(snapshot@),
            final(self)@.cursor_line == 1,
    {
        self.snapshot = snapshot;
        self.cursor_line = 1;
    }

    /// The current cursor line, one-based over the snapshot rows; callers
    /// use it to keep the drawn cursor and the selection in step, and to
    /// guard the arithmetic bounds of `handle_event`.
    pub fn cursor(&self) -> (r: i64)
        ensures
            r == self@.cursor_line,
    {
        self.cursor_line
    }

    /// Step the state machine by one input event: the session moves to
    /// `list_transition`'s next state and the caller gets the action to
    /// carry out.
    pub fn handle_event(&mut self, ev: &InputEvent) -> (a: ListAction)
        requires
            i64::MIN < old(self)@.cursor_line < i64::MAX,
        ensures
            (final(self)@, a) == list_transition(old(self)@, *ev),
    {
        match ev {
            InputEvent::Char(c) => {
                if *c == '\n' {
                    if self.cursor_line >= 1 && (self.cursor_line as u64) <= (
                    self.snapshot.len() as u64) {
                        let idx = (self.cursor_line - 1) as usize;
                        ListAction::Complete(self.snapshot[idx].id)
                    } else {
                        ListAction::Ignore
                    }
                } else if *c == 'a' {
                    ListAction::EnterAdd
                } else {
                    ListAction::Ignore
                }
            },
            InputEvent::Up => {
                self.cursor_line = self.cursor_line - 1;
                ListAction::MoveUp
            },
            InputEvent::Down => {
                self.cursor_line = self.cursor_line + 1;
                ListAction::MoveDown
            },
            InputEvent::Left => ListAction::MoveLeft,
            InputEvent::Right => ListAction::MoveRight,
            InputEvent::Backspace => ListAction::Ignore,
            InputEvent::Interrupt => ListAction::Exit,
            InputEvent::Other => ListAction::Ignore,
        }
    }
}

/// Cursor-selection mapping, as a law over the state machine: whenever the
/// cursor line selects a row that exists, confirming asks for completion of
/// exactly the task at snapshot index `cursor_line - 1`, and moves the
/// session nowhere.
pub proof fn lemma_cursor_selection(s: ListSessionModel)
    requires
        1 <= s.cursor_line <= s.snapshot.len(),
    ensures
        list_transition(s, InputEvent::Char('\n')).1 == ListAction::Complete(
            s.snapshot[s.cursor_line - 1].id,
        ),
        list_transition(s, InputEvent::Char('\n')).0 == s,
{
}

} // verus!
