//! The modal add-entry sub-session: a text buffer grown one character at a
//! time until the user confirms or abandons it.
//!
//! Confirming hands the buffer to the caller to attempt `Store::create`;
//! abandoning returns without creating anything, whatever the buffer held.

use vstd::prelude::*;

use crate::input::InputEvent;
use crate::text::{pop_char, push_char};

verus! {

/// What the add-entry session asks its caller to do after one event.
#[derive(PartialEq, Eq, Structural, Clone, Copy, Debug)]
pub enum AddAction {
    /// Echo the character just appended to the buffer.
    Echo(char),
    /// Erase the character just removed from the end of the display.
    Erase,
    /// Stop capturing and attempt creation with the captured text.
    Submit,
    /// Abandon immediately: no creation, no notice.
    Abort,
    /// Nothing: backspace on an empty buffer, or an unrecognized event.
    Ignore,
}

/// The whole sub-session in one place: the next buffer and the requested
/// action, for any buffer and any input event.
pub open spec fn add_transition(buf: Seq<char>, ev: InputEvent) -> (Seq<char>, AddAction) {
    match ev {
        InputEvent::Char(c) => if c == '\n' {
            (buf, AddAction::Submit)
        } else {
            (buf.push(c), AddAction::Echo(c))
        },
        InputEvent::Backspace => if buf.len() > 0 {
            (buf.drop_last(), AddAction::Erase)
        } else {
            (buf, AddAction::Ignore)
        },
        InputEvent::Interrupt => (buf, AddAction::Abort),
        _ => (buf, AddAction::Ignore),
    }
}

/// The add-entry session: the text captured so far.
pub struct AddSession {
    buffer: String,
}

impl View for AddSession {
    type V = Seq<char>;

    closed spec fn view(&self) -> Seq<char> {
        self.buffer@
    }
}

impl AddSession {
    /// Open the sub-session with an empty buffer.
    pub fn new() -> (s: AddSession)
        ensures
            s@ == Seq::<char>::empty(),
    {
        AddSession { buffer: String::new() }
    }

    /// Step the sub-session by one input event: the buffer moves to
    /// `add_transition`'s next value and the caller gets the action to
    /// carry out.
    pub fn handle_event(&mut self, ev: &InputEvent) -> (a: AddAction)
        ensures
            (final(self)@, a) == add_transition(old(self)@, *ev),
    {
        match ev {
            InputEvent::Char(c) => {
                if *c == '\n' {
                    AddAction::Submit
                } else {
                    push_char(&mut self.buffer, *c);
                    AddAction::Echo(*c)
                }
            },
            InputEvent::Backspace => {
                match pop_char(&mut self.buffer) {
                    Some(_) => AddAction::Erase,
                    None => AddAction::Ignore,
                }
            },
            InputEvent::Interrupt => AddAction::Abort,
            _ => AddAction::Ignore,
        }
    }

    /// The captured text, surrendered to the caller on submit.
    pub fn take_text(self) -> (r: String)
        ensures
            r@ == self@,
    {
        self.buffer
    }
}

} // verus!
