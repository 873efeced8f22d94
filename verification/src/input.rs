//! The decoded terminal input events the sessions consume. The terminal
//! driver turns raw key presses into these; anything it cannot decode
//! arrives as `Other` and is ignored by every session.

use vstd::prelude::*;

verus! {

/// One decoded terminal input event.
#[derive(PartialEq, Eq, Structural, Clone, Copy, Debug)]
pub enum InputEvent {
    /// A printable character (the newline character is the confirm key).
    Char(char),
    /// The up arrow.
    Up,
    /// The down arrow.
    Down,
    /// The left arrow.
    Left,
    /// The right arrow.
    Right,
    /// The backspace key.
    Backspace,
    /// The interrupt control combination.
    Interrupt,
    /// Anything the terminal driver decoded but the sessions do not handle.
    Other,
}

} // verus!
