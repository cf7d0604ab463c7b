//! What the terminal reports to the loop.

use vstd::prelude::*;

verus! {

/// The key that ends the loop.
pub const QUIT_KEY: char = 'q';

/// A key, as far as the loop tells keys apart.
#[derive(Clone, Copy, Debug, PartialEq, Eq)]
pub enum Key {
    /// A key that stands for a character.
    Char(char),
    /// Any other key: an arrow, a function key, Enter, Escape and so on.
    Other,
}

/// One input event from the terminal.
#[derive(Clone, Copy, Debug, PartialEq, Eq)]
pub enum InputEvent {
    /// A key was pressed, released or is being held.
    Key(Key),
    /// The mouse moved, or one of its buttons or its wheel was used.
    Mouse,
    /// The terminal now has this many columns and rows.
    Resize(u16, u16),
    /// Anything else: the window won or lost the focus, text was pasted.
    Other,
}

impl InputEvent {
    /// Whether the event asks the loop to end: a key event whose character
    /// is `QUIT_KEY`.
    pub open spec fn is_quit(self) -> bool {
        self == InputEvent::Key(Key::Char(QUIT_KEY))
    }

    /// Whether the event asks the loop to end.
    pub fn quits(&self) -> (b: bool)
        ensures
            b == self.is_quit(),
    {
        match self {
            InputEvent::Key(Key::Char(c)) => *c == QUIT_KEY,
            _ => false,
        }
    }
}

} // verus!
