//! The input that drives the application, and what the application asks its
//! runner to do next.
use vstd::prelude::*;

verus! {

/// A key as the application tells keys apart.
#[derive(Debug, Clone, Copy, PartialEq, Eq, Structural)]
pub enum KeyCode {
    Char(char),
    Enter,
    Esc,
    Backspace,
    Delete,
    Up,
    Down,
    /// Any other key.
    Other,
}

/// A pressed key together with the modifiers that were held.
#[derive(Debug, Clone, Copy, PartialEq, Eq, Structural)]
pub struct Key {
    pub code: KeyCode,
    pub ctrl: bool,
    pub shift: bool,
}

/// What the terminal reports.
#[derive(Debug, Clone, Copy, PartialEq, Eq, Structural)]
pub enum Event {
    /// The terminal now has this many rows.
    Resize(u16),
    /// A key was pressed.
    Press(Key),
    /// Anything else, such as a key release.
    Other,
}

/// Why the branches are read again; this decides what happens after.
#[derive(Debug, Clone, Copy, PartialEq, Eq, Structural)]
pub enum LoadReason {
    Startup,
    Toggle,
    Refresh,
    AfterDeletion,
}

/// What the runner does after an event.
#[derive(Debug, Clone, Copy, PartialEq, Eq, Structural)]
pub enum Action {
    /// Draw the screen again and wait for the next event.
    Continue,
    /// Leave the application.
    Quit,
    /// Read the branches of the selected kind and hand them back.
    Load(LoadReason),
    /// Check out the branch at this index of the entries; leave the
    /// application afterwards when `quit_after` holds and the checkout worked.
    Checkout { branch_index: usize, quit_after: bool },
    /// Delete the local branches named by the marks.
    DeleteMarked,
}

} // verus!
