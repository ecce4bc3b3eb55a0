//! Key presses as the panes see them, and what a pane answers to one.

use vstd::prelude::*;

verus! {

/// One key press, reduced to what the panes distinguish.
#[derive(Debug, Clone, Copy, PartialEq, Eq, Structural)]
pub enum Key {
    /// A character key.
    Char(char),
    Backspace,
    Enter,
    Esc,
    Tab,
    Up,
    Down,
    Left,
    Right,
    /// Any key the panes give no meaning to.
    Other,
}

/// What a pane asks of the focus controller after handling one key.
#[derive(Debug, Clone, Copy, PartialEq, Eq, Structural)]
pub enum NavigationOutcome {
    /// Stay in the pane and wait for the next key.
    Continue,
    /// Hand the keyboard to the next pane.
    AdvanceFocus,
    /// A value was committed; the pane keeps the keyboard.
    Commit,
    /// End the session.
    Quit,
}

impl Key {
    /// `q` and `Q` are the keys that end the session.
    pub open spec fn is_quit_spec(self) -> bool {
        self == Key::Char('q') || self == Key::Char('Q')
    }

    /// Tells whether this key is one of the two quit keys.
    #[verifier::when_used_as_spec(is_quit_spec)]
    pub fn is_quit(self) -> (r: bool)
        ensures
            r == self.is_quit_spec(),
    {
        match self {
            Key::Char(c) => c == 'q' || c == 'Q',
            _ => false,
        }
    }
}

} // verus!
