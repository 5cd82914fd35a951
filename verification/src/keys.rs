//! Key presses as the session controller reads them.

use vstd::prelude::*;

verus! {

/// The key of a key event. Keys that no screen reacts to are `Other`.
#[derive(Clone, Copy, Debug, PartialEq, Eq, Structural)]
pub enum KeyCode {
    Char(char),
    Backspace,
    Enter,
    Left,
    Right,
    Up,
    Down,
    Home,
    End,
    Esc,
    Other,
}

/// Whether the key went down, is held, or came up.
#[derive(Clone, Copy, Debug, PartialEq, Eq, Structural)]
pub enum KeyEventKind {
    Press,
    Repeat,
    Release,
}

/// One key event.
#[derive(Clone, Copy, Debug, PartialEq, Eq, Structural)]
pub struct KeyEvent {
    pub code: KeyCode,
    pub kind: KeyEventKind,
}

impl KeyEvent {
    /// The press of `code`.
    pub fn press(code: KeyCode) -> (key: KeyEvent)
        ensures
            key == (KeyEvent { code, kind: KeyEventKind::Press }),
    {
        KeyEvent { code, kind: KeyEventKind::Press }
    }

    /// Whether this is a key going down.
    pub open spec fn is_press(self) -> bool {
        self.kind == KeyEventKind::Press
    }

    /// Whether this is the press of the key that leaves the program from any screen.
    pub open spec fn is_escape(self) -> bool {
        self.is_press() && self.code == KeyCode::Esc
    }
}

} // verus!
