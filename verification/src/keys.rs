//! Key presses.

use vstd::prelude::*;

verus! {

/// A key of the terminal.
#[derive(Clone, Copy)]
pub enum KeyCode {
    Char(char),
    Enter,
    Esc,
    Backspace,
    Tab,
    Up,
    Down,
    Left,
    Right,
    /// Any other key.
    Other,
}

/// A key press: the key, and whether Ctrl was held.
#[derive(Clone, Copy)]
pub struct Key {
    pub code: KeyCode,
    pub ctrl: bool,
}

impl Key {
    /// What the key stands for in lists: Ctrl+n and Ctrl+p are Down and Up.
    pub open spec fn meaning(self) -> KeyCode {
        match self.code {
            KeyCode::Char(c) => if self.ctrl && c == 'n' {
                KeyCode::Down
            } else if self.ctrl && c == 'p' {
                KeyCode::Up
            } else {
                self.code
            },
            other => other,
        }
    }

    /// Whether this is Ctrl with the character `c`.
    pub open spec fn is_ctrl(self, c: char) -> bool {
        self.ctrl && self.code == KeyCode::Char(c)
    }

    /// The key, with Ctrl+n and Ctrl+p as Down and Up.
    pub fn normalized(&self) -> (r: KeyCode)
        ensures
            r == self.meaning(),
    {
        match self.code {
            KeyCode::Char(c) => if self.ctrl && c == 'n' {
                KeyCode::Down
            } else if self.ctrl && c == 'p' {
                KeyCode::Up
            } else {
                self.code
            },
            other => other,
        }
    }

    /// Whether this is Ctrl with the character `c`.
    pub fn with_ctrl(&self, c: char) -> (r: bool)
        ensures
            r == self.is_ctrl(c),
    {
        match self.code {
            KeyCode::Char(d) => self.ctrl && d == c,
            _ => false,
        }
    }
}

} // verus!
