//! What the player reacts to: a key of the keyboard, or the wish to quit.

use vstd::prelude::*;

verus! {

/// The keys that the player tells apart.
#[derive(Debug, Clone, Copy, PartialEq, Eq, Structural)]
pub enum KeyCode {
    Backspace,
    Enter,
    Left,
    Right,
    Up,
    Down,
    Delete,
    Tab,
    Char(char),
    /// Any other key.
    Other,
}

/// One event of the keyboard.
#[derive(Debug, Clone, Copy, PartialEq, Eq, Structural)]
pub struct KeyEvent {
    /// The key.
    pub code: KeyCode,
    /// Whether the control key was held, and no other modifier.
    pub control: bool,
    /// Whether the key went down, as opposed to a repeat or a release.
    pub press: bool,
}

/// One event of the application.
#[derive(Debug, Clone, Copy, PartialEq, Eq, Structural)]
pub enum AppEvent {
    Quit,
    Key(KeyEvent),
}

/// Whether a key asks to quit: `c` with control, or `q`.
pub open spec fn asks_to_quit(key: KeyEvent) -> bool {
    (key.control && key.code == KeyCode::Char('c')) || key.code == KeyCode::Char('q')
}

/// Decides [`asks_to_quit`].
pub fn is_quit(key: &KeyEvent) -> (quit: bool)
    ensures
        quit == asks_to_quit(*key),
{
    let is_c = match key.code {
        KeyCode::Char(c) => c == 'c',
        _ => false,
    };
    let is_q = match key.code {
        KeyCode::Char(c) => c == 'q',
        _ => false,
    };
    (key.control && is_c) || is_q
}

/// The section that a key with control moves the focus to: `1`, `2` and `3`
/// name the first, the second and the third; any other key leaves the focus
/// where it is.
pub open spec fn focus_after(focus: u8, key: KeyEvent) -> u8 {
    if key.control {
        match key.code {
            KeyCode::Char(c) => if c == '1' {
                0
            } else if c == '2' {
                1
            } else if c == '3' {
                2
            } else {
                focus
            },
            _ => focus,
        }
    } else {
        focus
    }
}

/// Computes [`focus_after`].
pub fn next_focus(focus: u8, key: &KeyEvent) -> (after: u8)
    ensures
        after == focus_after(focus, *key),
{
    if key.control {
        match key.code {
            KeyCode::Char(c) => {
                if c == '1' {
                    0
                } else if c == '2' {
                    1
                } else if c == '3' {
                    2
                } else {
                    focus
                }
            },
            _ => focus,
        }
    } else {
        focus
    }
}

} // verus!
