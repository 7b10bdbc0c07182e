//! What the terminal reports: keys, the mouse and changes of size.

use vstd::prelude::*;

verus! {

/// The key that was pressed.
#[derive(Clone, Copy, Debug, PartialEq, Eq, Structural)]
pub enum KeyCode {
    Backspace,
    Enter,
    Left,
    Right,
    Up,
    Down,
    Home,
    End,
    PageUp,
    PageDown,
    Tab,
    BackTab,
    Delete,
    Insert,
    F(u8),
    Char(char),
    Null,
    Esc,
}

/// The modifier keys that were held down.
#[derive(Clone, Copy, Debug, PartialEq, Eq, Structural)]
pub struct KeyModifiers {
    pub shift: bool,
    pub control: bool,
    pub alt: bool,
}

/// A key press.
#[derive(Clone, Copy, Debug, PartialEq, Eq, Structural)]
pub struct KeyEvent {
    pub code: KeyCode,
    pub modifiers: KeyModifiers,
}

/// An event of the terminal.
#[derive(Clone, Copy, Debug, PartialEq, Eq, Structural)]
pub enum TermEvent {
    Key(KeyEvent),
    Mouse,
    /// The terminal has the given number of columns and rows now.
    Resize(u16, u16),
}

} // verus!
