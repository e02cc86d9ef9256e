//! Key presses as the terminal views see them.
use vstd::prelude::*;

verus! {

/// The key that was pressed.
#[derive(Clone, Copy, Debug, PartialEq, Eq, Structural)]
pub enum KeyCode {
    Char(char),
    Enter,
    Esc,
    Backspace,
    Left,
    Right,
    Up,
    Down,
    Tab,
    BackTab,
    /// Any key the views do not react to.
    Other,
}

/// The bit of `modifiers` that stands for the Shift key.
pub const SHIFT: u8 = 1;

/// The bit of `modifiers` that stands for the Control key.
pub const CONTROL: u8 = 2;

/// The bit of `modifiers` that stands for the Alt key.
pub const ALT: u8 = 4;

/// A key press: the key and the set of held modifier keys, one bit each.
#[derive(Clone, Copy, Debug, PartialEq, Eq, Structural)]
pub struct KeyEvent {
    pub code: KeyCode,
    pub modifiers: u8,
}

impl KeyEvent {
    /// A key pressed with no modifier held.
    pub fn new(code: KeyCode) -> (k: KeyEvent)
        ensures
            k.code == code,
            k.modifiers == 0,
    {
        KeyEvent { code, modifiers: 0 }
    }

    /// A key pressed with the given modifier bits held.
    pub fn with_modifiers(code: KeyCode, modifiers: u8) -> (k: KeyEvent)
        ensures
            k.code == code,
            k.modifiers == modifiers,
    {
        KeyEvent { code, modifiers }
    }

    pub open spec fn spec_has_control(self) -> bool {
        self.modifiers & CONTROL != 0
    }

    /// Whether Control is among the held modifiers.
    pub fn has_control(&self) -> (r: bool)
        ensures
            r == self.spec_has_control(),
    {
        self.modifiers & CONTROL != 0
    }
}

} // verus!
