//! The abstract key event consumed by every component: a logical key code
//! plus the modifier keys held while it was pressed.

use vstd::prelude::*;

verus! {

/// The logical key that was pressed.
#[derive(Clone, Copy, Debug, PartialEq, Eq, Structural)]
pub enum KeyCode {
    /// A printable character.
    Char(char),
    Backspace,
    Enter,
    Left,
    Right,
    Up,
    Down,
    Tab,
    BackTab,
    Esc,
    /// Any key the editor has no use for.
    Other,
}

/// The modifier keys held during a key press.
#[derive(Clone, Copy, Debug, PartialEq, Eq, Structural)]
pub struct KeyModifiers {
    pub shift: bool,
    pub control: bool,
    pub alt: bool,
}

/// One key press: the key and the modifiers active with it.
#[derive(Clone, Copy, Debug, PartialEq, Eq, Structural)]
pub struct KeyEvent {
    pub code: KeyCode,
    pub modifiers: KeyModifiers,
}

impl KeyModifiers {
    /// No modifier held.
    pub fn none() -> (m: KeyModifiers)
        ensures
            m == (KeyModifiers { shift: false, control: false, alt: false }),
    {
        KeyModifiers { shift: false, control: false, alt: false }
    }

    /// Only the control key held.
    pub fn ctrl() -> (m: KeyModifiers)
        ensures
            m == (KeyModifiers { shift: false, control: true, alt: false }),
    {
        KeyModifiers { shift: false, control: true, alt: false }
    }
}

impl KeyEvent {
    /// A press of `code` with no modifier.
    pub fn plain(code: KeyCode) -> (e: KeyEvent)
        ensures
            e.code == code,
            e.modifiers == (KeyModifiers { shift: false, control: false, alt: false }),
    {
        KeyEvent { code, modifiers: KeyModifiers::none() }
    }

    /// A press of `code` with the control key held.
    pub fn with_ctrl(code: KeyCode) -> (e: KeyEvent)
        ensures
            e.code == code,
            e.modifiers == (KeyModifiers { shift: false, control: true, alt: false }),
    {
        KeyEvent { code, modifiers: KeyModifiers::ctrl() }
    }
}

} // verus!
