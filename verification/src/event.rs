//! Input events as plain values: what a terminal reports of keys, of its
//! size, and of anything else.

use vstd::prelude::*;

verus! {

/// The key of a key event.
#[derive(Clone, Copy, Debug, PartialEq, Eq, Structural)]
pub enum KeyCode {
    Backspace,
    Enter,
    Left,
    Right,
    Up,
    Down,
    Home,
    End,
    PageUp,
    PageDown,
    Tab,
    BackTab,
    Delete,
    Insert,
    /// A function key, by its number.
    F(u8),
    /// A character key.
    Char(char),
    Null,
    Esc,
    CapsLock,
    ScrollLock,
    NumLock,
    PrintScreen,
    Pause,
    Menu,
    KeypadBegin,
    /// A media key, whichever it is.
    Media,
    /// A modifier key reported on its own, whichever it is.
    Modifier,
}

/// The modifier keys held down with a key.
#[derive(Clone, Copy, Debug, PartialEq, Eq, Structural, Default)]
pub struct KeyModifiers {
    pub shift: bool,
    pub control: bool,
    pub alt: bool,
    pub super_key: bool,
    pub hyper: bool,
    pub meta: bool,
}

impl KeyModifiers {
    /// Control is held down and no other modifier is.
    pub open spec fn is_control(self) -> bool {
        self == (KeyModifiers {
            shift: false,
            control: true,
            alt: false,
            super_key: false,
            hyper: false,
            meta: false,
        })
    }
}

/// What happened to the key.
#[derive(Clone, Copy, Debug, PartialEq, Eq, Structural)]
pub enum KeyEventKind {
    Press,
    Repeat,
    Release,
}

/// One key event.
#[derive(Clone, Copy, Debug, PartialEq, Eq, Structural)]
pub struct KeyEvent {
    pub code: KeyCode,
    pub modifiers: KeyModifiers,
    pub kind: KeyEventKind,
}

/// One input event.
#[derive(Clone, Copy, Debug, PartialEq, Eq, Structural)]
pub enum Event {
    FocusGained,
    FocusLost,
    Key(KeyEvent),
    Mouse,
    Paste,
    /// The terminal now has this many columns and this many rows, in that
    /// order.
    Resize(u16, u16),
}

} // verus!
