use vstd::prelude::*;

verus! {

/// The key of a key press.
#[derive(Clone, Copy, Debug, PartialEq, Eq, Structural)]
pub enum KeyCode {
    Char(char),
    Left,
    Right,
    Up,
    Down,
    Home,
    End,
    Backspace,
    Enter,
    Esc,
    Other,
}

/// The modifier held with a key press; a combination of several is `Other`.
#[derive(Clone, Copy, Debug, PartialEq, Eq, Structural)]
pub enum KeyModifiers {
    NoModifier,
    Shift,
    Control,
    Alt,
    Other,
}

/// A key press.
#[derive(Clone, Copy, Debug, PartialEq, Eq, Structural)]
pub struct KeyEvent {
    pub code: KeyCode,
    pub modifiers: KeyModifiers,
}

/// An input event: a key press, or anything else (a release, the mouse, a resize).
#[derive(Clone, Copy, Debug, PartialEq, Eq, Structural)]
pub enum Event {
    Key(KeyEvent),
    Other,
}

/// The event is a press of `code` with no modifier.
pub open spec fn is_plain(e: Event, code: KeyCode) -> bool {
    e == Event::Key(KeyEvent { code, modifiers: KeyModifiers::NoModifier })
}

/// The event is a press of `code` with Shift.
pub open spec fn is_shift(e: Event, code: KeyCode) -> bool {
    e == Event::Key(KeyEvent { code, modifiers: KeyModifiers::Shift })
}

/// The event is a press of `code` with Control.
pub open spec fn is_ctrl(e: Event, code: KeyCode) -> bool {
    e == Event::Key(KeyEvent { code, modifiers: KeyModifiers::Control })
}

impl Event {
    pub fn plain(code: KeyCode) -> (r: Event)
        ensures
            is_plain(r, code),
    {
        Event::Key(KeyEvent { code, modifiers: KeyModifiers::NoModifier })
    }

    pub fn shift(code: KeyCode) -> (r: Event)
        ensures
            is_shift(r, code),
    {
        Event::Key(KeyEvent { code, modifiers: KeyModifiers::Shift })
    }

    pub fn ctrl(code: KeyCode) -> (r: Event)
        ensures
            is_ctrl(r, code),
    {
        Event::Key(KeyEvent { code, modifiers: KeyModifiers::Control })
    }
}

} // verus!
