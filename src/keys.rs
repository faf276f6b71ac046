//! Keyboard events as the controller sees them.
use vstd::prelude::*;

verus! {

/// A key, as reported by the keyboard source.
#[derive(Clone, Copy, Debug, PartialEq, Eq, Structural)]
pub enum KeyCode {
    Backspace,
    Enter,
    Left,
    Right,
    Up,
    Down,
    Home,
    End,
    Delete,
    Esc,
    Tab,
    Char(char),
    /// Any key that the controller never acts on.
    Other,
}

/// Whether a key went down, repeats while held, or went up.
#[derive(Clone, Copy, Debug, PartialEq, Eq, Structural)]
pub enum KeyEventKind {
    Press,
    Repeat,
    Release,
}

/// One keyboard event.
#[derive(Clone, Copy, Debug, PartialEq, Eq, Structural)]
pub struct KeyEvent {
    pub code: KeyCode,
    pub kind: KeyEventKind,
}

impl KeyEvent {
    /// A key press.
    pub fn new(code: KeyCode) -> (r: KeyEvent)
        ensures
            r == (KeyEvent { code, kind: KeyEventKind::Press }),
    {
        KeyEvent { code, kind: KeyEventKind::Press }
    }

    /// An event of the given kind.
    pub fn new_with_kind(code: KeyCode, kind: KeyEventKind) -> (r: KeyEvent)
        ensures
            r == (KeyEvent { code, kind }),
    {
        KeyEvent { code, kind }
    }
}

/// Only presses and repeats are dispatched; releases are ignored.
pub fn should_handle_key(key_event: &KeyEvent) -> (r: bool)
    ensures
        r == (key_event.kind != KeyEventKind::Release),
{
    match key_event.kind {
        KeyEventKind::Press | KeyEventKind::Repeat => true,
        KeyEventKind::Release => false,
    }
}

/// The characters of the Unicode general category Cc.
pub open spec fn is_control_char(c: char) -> bool {
    (c as u32) <= 0x1f || (0x7f <= (c as u32) && (c as u32) <= 0x9f)
}

/// Whether `c` is a control character.
pub fn is_control(c: char) -> (r: bool)
    ensures
        r == is_control_char(c),
{
    let v = c as u32;
    v <= 0x1f || (0x7f <= v && v <= 0x9f)
}

} // verus!
