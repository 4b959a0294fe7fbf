//! Input events: the raw key, mouse and resize events a terminal yields,
//! and the semantic events key bindings translate them into.

use vstd::prelude::*;

verus! {

/// A key, as the terminal reports it.
#[derive(Clone, Copy, Debug, PartialEq, Eq, Structural)]
pub enum KeyCode {
    Backspace,
    Enter,
    Left,
    Right,
    Up,
    Down,
    Home,
    End,
    PageUp,
    PageDown,
    Tab,
    BackTab,
    Delete,
    Insert,
    Esc,
    F(u8),
    Char(char),
    Null,
}

/// Modifier keys held along with a key.
#[derive(Clone, Copy, Debug, PartialEq, Eq, Structural)]
pub struct KeyModifiers {
    pub shift: bool,
    pub control: bool,
    pub alt: bool,
}

impl KeyModifiers {
    /// No modifier held.
    pub fn none() -> (r: Self)
        ensures
            r == (KeyModifiers { shift: false, control: false, alt: false }),
    {
        KeyModifiers { shift: false, control: false, alt: false }
    }
}

/// One key press with its modifiers.
#[derive(Clone, Copy, Debug, PartialEq, Eq, Structural)]
pub struct KeyEvent {
    pub code: KeyCode,
    pub modifiers: KeyModifiers,
}

impl KeyEvent {
    pub fn new(code: KeyCode, modifiers: KeyModifiers) -> (r: Self)
        ensures
            r == (KeyEvent { code, modifiers }),
    {
        KeyEvent { code, modifiers }
    }
}

/// What a mouse did.
#[derive(Clone, Copy, Debug, PartialEq, Eq, Structural)]
pub enum MouseEventKind {
    Down,
    Up,
    Drag,
    Moved,
    ScrollUp,
    ScrollDown,
}

/// One mouse event with its position.
#[derive(Clone, Copy, Debug, PartialEq, Eq, Structural)]
pub struct MouseEvent {
    pub kind: MouseEventKind,
    pub column: usize,
    pub row: usize,
}

/// A semantic application event a raw event can translate into.
#[derive(Clone, Copy, Debug, PartialEq, Eq, Structural)]
pub enum StandardEvent {
    Yes,
    No,
    Help,
    Exit,
    ScrollUp,
    ScrollDown,
    PageUp,
    PageDown,
}

/// An input event: raw key, mouse or resize, a translated semantic event,
/// or something the engine does not care about.
#[derive(Clone, Copy, Debug, PartialEq, Eq, Structural)]
pub enum Event {
    Key(KeyEvent),
    Mouse(MouseEvent),
    Resize(usize, usize),
    Standard(StandardEvent),
    Other,
}

impl Event {
    /// Key event for a plain character with no modifiers.
    pub fn from_char(c: char) -> (r: Self)
        ensures
            r == Event::Key(
                KeyEvent {
                    code: KeyCode::Char(c),
                    modifiers: KeyModifiers { shift: false, control: false, alt: false },
                },
            ),
    {
        Event::Key(KeyEvent::new(KeyCode::Char(c), KeyModifiers::none()))
    }

    /// The given semantic event.
    pub fn from_standard(event: StandardEvent) -> (r: Self)
        ensures
            r == Event::Standard(event),
    {
        Event::Standard(event)
    }
}

/// The character with an ASCII capital letter folded to its small form;
/// every other character is itself.
pub open spec fn spec_to_ascii_lowercase(c: char) -> char {
    if 65 <= c as u32 <= 90 {
        (((c as u32) + 32) as u8) as char
    } else {
        c
    }
}

/// The character with an ASCII small letter folded to its capital form;
/// every other character is itself.
pub open spec fn spec_to_ascii_uppercase(c: char) -> char {
    if 97 <= c as u32 <= 122 {
        (((c as u32) - 32) as u8) as char
    } else {
        c
    }
}

/// Fold an ASCII capital letter to its small form.
pub fn to_ascii_lowercase(c: char) -> (r: char)
    ensures
        r == spec_to_ascii_lowercase(c),
{
    let value: u32 = c as u32;
    if 65 <= value && value <= 90 {
        ((value + 32) as u8) as char
    } else {
        c
    }
}

/// Fold an ASCII small letter to its capital form.
pub fn to_ascii_uppercase(c: char) -> (r: char)
    ensures
        r == spec_to_ascii_uppercase(c),
{
    let value: u32 = c as u32;
    if 97 <= value && value <= 122 {
        ((value - 32) as u8) as char
    } else {
        c
    }
}

} // verus!
