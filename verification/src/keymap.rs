//! Key presses as the handlers see them: which key, and which modifiers
//! were held.
use vstd::prelude::*;

verus! {

/// A key.
#[derive(Clone, Copy, Debug, PartialEq, Eq, Structural)]
pub enum KeyCode {
    Char(char),
    Enter,
    Esc,
    Tab,
    BackTab,
    Backspace,
    Delete,
    Left,
    Right,
    Up,
    Down,
    PageUp,
    PageDown,
    Home,
    End,
    Insert,
    /// A function key, by its number.
    F(u8),
    Other,
}

/// A key press and the modifiers held with it.
#[derive(Clone, Copy, Debug, PartialEq, Eq, Structural)]
pub struct KeyEvent {
    pub code: KeyCode,
    pub ctrl: bool,
    pub shift: bool,
    pub alt: bool,
}

impl KeyEvent {
    /// A press with no modifier held.
    pub fn plain(code: KeyCode) -> (r: KeyEvent)
        ensures
            r == (KeyEvent { code, ctrl: false, shift: false, alt: false }),
    {
        KeyEvent { code, ctrl: false, shift: false, alt: false }
    }

    /// Whether no modifier is held.
    pub open spec fn bare(&self) -> bool {
        !self.ctrl && !self.shift && !self.alt
    }

    /// Whether the modifiers spell text: none, Shift, or Ctrl+Alt (AltGr).
    pub open spec fn text_input_spec(&self) -> bool {
        (!self.ctrl && !self.alt) || (self.ctrl && self.alt && !self.shift)
    }

    /// Whether the modifiers spell text: none, Shift, or Ctrl+Alt (AltGr).
    pub fn is_text_input(&self) -> (r: bool)
        ensures
            r == self.text_input_spec(),
    {
        (!self.ctrl && !self.alt) || (self.ctrl && self.alt && !self.shift)
    }

    /// The chord that takes and releases a harness's keyboard: `Ctrl-]`.
    pub open spec fn focus_chord_spec(&self) -> bool {
        self.ctrl && self.code == KeyCode::Char(']')
    }

    /// Whether this is the chord that takes and releases a harness's keyboard.
    pub fn is_focus_chord(&self) -> (r: bool)
        ensures
            r == self.focus_chord_spec(),
    {
        self.ctrl && self.code == KeyCode::Char(']')
    }
}

/// A terminal event as the handlers see it.
pub enum Event {
    /// A key pressed or repeating.
    Key(KeyEvent),
    /// A key let go.
    KeyRelease(KeyEvent),
    Mouse(MouseEvent),
    /// A bracketed paste.
    Paste(Vec<char>),
    /// Focus changes, resizes and the like.
    Other,
}

/// A mouse button.
#[derive(Clone, Copy, Debug, PartialEq, Eq, Structural)]
pub enum MouseButton {
    Left,
    Right,
    Middle,
}

/// What the pointer did.
#[derive(Clone, Copy, Debug, PartialEq, Eq, Structural)]
pub enum MouseKind {
    Down(MouseButton),
    Up(MouseButton),
    Drag(MouseButton),
    Moved,
    ScrollUp,
    ScrollDown,
    ScrollLeft,
    ScrollRight,
}

/// A pointer event at a terminal cell.
#[derive(Clone, Copy, Debug, PartialEq, Eq, Structural)]
pub struct MouseEvent {
    pub kind: MouseKind,
    pub column: u16,
    pub row: u16,
}

/// The motion a mouse report names.
#[derive(Clone, Copy, Debug, PartialEq, Eq, Structural)]
pub enum Motion {
    Press,
    Release,
    Drag,
}

/// The button and motion a mouse report names, or `None` for an event that
/// is not a button event (bare motion and the wheel).
pub open spec fn report_spec(kind: MouseKind) -> Option<(MouseButton, Motion)> {
    match kind {
        MouseKind::Down(b) => Some((b, Motion::Press)),
        MouseKind::Up(b) => Some((b, Motion::Release)),
        MouseKind::Drag(b) => Some((b, Motion::Drag)),
        _ => None,
    }
}

/// The button and motion a mouse report names for `kind`.
pub fn pointer_report(kind: MouseKind) -> (r: Option<(MouseButton, Motion)>)
    ensures
        r == report_spec(kind),
{
    match kind {
        MouseKind::Down(b) => Some((b, Motion::Press)),
        MouseKind::Up(b) => Some((b, Motion::Release)),
        MouseKind::Drag(b) => Some((b, Motion::Drag)),
        _ => None,
    }
}

} // verus!
