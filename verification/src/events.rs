//! Plain-value models of the input events the terminal layer delivers.
//!
//! The surrounding application decodes raw terminal input and hands the
//! library one of these values per event; the library never touches the
//! input surface itself.

use vstd::prelude::*;

verus! {

/// The key that was pressed, reduced to the keys the browser reacts to.
#[derive(Clone, Copy, PartialEq, Eq, Structural, Debug)]
pub enum KeyCode {
    Up,
    Down,
    Left,
    Right,
    Home,
    End,
    PageUp,
    PageDown,
    Enter,
    Backspace,
    Tab,
    Esc,
    Char(char),
    Other,
}

/// Modifier state of a key press. `Control` means the control key alone was
/// held; any other non-empty combination is `Other` and is treated like an
/// unmodified press wherever only control matters.
#[derive(Clone, Copy, PartialEq, Eq, Structural, Debug)]
pub enum KeyModifiers {
    Empty,
    Control,
    Other,
}

/// A single key press.
#[derive(Clone, Copy, PartialEq, Eq, Structural, Debug)]
pub struct KeyEvent {
    pub code: KeyCode,
    pub modifiers: KeyModifiers,
}

impl KeyEvent {
    pub fn new(code: KeyCode, modifiers: KeyModifiers) -> (r: KeyEvent)
        ensures
            r == (KeyEvent { code, modifiers }),
    {
        KeyEvent { code, modifiers }
    }
}

#[derive(Clone, Copy, PartialEq, Eq, Structural, Debug)]
pub enum MouseButton {
    Left,
    Right,
    Middle,
}

/// The kinds of mouse event the browser reacts to; everything else is
/// delivered as `Other` and ignored.
#[derive(Clone, Copy, PartialEq, Eq, Structural, Debug)]
pub enum MouseEventKind {
    Down(MouseButton),
    ScrollUp,
    ScrollDown,
    Other,
}

/// A single mouse event at a terminal cell.
#[derive(Clone, Copy, PartialEq, Eq, Structural, Debug)]
pub struct MouseEvent {
    pub kind: MouseEventKind,
    pub column: u16,
    pub row: u16,
}

/// Whether a key press means "move up one line": the Up arrow or Ctrl+P.
pub open spec fn spec_is_up_key(key_event: KeyEvent) -> bool {
    ||| key_event.code == KeyCode::Up
    ||| (key_event.code == KeyCode::Char('p') && key_event.modifiers == KeyModifiers::Control)
}

/// Whether a key press means "move down one line": the Down arrow or Ctrl+N.
pub open spec fn spec_is_down_key(key_event: KeyEvent) -> bool {
    ||| key_event.code == KeyCode::Down
    ||| (key_event.code == KeyCode::Char('n') && key_event.modifiers == KeyModifiers::Control)
}

pub fn is_up_key(key_event: KeyEvent) -> (r: bool)
    ensures
        r == spec_is_up_key(key_event),
{
    key_event.code == KeyCode::Up || (key_event.code == KeyCode::Char('p')
        && key_event.modifiers == KeyModifiers::Control)
}

pub fn is_down_key(key_event: KeyEvent) -> (r: bool)
    ensures
        r == spec_is_down_key(key_event),
{
    key_event.code == KeyCode::Down || (key_event.code == KeyCode::Char('n')
        && key_event.modifiers == KeyModifiers::Control)
}

} // verus!
