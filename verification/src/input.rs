//! Input that the application understands, whatever terminal it comes from.
//!
//! Pointer events describe intent only: recognising a drag and changing an event happen elsewhere.

use vstd::prelude::*;

verus! {

/// A key.
#[derive(Clone, Copy, Debug, PartialEq, Eq, Structural)]
pub enum KeyCode {
    Char(char),
    Enter,
    Esc,
    Backspace,
    Tab,
    BackTab,
    Left,
    Right,
    Up,
    Down,
    Home,
    End,
    PageUp,
    PageDown,
    Other,
}

/// The keys held together with another.
#[derive(Clone, Copy, Debug, PartialEq, Eq, Structural)]
pub struct KeyModifiers {
    pub control: bool,
    pub alt: bool,
    pub shift: bool,
}

/// A key that was pressed or released.
#[derive(Clone, Copy, Debug, PartialEq, Eq, Structural)]
pub struct KeyEvent {
    pub code: KeyCode,
    pub modifiers: KeyModifiers,
    pub released: bool,
}

impl KeyEvent {
    /// A key pressed together with modifiers.
    pub fn new(code: KeyCode, modifiers: KeyModifiers) -> (r: Self)
        ensures
            r == (KeyEvent { code, modifiers, released: false }),
    {
        KeyEvent { code, modifiers, released: false }
    }
}

impl KeyModifiers {
    /// No key held.
    pub fn none() -> (r: Self)
        ensures
            r == (KeyModifiers { control: false, alt: false, shift: false }),
    {
        KeyModifiers { control: false, alt: false, shift: false }
    }
}

/// A cell of the screen.
#[derive(Clone, Copy, Debug, PartialEq, Eq, Structural)]
pub struct PointerPosition {
    pub x: u16,
    pub y: u16,
}

#[derive(Clone, Copy, Debug, PartialEq, Eq, Structural)]
pub enum PointerButton {
    Primary,
    Secondary,
    Middle,
}

#[derive(Clone, Copy, Debug, PartialEq, Eq, Structural)]
pub enum PointerAction {
    Move,
    Press,
    Release,
    Cancel,
    /// A turn of the wheel; a positive `delta_y` is downwards.
    Scroll { delta_x: i16, delta_y: i16 },
}

#[derive(Clone, Copy, Debug, PartialEq, Eq, Structural)]
pub struct PointerEvent {
    /// A cancellation because the focus was lost need not have a position.
    pub position: Option<PointerPosition>,
    pub button: Option<PointerButton>,
    pub action: PointerAction,
}

impl PointerEvent {
    /// The end of a gesture without a result.
    pub fn cancel() -> (r: Self)
        ensures
            r == (PointerEvent { position: None, button: None, action: PointerAction::Cancel }),
    {
        PointerEvent { position: None, button: None, action: PointerAction::Cancel }
    }
}

} // verus!
