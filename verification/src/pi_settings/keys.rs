//! Keyboard and mouse events as the settings panel sees them.
use vstd::prelude::*;

verus! {

/// A key.
#[derive(Debug, Clone, Copy, PartialEq, Eq, Structural)]
pub enum KeyCode {
    Char(char),
    Enter,
    Esc,
    Backspace,
    Delete,
    Left,
    Right,
    Up,
    Down,
    Home,
    End,
    PageUp,
    PageDown,
    Tab,
    BackTab,
    /// A function key, by number.
    F(u8),
    /// Any key the panel has no use for.
    Other,
}

/// Modifier keys held with a key.
#[derive(Debug, Clone, Copy, PartialEq, Eq, Structural)]
pub struct KeyModifiers {
    pub control: bool,
    pub alt: bool,
    pub shift: bool,
    pub super_key: bool,
}

impl KeyModifiers {
    pub open spec fn spec_is_empty(&self) -> bool {
        !self.control && !self.alt && !self.shift && !self.super_key
    }

    /// No modifier held.
    pub fn none() -> (r: KeyModifiers)
        ensures
            r.spec_is_empty(),
    {
        KeyModifiers { control: false, alt: false, shift: false, super_key: false }
    }

    /// Whether no modifier is held.
    pub fn is_empty(&self) -> (r: bool)
        ensures
            r == self.spec_is_empty(),
    {
        !self.control && !self.alt && !self.shift && !self.super_key
    }

    pub open spec fn spec_is_control_only(&self) -> bool {
        self.control && !self.alt && !self.shift && !self.super_key
    }

    /// Whether Control, and only Control, is held.
    pub fn is_control_only(&self) -> (r: bool)
        ensures
            r == self.spec_is_control_only(),
    {
        self.control && !self.alt && !self.shift && !self.super_key
    }
}

/// A key press.
#[derive(Debug, Clone, Copy, PartialEq, Eq, Structural)]
pub struct KeyPress {
    pub code: KeyCode,
    pub modifiers: KeyModifiers,
}

impl KeyPress {
    /// `code` with no modifier.
    pub fn plain(code: KeyCode) -> (r: KeyPress)
        ensures
            r.code == code,
            r.modifiers.spec_is_empty(),
    {
        KeyPress { code, modifiers: KeyModifiers::none() }
    }
}

/// Mouse buttons.
#[derive(Debug, Clone, Copy, PartialEq, Eq, Structural)]
pub enum MouseButton {
    Left,
    Right,
    Middle,
}

/// What the mouse did.
#[derive(Debug, Clone, Copy, PartialEq, Eq, Structural)]
pub enum MouseKind {
    Down(MouseButton),
    Up(MouseButton),
    Drag(MouseButton),
    Moved,
    ScrollDown,
    ScrollUp,
    ScrollLeft,
    ScrollRight,
}

/// A screen rectangle in cells.
#[derive(Debug, Clone, Copy, PartialEq, Eq, Structural)]
pub struct Rect {
    pub x: u16,
    pub y: u16,
    pub width: u16,
    pub height: u16,
}

impl Rect {
    pub open spec fn spec_zero() -> Rect {
        Rect { x: 0, y: 0, width: 0, height: 0 }
    }

    /// The empty rectangle at the origin.
    pub fn zero() -> (r: Rect)
        ensures
            r == (Rect { x: 0, y: 0, width: 0, height: 0 }),
    {
        Rect { x: 0, y: 0, width: 0, height: 0 }
    }

    pub open spec fn spec_contains(&self, column: u16, row: u16) -> bool {
        &&& self.width > 0
        &&& self.height > 0
        &&& self.x <= column < self.x + self.width
        &&& self.y <= row < self.y + self.height
    }

    /// Whether the cell at `column`, `row` lies inside.
    pub fn contains(&self, column: u16, row: u16) -> (r: bool)
        ensures
            r == self.spec_contains(column, row),
    {
        self.width > 0 && self.height > 0 && column >= self.x && (column as u32) < (self.x as u32)
            + (self.width as u32) && row >= self.y && (row as u32) < (self.y as u32)
            + (self.height as u32)
    }
}

impl Default for Rect {
    fn default() -> (r: Rect)
        ensures
            r == (Rect { x: 0, y: 0, width: 0, height: 0 }),
    {
        Rect::zero()
    }
}

} // verus!
