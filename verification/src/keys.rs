//! The plain input model the engine consumes: key presses, mouse scrolls,
//! and screen areas for hit testing. The surrounding program translates
//! real terminal events into these.

use vstd::prelude::*;

verus! {

/// A key, reduced to what the engine reacts to.
#[derive(Clone, Copy, Debug, PartialEq, Eq, Structural)]
pub enum Key {
    Char(char),
    Enter,
    Esc,
    Backspace,
    Tab,
    Up,
    Down,
    Left,
    Right,
    Other,
}

/// One key press with its modifiers.
#[derive(Clone, Copy, Debug, PartialEq, Eq, Structural)]
pub struct KeyPress {
    pub code: Key,
    pub shift: bool,
    pub ctrl: bool,
}

impl KeyPress {
    pub fn plain(code: Key) -> (r: Self)
        ensures
            r == (KeyPress { code, shift: false, ctrl: false }),
    {
        KeyPress { code, shift: false, ctrl: false }
    }
}

/// A mouse event, reduced to scrolling.
#[derive(Clone, Copy, Debug, PartialEq, Eq, Structural)]
pub enum MouseKind {
    ScrollUp,
    ScrollDown,
    Other,
}

/// One mouse event at a terminal cell.
#[derive(Clone, Copy, Debug, PartialEq, Eq, Structural)]
pub struct MouseInput {
    pub kind: MouseKind,
    pub row: u16,
    pub column: u16,
}

/// A rectangle of terminal cells.
#[derive(Clone, Copy, Debug, PartialEq, Eq, Structural)]
pub struct Area {
    pub x: u16,
    pub y: u16,
    pub width: u16,
    pub height: u16,
}

impl Area {
    pub open spec fn spec_contains(self, row: u16, column: u16) -> bool {
        &&& row >= self.y
        &&& (row as int) < self.y + self.height
        &&& column >= self.x
        &&& (column as int) < self.x + self.width
    }

    pub fn empty() -> (r: Self)
        ensures
            r == (Area { x: 0u16, y: 0u16, width: 0u16, height: 0u16 }),
    {
        Area { x: 0, y: 0, width: 0, height: 0 }
    }

    /// Whether the cell lies inside the rectangle.
    pub fn contains(&self, row: u16, column: u16) -> (r: bool)
        ensures
            r == self.spec_contains(row, column),
    {
        row >= self.y && (row as u32) < (self.y as u32) + (self.height as u32) && column >= self.x
            && (column as u32) < (self.x as u32) + (self.width as u32)
    }
}

} // verus!
