//! Input events as the table core sees them, and the status it answers with.
//!
//! The host translates its raw terminal events into these plain values; the
//! table never looks at the terminal itself.

use vstd::prelude::*;

verus! {

/// Whether the table consumed an input event (`Captured`) or declined it
/// (`Ignored`), letting an enclosing event router offer it to a sibling.
#[derive(Clone, Copy, Debug, PartialEq, Eq, Structural)]
pub enum Status {
    Captured,
    Ignored,
}

/// Which mouse button went down.
#[derive(Clone, Copy, Debug, PartialEq, Eq, Structural)]
pub enum MouseButton {
    Left,
    Right,
    Middle,
}

/// The kinds of mouse event the table reacts to; everything else is `Other`.
#[derive(Clone, Copy, Debug, PartialEq, Eq, Structural)]
pub enum MouseEventKind {
    Down(MouseButton),
    ScrollDown,
    ScrollUp,
    Other,
}

/// A mouse event in absolute terminal cell coordinates.
#[derive(Clone, Copy, Debug, PartialEq, Eq, Structural)]
pub struct MouseEvent {
    pub kind: MouseEventKind,
    pub row: u16,
    pub column: u16,
}

/// An input event handed to the table. Keyboard handling is delegated
/// upward, so the table only needs to know that a key event occurred.
#[derive(Clone, Copy, Debug, PartialEq, Eq, Structural)]
pub enum Event {
    Keyboard,
    Mouse(MouseEvent),
}

/// A rectangle of terminal cells: origin plus size.
#[derive(Clone, Copy, Debug, PartialEq, Eq, Structural)]
pub struct Rect {
    pub x: u16,
    pub y: u16,
    pub width: u16,
    pub height: u16,
}

impl Rect {
    /// The row of the rectangle's top edge.
    pub fn top(&self) -> (r: u16)
        ensures
            r == self.y,
    {
        self.y
    }
}

impl MouseEvent {
    /// Whether this event's cell lies inside `bounds`.
    pub open spec fn spec_intersects(self, bounds: Rect) -> bool {
        &&& bounds.x <= self.column < bounds.x + bounds.width
        &&& bounds.y <= self.row < bounds.y + bounds.height
    }

    /// Hit test against a rectangle of terminal cells.
    pub fn does_mouse_intersect_bounds(&self, bounds: Rect) -> (r: bool)
        ensures
            r == self.spec_intersects(bounds),
    {
        self.column >= bounds.x && (self.column as u32) < bounds.x as u32 + bounds.width as u32
            && self.row >= bounds.y && (self.row as u32) < bounds.y as u32 + bounds.height as u32
    }
}

} // verus!
