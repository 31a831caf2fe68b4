//! Plain values for the screen areas and widget states the dialogs keep:
//! a rectangle of terminal cells and a checkbox.
use vstd::prelude::*;

verus! {

/// A rectangle of terminal cells: its top-left corner and its size.
#[derive(Debug, Clone, Copy, PartialEq, Eq, Structural)]
pub struct Rect {
    pub x: u16,
    pub y: u16,
    pub width: u16,
    pub height: u16,
}

impl Rect {
    /// A rectangle at `(x, y)`; its size is cut so that it ends within the
    /// coordinate range.
    pub fn new(x: u16, y: u16, width: u16, height: u16) -> (r: Rect)
        ensures
            r.x == x,
            r.y == y,
            r.width == if x + width <= u16::MAX { width as int } else { u16::MAX - x },
            r.height == if y + height <= u16::MAX { height as int } else { u16::MAX - y },
    {
        let w = if width <= u16::MAX - x { width } else { u16::MAX - x };
        let h = if height <= u16::MAX - y { height } else { u16::MAX - y };
        Rect { x, y, width: w, height: h }
    }

    /// The cell `(col, row)` lies in the rectangle.
    pub open spec fn contains_spec(self, col: int, row: int) -> bool {
        &&& self.x <= col < self.x + self.width
        &&& self.y <= row < self.y + self.height
    }

    /// Whether the cell `(col, row)` lies in the rectangle.
    pub fn contains(&self, col: u16, row: u16) -> (r: bool)
        ensures
            r == self.contains_spec(col as int, row as int),
    {
        let c = col as u32;
        let w = row as u32;
        c >= self.x as u32 && c < self.x as u32 + self.width as u32 && w >= self.y as u32 && w
            < self.y as u32 + self.height as u32
    }
}

/// The state of a checkbox: checked, focused, and whether it can be toggled.
#[derive(Debug, Clone, Copy, PartialEq, Eq, Structural)]
pub struct CheckBoxState {
    pub checked: bool,
    pub focused: bool,
    pub enabled: bool,
}

impl CheckBoxState {
    /// An enabled, unfocused checkbox.
    pub fn new(checked: bool) -> (r: CheckBoxState)
        ensures
            r == (CheckBoxState { checked, focused: false, enabled: true }),
    {
        CheckBoxState { checked, focused: false, enabled: true }
    }

    /// Flips the checkbox; does nothing when it is disabled.
    pub fn toggle(&mut self)
        ensures
            final(self).checked == (if old(self).enabled { !old(self).checked } else { old(self).checked }),
            final(self).focused == old(self).focused,
            final(self).enabled == old(self).enabled,
    {
        if self.enabled {
            self.checked = !self.checked;
        }
    }

    /// Sets whether the checkbox has the focus.
    pub fn set_focused(&mut self, focused: bool)
        ensures
            *final(self) == (CheckBoxState { focused, ..*old(self) }),
    {
        self.focused = focused;
    }
}

} // verus!
