//! Rectangular screen areas and the arithmetic of splitting them.

use vstd::prelude::*;

verus! {

/// A rectangle of terminal cells.
#[derive(Clone, Copy, Debug, PartialEq, Eq, Structural)]
pub struct Area {
    pub x: u16,
    pub y: u16,
    pub width: u16,
    pub height: u16,
}

impl Area {
    /// The empty area at the origin.
    pub open spec fn empty_spec() -> Area {
        Area { x: 0, y: 0, width: 0, height: 0 }
    }

    /// The empty area at the origin.
    pub fn empty() -> (r: Area)
        ensures
            r == Area::empty_spec(),
    {
        Area { x: 0, y: 0, width: 0, height: 0 }
    }

    /// Whether the cell `(column, row)` lies inside the area.
    pub open spec fn holds(self, column: u16, row: u16) -> bool {
        &&& self.x <= column < self.x + self.width
        &&& self.y <= row < self.y + self.height
    }

    /// Whether the cell `(column, row)` lies inside the area.
    pub fn contains(&self, column: u16, row: u16) -> (r: bool)
        ensures
            r == self.holds(column, row),
    {
        column >= self.x && (column as u32) < self.x as u32 + self.width as u32 && row >= self.y
            && (row as u32) < self.y as u32 + self.height as u32
    }
}

} // verus!
