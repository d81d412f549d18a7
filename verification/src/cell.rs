//! Positions on the display grid.

use vstd::prelude::*;

verus! {

/// One addressable position of the display: column `x`, row `y`.
#[derive(Clone, Copy, Debug, PartialEq, Eq, Structural)]
pub struct Cell {
    pub x: u8,
    pub y: u8,
}

impl Cell {
    /// Whether the cell lies on a grid of `width` columns and `height` rows.
    pub open spec fn in_grid(self, width: u8, height: u8) -> bool {
        self.x < width && self.y < height
    }

    pub fn new(x: u8, y: u8) -> (cell: Cell)
        ensures
            cell == (Cell { x, y }),
    {
        Cell { x, y }
    }

    /// Tells whether the cell lies on a grid of `width` columns and `height` rows.
    pub fn is_in_grid(&self, width: u8, height: u8) -> (inside: bool)
        ensures
            inside == self.in_grid(width, height),
    {
        self.x < width && self.y < height
    }
}

} // verus!
