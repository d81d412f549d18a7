//! Pixel commands: one cell of the display set to one colour.

use vstd::prelude::*;
use crate::cell::Cell;

verus! {

/// A colour as three channel bytes.
#[derive(Clone, Copy, Debug, PartialEq, Eq, Structural)]
pub struct Rgb {
    pub r: u8,
    pub g: u8,
    pub b: u8,
}

/// The command "set the cell at (`x`, `y`) to the colour (`r`, `g`, `b`)".
///
/// The field names are the keys of the wire message.
#[derive(Clone, Copy, Debug, PartialEq, Eq, Structural)]
#[must_use]
pub struct Pixel {
    pub x: u8,
    pub y: u8,
    pub r: u8,
    pub g: u8,
    pub b: u8,
}

impl Pixel {
    /// The command that sets `cell` to `color`.
    pub open spec fn lit(cell: Cell, color: Rgb) -> Pixel {
        Pixel { x: cell.x, y: cell.y, r: color.r, g: color.g, b: color.b }
    }

    /// The command that switches `cell` off.
    pub open spec fn dark(cell: Cell) -> Pixel {
        Pixel { x: cell.x, y: cell.y, r: 0, g: 0, b: 0 }
    }

    #[must_use]
    pub fn new(x: u8, y: u8, red: u8, green: u8, blue: u8) -> (pixel: Pixel)
        ensures
            pixel == (Pixel { x, y, r: red, g: green, b: blue }),
    {
        Pixel { x, y, r: red, g: green, b: blue }
    }

    /// A pixel with all three channels at zero.
    #[must_use]
    pub fn new_black(x: u8, y: u8) -> (pixel: Pixel)
        ensures
            pixel == Pixel::dark(Cell { x, y }),
    {
        Pixel::new(x, y, 0, 0, 0)
    }

    /// A pixel that sets `cell` to `color`.
    #[must_use]
    pub fn new_lit(cell: Cell, color: Rgb) -> (pixel: Pixel)
        ensures
            pixel == Pixel::lit(cell, color),
    {
        Pixel::new(cell.x, cell.y, color.r, color.g, color.b)
    }
}

} // verus!
