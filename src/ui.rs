use vstd::prelude::*;

verus! {

/// A half-open rectangle of cells: columns `[x, x + width)`, rows `[y, y + height)`.
#[derive(Debug, Clone, Copy, Default, Hash, PartialEq, Eq, Structural, PartialOrd, Ord)]
pub struct Rect {
    pub x: u32,
    pub y: u32,
    pub width: u32,
    pub height: u32,
}

impl Rect {
    /// Whether the cell at column `col`, row `row` lies inside the rectangle.
    pub open spec fn covers(self, col: int, row: int) -> bool {
        &&& self.x <= col < self.x + self.width
        &&& self.y <= row < self.y + self.height
    }
}

/// How text that does not fit on one row of its rectangle is continued.
#[derive(Debug, Clone, Copy, PartialEq, Eq, Structural)]
pub enum Overflow {
    /// Continue on the next row after the last column.
    Char,
    /// Break at word boundaries; not supported by the canvas.
    Word,
}

} // verus!
