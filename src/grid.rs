use vstd::prelude::*;
use vstd::arithmetic::div_mod::{
    lemma_fundamental_div_mod, lemma_fundamental_div_mod_converse, lemma_remainder_lower,
    lemma_remainder_upper,
};
use vstd::arithmetic::mul::lemma_mul_inequality;
use crossterm::style::{Attribute, Color};
use crate::buffer::Patch;
use crate::style::Cell;
use crate::ui::Rect;

verus! {

/// A change that a fill makes to each cell it covers.
#[derive(Debug, Clone, Copy, PartialEq, Eq)]
pub enum Paint {
    /// Set the background color.
    Background(Color),
    /// Set the foreground color.
    Foreground(Color),
    /// Set the text attribute.
    Emphasis(Attribute),
    /// Replace the character by a space, keeping colors and attribute.
    Erase,
}

impl Paint {
    pub open spec fn apply(self, c: Cell) -> Cell {
        match self {
            Paint::Background(color) => Cell { bg: color, ..c },
            Paint::Foreground(color) => Cell { fg: color, ..c },
            Paint::Emphasis(attr) => Cell { attribute: Some(attr), ..c },
            Paint::Erase => Cell { ch: ' ', ..c },
        }
    }
}

/// The mathematical model of a canvas: its dimensions and its cells in
/// row-major order, the cell at column `x`, row `y` standing at `y * width + x`.
pub struct Grid {
    pub width: nat,
    pub height: nat,
    pub cells: Seq<Cell>,
}

impl Grid {
    pub open spec fn wf(self) -> bool {
        &&& self.cells.len() == self.width * self.height
        &&& self.width <= u32::MAX
        &&& self.height <= u32::MAX
    }

    pub open spec fn in_bounds(self, col: int, row: int) -> bool {
        0 <= col < self.width && 0 <= row < self.height
    }

    pub open spec fn index_of(self, col: int, row: int) -> int {
        row * self.width + col
    }

    pub open spec fn col_of(self, i: int) -> int {
        i % (self.width as int)
    }

    pub open spec fn row_of(self, i: int) -> int {
        i / (self.width as int)
    }

    /// The cell at column `col`, row `row`.
    pub open spec fn at(self, col: int, row: int) -> Cell {
        self.cells[self.index_of(col, row)]
    }

    /// A grid of the given size in which every cell is blank.
    pub open spec fn blank(width: nat, height: nat) -> Grid {
        Grid { width, height, cells: Seq::new(width * height, |i: int| Cell::blank()) }
    }

    /// Applies `paint` to every cell inside `rect`; the others keep their content.
    pub open spec fn fill(self, rect: Rect, paint: Paint) -> Grid {
        Grid {
            cells: Seq::new(
                self.cells.len(),
                |i: int|
                    if rect.covers(self.col_of(i), self.row_of(i)) {
                        paint.apply(self.cells[i])
                    } else {
                        self.cells[i]
                    },
            ),
            ..self
        }
    }

    /// Sets the character of the cell at `col`, `row`; outside the grid, nothing changes.
    pub open spec fn put_char(self, col: int, row: int, ch: char) -> Grid {
        if self.in_bounds(col, row) {
            let i = self.index_of(col, row);
            Grid { cells: self.cells.update(i, Cell { ch, ..self.cells[i] }), ..self }
        } else {
            self
        }
    }

    /// Places the characters of `text` in `rect`, left to right from its top-left
    /// corner, continuing on the next row of `rect` after its last column and
    /// after each line break. A line break takes no cell; characters that fall
    /// below `rect`, or outside the grid, are dropped.
    pub open spec fn typed(self, rect: Rect, text: Seq<char>) -> Grid
        decreases text.len(),
    {
        if text.len() == 0 {
            self
        } else {
            let before = text.drop_last();
            let g = self.typed(rect, before);
            let (col, row) = cursor(before, rect.width as nat);
            let (gc, gr) = glyph_at(col, row, rect.width as nat);
            if text.last() != '\n' && gc < rect.width && gr < rect.height {
                g.put_char(rect.x + gc, rect.y + gr, text.last())
            } else {
                g
            }
        }
    }

    /// Erases every character inside `rect`, then places `text` there.
    pub open spec fn write_text(self, rect: Rect, text: Seq<char>) -> Grid {
        self.fill(rect, Paint::Erase).typed(rect, text)
    }
}

impl Grid {
    /// The patch that reports the cell at index `i` with its coordinates.
    pub open spec fn patch_at(self, i: int) -> Patch {
        Patch { x: self.col_of(i) as u32, y: self.row_of(i) as u32, data: self.cells[i] }
    }
}

/// The indices below `n` at which `a` and `b` hold different cells, ascending.
pub open spec fn changed_below(a: Seq<Cell>, b: Seq<Cell>, n: nat) -> Seq<int>
    decreases n,
{
    if n == 0 {
        seq![]
    } else {
        let earlier = changed_below(a, b, (n - 1) as nat);
        if a[n - 1] != b[n - 1] {
            earlier.push(n - 1)
        } else {
            earlier
        }
    }
}

/// No index differs between a sequence of cells and itself.
pub proof fn lemma_changed_below_same(a: Seq<Cell>, n: nat)
    ensures
        changed_below(a, a, n) == Seq::<int>::empty(),
    decreases n,
{
    if n > 0 {
        lemma_changed_below_same(a, (n - 1) as nat);
    }
}

/// The indices below `n` where `a` and `b` differ are listed once each, ascending.
pub proof fn lemma_changed_below(a: Seq<Cell>, b: Seq<Cell>, n: nat)
    requires
        n <= a.len(),
        n <= b.len(),
    ensures
        forall|k: int|
            0 <= k < changed_below(a, b, n).len() ==> {
                let i = #[trigger] changed_below(a, b, n)[k];
                0 <= i < n && a[i] != b[i]
            },
        forall|j: int, k: int|
            0 <= j < k < changed_below(a, b, n).len() ==> changed_below(a, b, n)[j]
                < changed_below(a, b, n)[k],
        forall|i: int| 0 <= i < n && a[i] != b[i] ==> #[trigger] changed_below(a, b, n).contains(i),
    decreases n,
{
    if n > 0 {
        lemma_changed_below(a, b, (n - 1) as nat);
        let earlier = changed_below(a, b, (n - 1) as nat);
        if a[n - 1] != b[n - 1] {
            assert forall|i: int| 0 <= i < n && a[i] != b[i] implies #[trigger] earlier.push(n - 1).contains(i) by {
                if i < n - 1 {
                    assert(earlier.contains(i));
                    let k = choose|k: int| 0 <= k < earlier.len() && earlier[k] == i;
                    assert(earlier.push(n - 1)[k] == i);
                } else {
                    assert(earlier.push(n - 1)[earlier.len() as int] == i);
                }
            }
        }
    }
}

/// The patches that bring a terminal showing `prev` to `cur`: every cell of
/// `cur` when the two differ in cell count, else the cells that differ, in
/// row-major order.
pub open spec fn diff(cur: Grid, prev: Grid) -> Seq<Patch> {
    if cur.cells.len() != prev.cells.len() {
        Seq::new(cur.cells.len(), |i: int| cur.patch_at(i))
    } else {
        changed_below(cur.cells, prev.cells, cur.cells.len()).map_values(|i: int| cur.patch_at(i))
    }
}

/// Where the next character goes when the write position is column `col`,
/// row `row` of a text area `width` columns wide.
pub open spec fn glyph_at(col: nat, row: nat, width: nat) -> (nat, nat) {
    if col < width {
        (col, row)
    } else {
        (0, row + 1)
    }
}

/// The write position, relative to the text area, after `text` has been placed.
pub open spec fn cursor(text: Seq<char>, width: nat) -> (nat, nat)
    decreases text.len(),
{
    if text.len() == 0 {
        (0, 0)
    } else {
        let (col, row) = cursor(text.drop_last(), width);
        if text.last() == '\n' {
            (0, row + 1)
        } else {
            let (gc, gr) = glyph_at(col, row, width);
            (gc + 1, gr)
        }
    }
}

/// Index and coordinates agree for every cell of a grid `width` columns wide
/// and `height` rows high.
pub proof fn lemma_index_coords(i: int, width: int, height: int)
    requires
        0 <= width,
        0 <= i < width * height,
    ensures
        width > 0,
        0 <= i % width < width,
        0 <= i / width < height,
        (i / width) * width + i % width == i,
{
    if width == 0 {
        assert(width * height == 0);
    }
    lemma_fundamental_div_mod(i, width);
    lemma_remainder_lower(i, width);
    lemma_remainder_upper(i, width);
    assert(0 <= i / width < height) by (nonlinear_arith)
        requires
            width > 0,
            i == width * (i / width) + i % width,
            0 <= i % width < width,
            0 <= i < width * height,
    ;
    assert((i / width) * width == width * (i / width)) by (nonlinear_arith);
}

/// The cell at column `col`, row `row` stands at an index inside the grid from
/// which both coordinates come back.
pub proof fn lemma_coords_index(col: int, row: int, width: int, height: int)
    requires
        0 <= col < width,
        0 <= row < height,
    ensures
        0 <= row * width + col < width * height,
        (row * width + col) % width == col,
        (row * width + col) / width == row,
{
    lemma_mul_inequality(row + 1, height, width);
    assert(row * width + col < width * height) by (nonlinear_arith)
        requires
            (row + 1) * width <= height * width,
            col < width,
    ;
    assert(0 <= row * width) by (nonlinear_arith)
        requires
            0 <= row,
            0 <= width,
    ;
    lemma_fundamental_div_mod_converse(row * width + col, width, row, col);
}

} // verus!
