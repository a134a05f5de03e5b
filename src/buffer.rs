use vstd::prelude::*;
use crossterm::style::{Attribute, Color};
use crate::grid::{Grid, Paint, changed_below, cursor, diff, lemma_coords_index, lemma_index_coords};
use crate::style::Cell;
use crate::ui::{Overflow, Rect};

verus! {

/// One changed cell: its coordinates and its new content.
#[derive(Debug, Clone, Copy, PartialEq, Eq)]
pub struct Patch {
    pub x: u32,
    pub y: u32,
    pub data: Cell,
}

/// Why text could not be written.
#[derive(Debug, Clone, Copy, PartialEq, Eq, Structural)]
pub enum TextError {
    /// The overflow policy is not supported.
    UnsupportedOverflow,
}

impl Paint {
    pub fn apply_to(&self, c: Cell) -> (r: Cell)
        ensures
            r == self.apply(c),
    {
        match *self {
            Paint::Background(color) => Cell { bg: color, ..c },
            Paint::Foreground(color) => Cell { fg: color, ..c },
            Paint::Emphasis(attr) => Cell { attribute: Some(attr), ..c },
            Paint::Erase => Cell { ch: ' ', ..c },
        }
    }
}

/// A canvas: a fixed-size grid of cells, stored row by row.
#[derive(Debug)]
pub struct Buffer {
    data: Vec<Cell>,
    screen: Rect,
}

impl View for Buffer {
    type V = Grid;

    closed spec fn view(&self) -> Grid {
        Grid {
            width: self.screen.width as nat,
            height: self.screen.height as nat,
            cells: self.data@,
        }
    }
}

impl Buffer {
    pub open spec fn wf(&self) -> bool {
        self@.wf()
    }

    /// A blank canvas of `rect`'s width and height.
    pub fn new(rect: Rect) -> (b: Buffer)
        requires
            rect.width * rect.height <= usize::MAX,
        ensures
            b.wf(),
            b@ == Grid::blank(rect.width as nat, rect.height as nat),
    {
        let n = (rect.width as usize) * (rect.height as usize);
        let blank = Cell::default();
        let mut data: Vec<Cell> = Vec::new();
        let mut i: usize = 0;
        while i < n
            invariant
                i <= n,
                blank == Cell::blank(),
                data@ == Seq::new(i as nat, |k: int| Cell::blank()),
            decreases n - i,
        {
            data.push(blank);
            i = i + 1;
            assert(data@ =~= Seq::new(i as nat, |k: int| Cell::blank()));
        }
        let b = Buffer { data, screen: rect };
        assert(b@.cells =~= Grid::blank(rect.width as nat, rect.height as nat).cells);
        b
    }

    /// A copy of the canvas.
    pub fn snapshot(&self) -> (r: Buffer)
        ensures
            r@ == self@,
    {
        Buffer { data: self.data.clone(), screen: self.screen }
    }

    /// The width of the canvas, in cells.
    pub fn width(&self) -> (r: u32)
        ensures
            r == self@.width,
    {
        self.screen.width
    }

    /// The height of the canvas, in cells.
    pub fn height(&self) -> (r: u32)
        ensures
            r == self@.height,
    {
        self.screen.height
    }

    /// The cell at column `x`, row `y`, or `None` outside the canvas.
    pub fn get(&self, x: usize, y: usize) -> (r: Option<Cell>)
        requires
            self.wf(),
        ensures
            r == (if self@.in_bounds(x as int, y as int) {
                Some(self@.at(x as int, y as int))
            } else {
                None
            }),
    {
        let n = self.data.len();
        if x < self.screen.width as usize && y < self.screen.height as usize {
            proof {
                lemma_coords_index(x as int, y as int, self@.width as int, self@.height as int);
            }
            Some(self.data[y * (self.screen.width as usize) + x])
        } else {
            None
        }
    }

    /// Sets the character of the cell at column `col`, row `row`, if it is on the canvas.
    fn put_char(&mut self, col: u64, row: u64, ch: char)
        requires
            old(self).wf(),
        ensures
            final(self).wf(),
            final(self)@ == old(self)@.put_char(col as int, row as int, ch),
    {
        let n = self.data.len();
        if col < self.screen.width as u64 && row < self.screen.height as u64 {
            proof {
                lemma_coords_index(col as int, row as int, self@.width as int, self@.height as int);
            }
            let i = (row as usize) * (self.screen.width as usize) + (col as usize);
            let c = self.data[i];
            self.data.set(i, Cell { ch, ..c });
        }
    }

    /// Applies `paint` to every cell of the canvas inside `rect`; the part of
    /// `rect` outside the canvas is ignored.
    pub fn fill(&mut self, rect: Rect, paint: Paint)
        requires
            old(self).wf(),
        ensures
            final(self).wf(),
            final(self)@ == old(self)@.fill(rect, paint),
    {
        let ghost start = self@;
        let ghost target = start.fill(rect, paint);
        let w = self.screen.width as usize;
        let n = self.data.len();
        let mut i: usize = 0;
        while i < n
            invariant
                self@.width == start.width,
                self@.height == start.height,
                start.wf(),
                target == start.fill(rect, paint),
                n == start.cells.len(),
                w == start.width,
                i <= n,
                self.data@.len() == n,
                forall|k: int| 0 <= k < i ==> self.data@[k] == target.cells[k],
                forall|k: int| i <= k < n ==> self.data@[k] == start.cells[k],
            decreases n - i,
        {
            proof {
                lemma_index_coords(i as int, start.width as int, start.height as int);
            }
            let col = (i % w) as u64;
            let row = (i / w) as u64;
            if rect.x as u64 <= col && col < rect.x as u64 + rect.width as u64 && rect.y as u64 <= row
                && row < rect.y as u64 + rect.height as u64 {
                let c = self.data[i];
                self.data.set(i, paint.apply_to(c));
            }
            i = i + 1;
        }
        assert(self.data@ =~= target.cells);
    }

    /// Sets the background color of every cell inside `rect`.
    pub fn fill_background(&mut self, rect: Rect, color: Color)
        requires
            old(self).wf(),
        ensures
            final(self).wf(),
            final(self)@ == old(self)@.fill(rect, Paint::Background(color)),
    {
        self.fill(rect, Paint::Background(color))
    }

    /// Sets the foreground color of every cell inside `rect`.
    pub fn fill_foreground(&mut self, rect: Rect, color: Color)
        requires
            old(self).wf(),
        ensures
            final(self).wf(),
            final(self)@ == old(self)@.fill(rect, Paint::Foreground(color)),
    {
        self.fill(rect, Paint::Foreground(color))
    }

    /// Sets the text attribute of every cell inside `rect`.
    pub fn fill_attribute(&mut self, rect: Rect, attribute: Attribute)
        requires
            old(self).wf(),
        ensures
            final(self).wf(),
            final(self)@ == old(self)@.fill(rect, Paint::Emphasis(attribute)),
    {
        self.fill(rect, Paint::Emphasis(attribute))
    }

    /// Erases every character inside `rect`, then writes `text` into it from its
    /// top-left corner. With `Overflow::Char` the text continues on the next row
    /// of `rect` once a row's columns are used up and after each line break,
    /// which takes no cell; what falls below `rect` is dropped. Word wrapping is
    /// not supported: `Overflow::Word` leaves the canvas as it is and fails.
    pub fn write_text(&mut self, rect: Rect, text: &str, overflow: Overflow) -> (r: Result<(), TextError>)
        requires
            old(self).wf(),
        ensures
            final(self).wf(),
            final(self)@.width == old(self)@.width,
            final(self)@.height == old(self)@.height,
            overflow == Overflow::Char ==> r is Ok && final(self)@ == old(self)@.write_text(rect, text@),
            overflow == Overflow::Word ==> r == Err::<(), TextError>(TextError::UnsupportedOverflow)
                && final(self)@ == old(self)@,
    {
        if overflow == Overflow::Word {
            return Err(TextError::UnsupportedOverflow);
        }
        self.fill(rect, Paint::Erase);
        let ghost start = self@;
        let w = rect.width as u64;
        let h = rect.height as u64;
        let mut col: u64 = 0;
        // The row, held at `h` once the text has run below `rect`.
        let mut row: u64 = 0;
        for ch in it: text.chars()
            invariant
                self.wf(),
                start.wf(),
                self@.width == start.width,
                self@.height == start.height,
                w == rect.width,
                h == rect.height,
                it.seq() == text@,
                self@ == start.typed(rect, text@.take(it.index() as int)),
                col == cursor(text@.take(it.index() as int), rect.width as nat).0,
                col <= w + 1,
                row <= h,
                row == h || row == cursor(text@.take(it.index() as int), rect.width as nat).1,
                row == h ==> cursor(text@.take(it.index() as int), rect.width as nat).1 >= h,
        {
            let ghost before = text@.take(it.index() as int);
            proof {
                assert(text@.take(it.index() + 1).drop_last() =~= before);
            }
            if ch == '\n' {
                col = 0;
                if row < h {
                    row = row + 1;
                }
            } else {
                let (gc, gr) = if col < w {
                    (col, row)
                } else if row < h {
                    (0, row + 1)
                } else {
                    (0, row)
                };
                if gc < w && gr < h {
                    self.put_char(rect.x as u64 + gc, rect.y as u64 + gr, ch);
                }
                col = gc + 1;
                row = gr;
            }
        }
        assert(text@.take(text@.len() as int) =~= text@);
        Ok(())
    }

    /// The patches that bring a terminal showing `other` to this canvas: every
    /// cell when the two differ in cell count, else exactly the cells that
    /// differ; in row-major order either way.
    pub fn diff(&self, other: &Buffer) -> (r: Vec<Patch>)
        requires
            self.wf(),
        ensures
            r@ == diff(self@, other@),
    {
        let ghost cur = self@;
        let n = self.data.len();
        let w = self.screen.width as usize;
        let mut out: Vec<Patch> = Vec::new();
        if n != other.data.len() {
            let mut i: usize = 0;
            while i < n
                invariant
                    cur == self@,
                    cur.wf(),
                    n == cur.cells.len(),
                    w == cur.width,
                    i <= n,
                    out@ == Seq::new(i as nat, |k: int| cur.patch_at(k)),
                decreases n - i,
            {
                proof {
                    lemma_index_coords(i as int, cur.width as int, cur.height as int);
                }
                out.push(Patch { x: (i % w) as u32, y: (i / w) as u32, data: self.data[i] });
                i = i + 1;
                assert(out@ =~= Seq::new(i as nat, |k: int| cur.patch_at(k)));
            }
        } else {
            let mut i: usize = 0;
            while i < n
                invariant
                    cur == self@,
                    cur.wf(),
                    n == cur.cells.len(),
                    n == other@.cells.len(),
                    w == cur.width,
                    i <= n,
                    out@ == changed_below(cur.cells, other@.cells, i as nat).map_values(
                        |k: int| cur.patch_at(k),
                    ),
                decreases n - i,
            {
                proof {
                    lemma_index_coords(i as int, cur.width as int, cur.height as int);
                }
                let ghost earlier = changed_below(cur.cells, other@.cells, i as nat);
                if !self.data[i].same_as(&other.data[i]) {
                    out.push(Patch { x: (i % w) as u32, y: (i / w) as u32, data: self.data[i] });
                    assert(earlier.push(i as int).map_values(|k: int| cur.patch_at(k)) =~= earlier.map_values(
                        |k: int| cur.patch_at(k),
                    ).push(cur.patch_at(i as int)));
                }
                i = i + 1;
            }
        }
        out
    }
}

} // verus!
