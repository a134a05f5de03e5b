use vstd::prelude::*;
use crossterm::style::Color;
use crate::buffer::Patch;
use crate::grid::{Grid, Paint, changed_below, diff, lemma_changed_below, lemma_changed_below_same, lemma_index_coords};
use crate::style::Cell;
use crate::ui::Rect;

verus! {

/// The indices at which two canvases of one size hold different cells.
pub open spec fn differing(a: Grid, b: Grid) -> Set<int> {
    Set::new(|i: int| 0 <= i < a.cells.len() && a.cells[i] != b.cells[i])
}

/// The index of the cell that a patch reports, on a canvas of `g`'s width.
pub open spec fn patch_index(g: Grid, p: Patch) -> int {
    g.index_of(p.x as int, p.y as int)
}

/// The patch for index `i` of a canvas reports that index and the cell there.
proof fn lemma_patch_at(g: Grid, i: int)
    requires
        g.wf(),
        0 <= i < g.cells.len(),
    ensures
        patch_index(g, g.patch_at(i)) == i,
        g.patch_at(i).data == g.cells[i],
        g.in_bounds(g.patch_at(i).x as int, g.patch_at(i).y as int),
{
    lemma_index_coords(i, g.width as int, g.height as int);
}

/// Comparing a canvas with an identical one yields no patch.
pub proof fn lemma_diff_identical(g: Grid)
    ensures
        diff(g, g) == Seq::<Patch>::empty(),
{
    lemma_changed_below_same(g.cells, g.cells.len());
    assert(diff(g, g) =~= Seq::<Patch>::empty());
}

/// When the two canvases differ in cell count, the patches report every cell
/// of the current one exactly once, the k-th patch reporting index k.
pub proof fn lemma_diff_full_repaint(cur: Grid, prev: Grid)
    requires
        cur.wf(),
        prev.wf(),
        cur.width * cur.height != prev.width * prev.height,
    ensures
        diff(cur, prev).len() == cur.width * cur.height,
        forall|k: int|
            0 <= k < diff(cur, prev).len() ==> patch_index(cur, #[trigger] diff(cur, prev)[k]) == k
                && diff(cur, prev)[k].data == cur.cells[k],
{
    assert forall|k: int| 0 <= k < diff(cur, prev).len() implies patch_index(cur, #[trigger] diff(cur, prev)[k]) == k
        && diff(cur, prev)[k].data == cur.cells[k] by {
        lemma_patch_at(cur, k);
    }
}

/// The patches are in strictly increasing index order.
pub proof fn lemma_diff_ordered(cur: Grid, prev: Grid)
    requires
        cur.wf(),
    ensures
        forall|j: int, k: int|
            0 <= j < k < diff(cur, prev).len() ==> patch_index(cur, diff(cur, prev)[j]) < patch_index(
                cur,
                diff(cur, prev)[k],
            ),
{
    let n = cur.cells.len();
    if n != prev.cells.len() {
        assert forall|j: int, k: int| 0 <= j < k < diff(cur, prev).len() implies patch_index(cur, diff(cur, prev)[j])
            < patch_index(cur, diff(cur, prev)[k]) by {
            lemma_patch_at(cur, j);
            lemma_patch_at(cur, k);
        }
    } else {
        let s = changed_below(cur.cells, prev.cells, n);
        lemma_changed_below(cur.cells, prev.cells, n);
        assert forall|j: int, k: int| 0 <= j < k < diff(cur, prev).len() implies patch_index(cur, diff(cur, prev)[j])
            < patch_index(cur, diff(cur, prev)[k]) by {
            assert(0 <= s[j] < n);
            assert(0 <= s[k] < n);
            lemma_patch_at(cur, s[j]);
            lemma_patch_at(cur, s[k]);
        }
    }
}

/// On two canvases of one size, the patches report exactly the indices whose
/// cells differ, each once, with the current canvas's cell there.
pub proof fn lemma_diff_minimal(a: Grid, b: Grid)
    requires
        a.wf(),
        b.wf(),
        a.width == b.width,
        a.height == b.height,
    ensures
        diff(a, b).len() == differing(a, b).len(),
        forall|k: int|
            0 <= k < diff(a, b).len() ==> differing(a, b).contains(patch_index(a, #[trigger] diff(a, b)[k]))
                && diff(a, b)[k].data == a.cells[patch_index(a, diff(a, b)[k])],
        forall|i: int|
            #[trigger] differing(a, b).contains(i) ==> exists|k: int|
                0 <= k < diff(a, b).len() && patch_index(a, #[trigger] diff(a, b)[k]) == i,
{
    let n = a.cells.len();
    let s = changed_below(a.cells, b.cells, n);
    lemma_changed_below(a.cells, b.cells, n);
    assert forall|k: int| 0 <= k < diff(a, b).len() implies differing(a, b).contains(
        patch_index(a, #[trigger] diff(a, b)[k]),
    ) && diff(a, b)[k].data == a.cells[patch_index(a, diff(a, b)[k])] by {
        assert(0 <= s[k] < n);
        lemma_patch_at(a, s[k]);
    }
    assert forall|i: int| #[trigger] differing(a, b).contains(i) implies exists|k: int|
        0 <= k < diff(a, b).len() && patch_index(a, #[trigger] diff(a, b)[k]) == i by {
        assert(s.contains(i));
        let k = choose|k: int| 0 <= k < s.len() && s[k] == i;
        lemma_patch_at(a, i);
        assert(patch_index(a, diff(a, b)[k]) == i);
    }
    assert(s.no_duplicates());
    s.unique_seq_to_set();
    assert(s.to_set() =~= differing(a, b));
}

/// After `fill` with a background color, every cell inside the rectangle has
/// that background and keeps its other fields; every other cell is unchanged.
pub proof fn lemma_fill_background_contained(g: Grid, rect: Rect, color: Color)
    requires
        g.wf(),
    ensures
        g.fill(rect, Paint::Background(color)).wf(),
        g.fill(rect, Paint::Background(color)).width == g.width,
        g.fill(rect, Paint::Background(color)).height == g.height,
        forall|col: int, row: int|
            g.in_bounds(col, row) && rect.covers(col, row) ==> #[trigger] g.fill(
                rect,
                Paint::Background(color),
            ).at(col, row) == (Cell { bg: color, ..g.at(col, row) }),
        forall|col: int, row: int|
            g.in_bounds(col, row) && !rect.covers(col, row) ==> #[trigger] g.fill(
                rect,
                Paint::Background(color),
            ).at(col, row) == g.at(col, row),
{
    let f = g.fill(rect, Paint::Background(color));
    assert forall|col: int, row: int| g.in_bounds(col, row) implies #[trigger] f.at(col, row) == (if rect.covers(
        col,
        row,
    ) {
        Cell { bg: color, ..g.at(col, row) }
    } else {
        g.at(col, row)
    }) by {
        crate::grid::lemma_coords_index(col, row, g.width as int, g.height as int);
    }
}

} // verus!
