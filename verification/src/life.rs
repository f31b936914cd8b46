//! The Game of Life rule itself, stated over a mathematical grid.
//!
//! A grid is a sequence of rows, each a sequence of booleans (`true` means
//! alive).  Neighbour counting uses clamped 8-connectivity: positions
//! outside the grid count as dead; there is no wraparound.

use vstd::prelude::*;

verus! {

/// 1 if `(r, c)` lies inside the grid and holds a live cell, else 0.
/// Positions outside the grid contribute nothing (clamped boundary).
pub open spec fn live_at(cells: Seq<Seq<bool>>, r: int, c: int) -> int {
    if 0 <= r < cells.len() && 0 <= c < cells[r].len() && cells[r][c] {
        1int
    } else {
        0int
    }
}

/// Number of live cells among the eight neighbours of `(r, c)`.  Exactly the
/// eight offsets around the cell are examined; the cell itself is not one of
/// them.
pub open spec fn neighbor_count(cells: Seq<Seq<bool>>, r: int, c: int) -> int {
    live_at(cells, r - 1, c - 1) + live_at(cells, r - 1, c) + live_at(cells, r - 1, c + 1)
        + live_at(cells, r, c - 1) + live_at(cells, r, c + 1) + live_at(cells, r + 1, c - 1)
        + live_at(cells, r + 1, c) + live_at(cells, r + 1, c + 1)
}

/// The birth/survival rule for one cell: a live cell survives with 2 or 3
/// live neighbours, a dead cell is born with exactly 3, everything else is
/// dead in the next generation.
pub open spec fn next_cell(cells: Seq<Seq<bool>>, r: int, c: int) -> bool {
    let n = neighbor_count(cells, r, c);
    if cells[r][c] {
        2 <= n <= 3
    } else {
        n == 3
    }
}

/// One synchronous generation: every cell of the result is the rule applied
/// to the previous grid, so no cell of the new generation can influence
/// another.
pub open spec fn stepped(cells: Seq<Seq<bool>>) -> Seq<Seq<bool>> {
    Seq::new(
        cells.len(),
        |r: int| Seq::new(cells[r].len(), |c: int| next_cell(cells, r, c)),
    )
}

/// A `rows` by `cols` grid with every entry equal to `v`.
pub open spec fn grid_of<T>(rows: int, cols: int, v: T) -> Seq<Seq<T>> {
    Seq::new(rows as nat, |r: int| Seq::new(cols as nat, |c: int| v))
}

/// Whether `(r, c)` is one of the eight neighbour positions of `(r0, c0)`.
pub open spec fn in_ring(r0: int, c0: int, r: int, c: int) -> bool {
    r0 - 1 <= r <= r0 + 1 && c0 - 1 <= c <= c0 + 1 && !(r == r0 && c == c0)
}

/// The neighbour count is in `[0, 8]`: no more than the eight examined
/// positions can ever be counted.
pub proof fn lemma_count_bounds(cells: Seq<Seq<bool>>, r: int, c: int)
    ensures
        0 <= neighbor_count(cells, r, c) <= 8,
{
}

/// The count depends only on the eight surrounding positions: two grids of
/// the same shape that agree on the ring around `(r, c)` give the same
/// count, whatever stands anywhere else — including at `(r, c)` itself.
pub proof fn lemma_count_depends_on_ring(a: Seq<Seq<bool>>, b: Seq<Seq<bool>>, r: int, c: int)
    requires
        a.len() == b.len(),
        forall|i: int| 0 <= i < a.len() ==> (#[trigger] a[i]).len() == b[i].len(),
        forall|i: int, j: int|
            0 <= i < a.len() && 0 <= j < a[i].len() && in_ring(r, c, i, j)
                ==> (#[trigger] a[i][j]) == b[i][j],
    ensures
        neighbor_count(a, r, c) == neighbor_count(b, r, c),
{
    assert forall|i: int, j: int| in_ring(r, c, i, j) implies live_at(a, i, j) == live_at(
        b,
        i,
        j,
    ) by {
        if 0 <= i < a.len() && 0 <= j < a[i].len() {
            assert(a[i][j] == b[i][j]);
        }
    }
    assert(in_ring(r, c, r - 1, c - 1));
    assert(in_ring(r, c, r - 1, c));
    assert(in_ring(r, c, r - 1, c + 1));
    assert(in_ring(r, c, r, c - 1));
    assert(in_ring(r, c, r, c + 1));
    assert(in_ring(r, c, r + 1, c - 1));
    assert(in_ring(r, c, r + 1, c));
    assert(in_ring(r, c, r + 1, c + 1));
}

/// The count never includes the cell itself: rewriting `(r, c)` to any
/// value leaves its own neighbour count unchanged.
pub proof fn lemma_count_ignores_center(cells: Seq<Seq<bool>>, r: int, c: int, v: bool)
    requires
        0 <= r < cells.len(),
        0 <= c < cells[r].len(),
    ensures
        neighbor_count(cells.update(r, cells[r].update(c, v)), r, c) == neighbor_count(
            cells,
            r,
            c,
        ),
{
    let updated = cells.update(r, cells[r].update(c, v));
    assert forall|i: int, j: int|
        0 <= i < updated.len() && 0 <= j < updated[i].len() && in_ring(r, c, i, j) implies (
    #[trigger] updated[i][j]) == cells[i][j] by {
        if i == r {
            assert(updated[i] == cells[r].update(c, v));
            assert(j != c);
        }
    }
    lemma_count_depends_on_ring(updated, cells, r, c);
}

/// Clamping at the boundary: a corner cell has only three positions inside
/// the grid among its eight neighbours, so its count never exceeds 3.
pub proof fn lemma_corner_count_at_most_three(cells: Seq<Seq<bool>>)
    ensures
        neighbor_count(cells, 0, 0) <= 3,
{
    assert(live_at(cells, -1, -1) == 0);
    assert(live_at(cells, -1, 0) == 0);
    assert(live_at(cells, -1, 1) == 0);
    assert(live_at(cells, 0, -1) == 0);
    assert(live_at(cells, 1, -1) == 0);
}

} // verus!
