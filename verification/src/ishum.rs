//! Ishum — the skeleton kernel's occupancy grid, the clearance of its
//! cells, connectivity through its walkable cells, and the searches for
//! the width at which two cells are severed. The walkable mask at a
//! traveller width and the fingerprints work on floating-point distances
//! and live outside the library.

use vstd::prelude::*;

pub mod clearance;
pub mod connectivity;
pub mod severance;

verus! {

/// A width × height occupancy grid, row-major.
#[derive(Debug, Clone)]
pub struct Grid {
    pub width: usize,
    pub height: usize,
    pub blocked: Vec<bool>,
}

/// The grid's cells match its dimensions.
pub open spec fn grid_shape_ok(g: Grid) -> bool {
    g.width * g.height <= usize::MAX && g.blocked@.len() == g.width * g.height
}

/// The row-major index of a cell.
pub open spec fn cell_index(g: Grid, x: int, y: int) -> int {
    y * g.width + x
}

/// Row-major cell index arithmetic stays inside the grid.
proof fn lemma_cell_in_range(w: int, h: int, x: int, y: int)
    requires
        0 <= x < w,
        0 <= y < h,
    ensures
        0 <= y * w + x < w * h,
{
    assert(y * w + x < w * h) by (nonlinear_arith)
        requires
            0 <= x < w,
            0 <= y < h,
    ;
    assert(0 <= y * w) by (nonlinear_arith)
        requires
            0 <= y,
            0 <= w,
    ;
}

impl Grid {
    /// An open grid: no cell blocked.
    pub fn new(width: usize, height: usize) -> (g: Self)
        requires
            width * height <= usize::MAX,
        ensures
            g.width == width,
            g.height == height,
            grid_shape_ok(g),
            forall|i: int| 0 <= i < width * height ==> !(#[trigger] g.blocked@[i]),
    {
        let n = width * height;
        let mut blocked: Vec<bool> = Vec::new();
        let mut i: usize = 0;
        while i < n
            invariant
                0 <= i <= n,
                blocked@.len() == i,
                forall|j: int| 0 <= j < i ==> !(#[trigger] blocked@[j]),
            decreases n - i,
        {
            blocked.push(false);
            i = i + 1;
        }
        Grid { width, height, blocked }
    }

    /// The row-major index of cell (x, y).
    fn idx(&self, x: usize, y: usize) -> (i: usize)
        requires
            grid_shape_ok(*self),
            x < self.width,
            y < self.height,
        ensures
            i == cell_index(*self, x as int, y as int),
            i < self.blocked@.len(),
    {
        proof {
            lemma_cell_in_range(self.width as int, self.height as int, x as int, y as int);
        }
        y * self.width + x
    }

    /// Blocks cell (x, y).
    pub fn set_blocked(&mut self, x: usize, y: usize)
        requires
            grid_shape_ok(*old(self)),
            x < old(self).width,
            y < old(self).height,
        ensures
            final(self).width == old(self).width,
            final(self).height == old(self).height,
            final(self).blocked@ == old(self).blocked@.update(cell_index(*old(self), x as int, y as int), true),
    {
        let i = self.idx(x, y);
        self.blocked.set(i, true);
    }

    /// Whether cell (x, y) is blocked.
    pub fn is_blocked(&self, x: usize, y: usize) -> (b: bool)
        requires
            grid_shape_ok(*self),
            x < self.width,
            y < self.height,
        ensures
            b == self.blocked@[cell_index(*self, x as int, y as int)],
    {
        self.blocked[self.idx(x, y)]
    }
}

/// Blocking a cell blocks it and leaves every other cell as it was.
pub proof fn law_set_then_is_blocked(before: Grid, after: Grid, x: int, y: int, u: int, v: int)
    requires
        grid_shape_ok(before),
        0 <= x < before.width,
        0 <= y < before.height,
        0 <= u < before.width,
        0 <= v < before.height,
        after.width == before.width,
        after.height == before.height,
        after.blocked@ == before.blocked@.update(cell_index(before, x, y), true),
    ensures
        after.blocked@[cell_index(after, x, y)],
        (u != x || v != y) ==> after.blocked@[cell_index(after, u, v)] == before.blocked@[cell_index(before, u, v)],
{
    lemma_cell_in_range(before.width as int, before.height as int, x, y);
    lemma_cell_in_range(before.width as int, before.height as int, u, v);
    if u != x || v != y {
        if v == y {
            assert(cell_index(before, u, v) != cell_index(before, x, y));
        } else {
            assert(cell_index(before, u, v) != cell_index(before, x, y)) by (nonlinear_arith)
                requires
                    v != y,
                    0 <= u < before.width,
                    0 <= x < before.width,
                    cell_index(before, u, v) == v * before.width + u,
                    cell_index(before, x, y) == y * before.width + x,
            {
                if v < y {
                    assert(v * before.width + u < (v + 1) * before.width);
                    assert((v + 1) * before.width <= y * before.width);
                } else {
                    assert(y * before.width + x < (y + 1) * before.width);
                    assert((y + 1) * before.width <= v * before.width);
                }
            }
        }
    }
}

} // verus!
