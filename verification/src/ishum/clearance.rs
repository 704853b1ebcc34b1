//! The clearance transform: for every cell, the chessboard distance (the
//! number of king's moves) to the nearest blocked cell, by a forward and a
//! backward sweep over the eight neighbours.

use vstd::prelude::*;
use crate::ishum::{cell_index, grid_shape_ok, Grid};
use crate::ishum::connectivity::cell_at;

verus! {

/// The absolute value of an integer.
pub open spec fn absd(p: int) -> int {
    if p >= 0 { p } else { -p }
}

/// Chessboard distance between cells (x, y) and (a, b): the larger of the
/// column and row differences.
pub open spec fn linf(x: int, y: int, a: int, b: int) -> int {
    if absd(x - a) >= absd(y - b) { absd(x - a) } else { absd(y - b) }
}

/// Cell (a, b) lies on the grid and is blocked.
pub open spec fn is_grave(bl: Seq<bool>, w: int, h: int, a: int, b: int) -> bool {
    0 <= a < w && 0 <= b < h && bl[cell_at(w, a, b)]
}

/// The cells the forward sweep has reached (x, y) from: those of its own
/// row up to it, and those of earlier rows no further right than the row
/// difference.
pub open spec fn in_forward(x: int, y: int, a: int, b: int) -> bool {
    (b < y && a - x <= y - b) || (b == y && a <= x)
}

/// Cell (a, b) counts for (x, y): every cell, or with `fwd` only those the
/// forward sweep reaches (x, y) from.
pub open spec fn counts(fwd: bool, x: int, y: int, a: int, b: int) -> bool {
    !fwd || in_forward(x, y, a, b)
}

/// `d` is the least chessboard distance from (x, y) to a blocked cell
/// that counts; `None` when there is none.
pub open spec fn least_among(bl: Seq<bool>, w: int, h: int, x: int, y: int, fwd: bool, d: Option<u64>) -> bool {
    match d {
        None => forall|a: int, b: int| #![trigger cell_at(w, a, b)] counts(fwd, x, y, a, b) ==> !is_grave(bl, w, h, a, b),
        Some(v) => {
            &&& exists|a: int, b: int| #![trigger cell_at(w, a, b)] counts(fwd, x, y, a, b) && is_grave(bl, w, h, a, b) && linf(x, y, a, b) == v
            &&& forall|a: int, b: int| #![trigger cell_at(w, a, b)] counts(fwd, x, y, a, b) && is_grave(bl, w, h, a, b) ==> v <= linf(x, y, a, b)
        },
    }
}

/// What the forward sweep leaves at (x, y): the least distance to a
/// blocked cell it reaches (x, y) from.
pub open spec fn least_forward(bl: Seq<bool>, w: int, h: int, x: int, y: int, d: Option<u64>) -> bool {
    least_among(bl, w, h, x, y, true, d)
}

/// The clearance of cell (x, y): the least chessboard distance to any
/// blocked cell of the grid, `None` when no cell is blocked.
pub open spec fn clearance_is(bl: Seq<bool>, w: int, h: int, x: int, y: int, d: Option<u64>) -> bool {
    least_among(bl, w, h, x, y, false, d)
}

/// The smaller of two distances (`None` is infinite).
pub open spec fn omin(p: Option<u64>, q: Option<u64>) -> Option<u64> {
    match p {
        None => q,
        Some(a) => match q {
            None => p,
            Some(b) => if a <= b { p } else { q },
        },
    }
}

/// One step further (`None` stays infinite).
pub open spec fn osucc(p: Option<u64>) -> Option<u64> {
    match p {
        None => None,
        Some(a) => Some((a + 1) as u64),
    }
}

/// The least of five distances, in the order the sweeps take them.
pub open spec fn omin5(p: Option<u64>, q: Option<u64>, r: Option<u64>, s: Option<u64>, t: Option<u64>) -> Option<u64> {
    omin(omin(omin(omin(p, q), r), s), t)
}

fn min_dist(p: Option<u64>, q: Option<u64>) -> (r: Option<u64>)
    ensures
        r == omin(p, q),
{
    match p {
        None => q,
        Some(a) => match q {
            None => p,
            Some(b) => if a <= b {
                p
            } else {
                q
            },
        },
    }
}

fn succ_dist(p: Option<u64>) -> (r: Option<u64>)
    requires
        p matches Some(a) ==> a < u64::MAX,
    ensures
        r == osucc(p),
{
    match p {
        None => None,
        Some(a) => Some(a + 1),
    }
}

/// Distinct cells have distinct row-major indices.
proof fn lemma_cells_distinct(w: int, a: int, b: int, x: int, y: int)
    requires
        0 <= a < w,
        0 <= x < w,
        0 <= b,
        0 <= y,
        a != x || b != y,
    ensures
        cell_at(w, a, b) != cell_at(w, x, y),
{
    if b != y {
        assert(cell_at(w, a, b) != cell_at(w, x, y)) by (nonlinear_arith)
            requires
                b != y,
                0 <= a < w,
                0 <= x < w,
        {
            if b < y {
                assert(b * w + a < (b + 1) * w);
                assert((b + 1) * w <= y * w);
            } else {
                assert(y * w + x < (y + 1) * w);
                assert((y + 1) * w <= b * w);
            }
        }
    }
}

/// A distance between cells of the grid stays below the cell count.
proof fn lemma_dist_bounded(w: int, h: int, x: int, y: int, a: int, b: int)
    requires
        0 <= x < w,
        0 <= a < w,
        0 <= y < h,
        0 <= b < h,
    ensures
        linf(x, y, a, b) < w * h,
{
    assert(w <= w * h && h <= w * h) by (nonlinear_arith)
        requires
            1 <= w,
            1 <= h,
    ;
}

/// The five-way minimum is one of its parts, and at most each part that
/// is finite.
proof fn lemma_omin5(p: Option<u64>, q: Option<u64>, r: Option<u64>, s: Option<u64>, t: Option<u64>)
    ensures
        ({
            let m = omin5(p, q, r, s, t);
            &&& m == p || m == q || m == r || m == s || m == t
            &&& p matches Some(u) ==> (m matches Some(v) && v <= u)
            &&& q matches Some(u) ==> (m matches Some(v) && v <= u)
            &&& r matches Some(u) ==> (m matches Some(v) && v <= u)
            &&& s matches Some(u) ==> (m matches Some(v) && v <= u)
            &&& t matches Some(u) ==> (m matches Some(v) && v <= u)
        }),
{
}

/// A neighbour's witness serves (x, y): a blocked cell that counts for the
/// neighbour at distance `v` counts for (x, y) at distance at most v + 1.
proof fn lemma_witness(bl: Seq<bool>, w: int, h: int, x: int, y: int, fwd: bool, nx: int, ny: int, nfwd: bool, dn: Option<u64>)
    requires
        least_among(bl, w, h, nx, ny, nfwd, dn),
        dn is Some,
        absd(nx - x) <= 1,
        absd(ny - y) <= 1,
        forall|a: int, b: int| #![trigger cell_at(w, a, b)] counts(nfwd, nx, ny, a, b) && is_grave(bl, w, h, a, b) ==> counts(fwd, x, y, a, b),
    ensures
        exists|a: int, b: int| #![trigger cell_at(w, a, b)] counts(fwd, x, y, a, b) && is_grave(bl, w, h, a, b) && linf(x, y, a, b) <= dn->0 + 1,
{
    let (a, b) = choose|a: int, b: int| #![trigger cell_at(w, a, b)] counts(nfwd, nx, ny, a, b) && is_grave(bl, w, h, a, b) && linf(nx, ny, a, b) == dn->0;
    assert(counts(fwd, x, y, a, b) && is_grave(bl, w, h, a, b) && linf(x, y, a, b) <= dn->0 + 1);
}

/// The forward sweep's rule: the least distance to a blocked cell the
/// sweep reaches (x, y) from is the cell's own (0 when blocked) or one
/// more than that of its left, upper-left, upper or upper-right neighbour.
proof fn lemma_forward(
    bl: Seq<bool>,
    w: int,
    h: int,
    x: int,
    y: int,
    fl: Option<u64>,
    ful: Option<u64>,
    fu: Option<u64>,
    fur: Option<u64>,
)
    requires
        0 <= x < w,
        0 <= y < h,
        x > 0 ==> least_forward(bl, w, h, x - 1, y, fl),
        x == 0 ==> fl is None,
        (x > 0 && y > 0) ==> least_forward(bl, w, h, x - 1, y - 1, ful),
        !(x > 0 && y > 0) ==> ful is None,
        y > 0 ==> least_forward(bl, w, h, x, y - 1, fu),
        y == 0 ==> fu is None,
        (x + 1 < w && y > 0) ==> least_forward(bl, w, h, x + 1, y - 1, fur),
        !(x + 1 < w && y > 0) ==> fur is None,
        fl matches Some(v) ==> v < u64::MAX,
        ful matches Some(v) ==> v < u64::MAX,
        fu matches Some(v) ==> v < u64::MAX,
        fur matches Some(v) ==> v < u64::MAX,
    ensures
        least_forward(
            bl,
            w,
            h,
            x,
            y,
            omin5(if is_grave(bl, w, h, x, y) { Some(0u64) } else { None }, osucc(fl), osucc(ful), osucc(fu), osucc(fur)),
        ),
{
    let base: Option<u64> = if is_grave(bl, w, h, x, y) { Some(0u64) } else { None };
    let r = omin5(base, osucc(fl), osucc(ful), osucc(fu), osucc(fur));
    lemma_omin5(base, osucc(fl), osucc(ful), osucc(fu), osucc(fur));
    // every blocked cell the sweep reaches (x, y) from is at least as far as r
    assert forall|a: int, b: int| #![trigger cell_at(w, a, b)] counts(true, x, y, a, b) && is_grave(bl, w, h, a, b) implies (r matches Some(v)
        && v <= linf(x, y, a, b)) by {
        let dx = x - a;
        let dy = y - b;
        if a == x && b == y {
        } else if b == y {
            assert(counts(true, x - 1, y, a, b));
        } else if dx > dy {
            assert(counts(true, x - 1, y, a, b));
        } else if dx == dy {
            assert(counts(true, x - 1, y - 1, a, b));
        } else if -dy < dx {
            assert(counts(true, x, y - 1, a, b));
        } else {
            assert(counts(true, x + 1, y - 1, a, b));
        }
    }
    if let Some(v) = r {
        if r == base {
            assert(counts(true, x, y, x, y) && is_grave(bl, w, h, x, y) && linf(x, y, x, y) == v);
        } else if r == osucc(fl) {
            lemma_witness(bl, w, h, x, y, true, x - 1, y, true, fl);
        } else if r == osucc(ful) {
            lemma_witness(bl, w, h, x, y, true, x - 1, y - 1, true, ful);
        } else if r == osucc(fu) {
            lemma_witness(bl, w, h, x, y, true, x, y - 1, true, fu);
        } else {
            lemma_witness(bl, w, h, x, y, true, x + 1, y - 1, true, fur);
        }
    }
}

/// The backward sweep's rule: the least distance to any blocked cell is
/// the forward sweep's, or one more than that of the right, lower-right,
/// lower or lower-left neighbour.
proof fn lemma_backward(
    bl: Seq<bool>,
    w: int,
    h: int,
    x: int,
    y: int,
    f: Option<u64>,
    gr: Option<u64>,
    gdr: Option<u64>,
    gd: Option<u64>,
    gdl: Option<u64>,
)
    requires
        0 <= x < w,
        0 <= y < h,
        least_forward(bl, w, h, x, y, f),
        x + 1 < w ==> clearance_is(bl, w, h, x + 1, y, gr),
        x + 1 >= w ==> gr is None,
        (x + 1 < w && y + 1 < h) ==> clearance_is(bl, w, h, x + 1, y + 1, gdr),
        !(x + 1 < w && y + 1 < h) ==> gdr is None,
        y + 1 < h ==> clearance_is(bl, w, h, x, y + 1, gd),
        y + 1 >= h ==> gd is None,
        (x > 0 && y + 1 < h) ==> clearance_is(bl, w, h, x - 1, y + 1, gdl),
        !(x > 0 && y + 1 < h) ==> gdl is None,
        gr matches Some(v) ==> v < u64::MAX,
        gdr matches Some(v) ==> v < u64::MAX,
        gd matches Some(v) ==> v < u64::MAX,
        gdl matches Some(v) ==> v < u64::MAX,
    ensures
        clearance_is(bl, w, h, x, y, omin5(f, osucc(gr), osucc(gdr), osucc(gd), osucc(gdl))),
{
    let r = omin5(f, osucc(gr), osucc(gdr), osucc(gd), osucc(gdl));
    lemma_omin5(f, osucc(gr), osucc(gdr), osucc(gd), osucc(gdl));
    assert forall|a: int, b: int| #![trigger cell_at(w, a, b)] counts(false, x, y, a, b) && is_grave(bl, w, h, a, b) implies (r matches Some(v)
        && v <= linf(x, y, a, b)) by {
        if in_forward(x, y, a, b) {
            assert(counts(true, x, y, a, b));
        } else if b <= y {
            assert(counts(false, x + 1, y, a, b));
        } else if a > x {
            assert(counts(false, x + 1, y + 1, a, b));
        } else if a == x {
            assert(counts(false, x, y + 1, a, b));
        } else {
            assert(counts(false, x - 1, y + 1, a, b));
        }
    }
    if let Some(v) = r {
        if r == f {
            let (a, b) = choose|a: int, b: int| #![trigger cell_at(w, a, b)] counts(true, x, y, a, b) && is_grave(bl, w, h, a, b) && linf(x, y, a, b) == v;
            assert(counts(false, x, y, a, b));
        } else if r == osucc(gr) {
            lemma_witness(bl, w, h, x, y, false, x + 1, y, false, gr);
        } else if r == osucc(gdr) {
            lemma_witness(bl, w, h, x, y, false, x + 1, y + 1, false, gdr);
        } else if r == osucc(gd) {
            lemma_witness(bl, w, h, x, y, false, x, y + 1, false, gd);
        } else {
            lemma_witness(bl, w, h, x, y, false, x - 1, y + 1, false, gdl);
        }
    }
}

/// What a cell starts from: 0 where it is blocked, infinite elsewhere.
pub open spec fn seed(bl: Seq<bool>, i: int) -> Option<u64> {
    if bl[i] { Some(0u64) } else { None }
}

/// A least distance found within the grid is below the cell count, and so
/// one more step cannot overflow.
proof fn lemma_least_bounded(bl: Seq<bool>, w: int, h: int, x: int, y: int, fwd: bool, d: Option<u64>)
    requires
        0 <= x < w,
        0 <= y < h,
        w * h <= usize::MAX,
        least_among(bl, w, h, x, y, fwd, d),
    ensures
        d matches Some(v) ==> v < w * h && v < u64::MAX,
{
    if let Some(v) = d {
        let (a, b) = choose|a: int, b: int| #![trigger cell_at(w, a, b)] counts(fwd, x, y, a, b) && is_grave(bl, w, h, a, b) && linf(x, y, a, b) == v;
        lemma_dist_bounded(w, h, x, y, a, b);
    }
}

/// Row-major neighbours: one step left is one index back, one row up is
/// `w` indices back.
proof fn lemma_neighbours(w: int, h: int, x: int, y: int)
    requires
        0 <= x < w,
        0 <= y < h,
    ensures
        cell_at(w, x, y) - w == cell_at(w, x, y - 1),
        cell_at(w, x, y) + w == cell_at(w, x, y + 1),
        0 <= cell_at(w, x, y) < w * h,
        y > 0 ==> cell_at(w, x, y) >= w,
        y + 1 < h ==> cell_at(w, x, y) + w < w * h,
{
    assert(y * w + x - w == (y - 1) * w + x) by (nonlinear_arith);
    assert(y * w + x + w == (y + 1) * w + x) by (nonlinear_arith);
    assert(0 <= y * w + x < w * h) by (nonlinear_arith)
        requires
            0 <= x < w,
            0 <= y < h,
    ;
    assert(y > 0 ==> y * w + x >= w) by (nonlinear_arith)
        requires
            0 <= x < w,
            0 <= y,
    ;
    assert(y + 1 < h ==> (y + 1) * w + x < w * h) by (nonlinear_arith)
        requires
            0 <= x < w,
            0 <= y,
    ;
}

/// The clearance of every cell of the grid, in row-major order: the
/// chessboard distance to the nearest blocked cell, `None` (infinitely
/// far) when no cell is blocked.
pub fn clearance_transform(grid: &Grid) -> (d: Vec<Option<u64>>)
    requires
        grid_shape_ok(*grid),
    ensures
        d@.len() == grid.width * grid.height,
        forall|x: int, y: int|
            0 <= x < grid.width && 0 <= y < grid.height ==> clearance_is(
                grid.blocked@,
                grid.width as int,
                grid.height as int,
                x,
                y,
                #[trigger] d@[cell_at(grid.width as int, x, y)],
            ),
{
    let w = grid.width;
    let h = grid.height;
    let ghost bl = grid.blocked@;
    let ghost wi = w as int;
    let ghost hi = h as int;
    if w == 0 || h == 0 {
        assert(wi * hi == 0) by (nonlinear_arith)
            requires
                wi == 0 || hi == 0,
        ;
        return Vec::new();
    }
    let n = w * h;
    let mut dist: Vec<Option<u64>> = Vec::new();
    let mut k: usize = 0;
    while k < n
        invariant
            n == w * h,
            bl == grid.blocked@,
            bl.len() == n,
            0 <= k <= n,
            dist@.len() == k,
            forall|j: int| 0 <= j < k ==> #[trigger] dist@[j] == seed(bl, j),
        decreases n - k,
    {
        if grid.blocked[k] {
            dist.push(Some(0));
        } else {
            dist.push(None);
        }
        k = k + 1;
    }
    assert forall|a: int, b: int| 0 <= a < wi && 0 <= b < hi implies #[trigger] dist@[cell_at(wi, a, b)] == seed(bl, cell_at(wi, a, b)) by {
        lemma_neighbours(wi, hi, a, b);
    }
    // forward sweep: up and to the left
    let mut i: usize = 0;
    let mut x: usize = 0;
    let mut y: usize = 0;
    while i < n
        invariant
            n == w * h,
            w > 0,
            h > 0,
            w * h <= usize::MAX,
            wi == w,
            hi == h,
            bl == grid.blocked@,
            bl.len() == n,
            dist@.len() == n,
            x < w,
            i <= n,
            i == cell_at(wi, x as int, y as int),
            forall|a: int, b: int|
                #![trigger dist@[cell_at(wi, a, b)]]
                0 <= a < wi && 0 <= b < hi ==> if cell_at(wi, a, b) < i {
                    least_forward(bl, wi, hi, a, b, dist@[cell_at(wi, a, b)])
                } else {
                    dist@[cell_at(wi, a, b)] == seed(bl, cell_at(wi, a, b))
                },
        decreases n - i,
    {
        assert(y < h) by (nonlinear_arith)
            requires
                y * w + x < w * h,
                x < w,
        ;
        proof {
            lemma_neighbours(wi, hi, x as int, y as int);
        }
        let ghost before = dist@;
        let mut best = dist[i];
        assert(best == seed(bl, cell_at(wi, x as int, y as int)));
        let ghost fl: Option<u64> = None;
        let ghost ful: Option<u64> = None;
        let ghost fu: Option<u64> = None;
        let ghost fur: Option<u64> = None;
        if x > 0 {
            let left = dist[i - 1];
            proof {
                assert(before[cell_at(wi, x - 1, y as int)] == left);
                lemma_least_bounded(bl, wi, hi, x - 1, y as int, true, left);
                fl = left;
            }
            best = min_dist(best, succ_dist(left));
        }
        if x > 0 && y > 0 {
            let up_left = dist[i - w - 1];
            proof {
                assert(before[cell_at(wi, x - 1, y - 1)] == up_left);
                lemma_least_bounded(bl, wi, hi, x - 1, y - 1, true, up_left);
                ful = up_left;
            }
            best = min_dist(best, succ_dist(up_left));
        }
        if y > 0 {
            let up = dist[i - w];
            proof {
                assert(before[cell_at(wi, x as int, y - 1)] == up);
                lemma_least_bounded(bl, wi, hi, x as int, y - 1, true, up);
                fu = up;
            }
            best = min_dist(best, succ_dist(up));
        }
        if x + 1 < w && y > 0 {
            let up_right = dist[i - w + 1];
            proof {
                assert(before[cell_at(wi, x + 1, y - 1)] == up_right);
                lemma_least_bounded(bl, wi, hi, x + 1, y - 1, true, up_right);
                fur = up_right;
            }
            best = min_dist(best, succ_dist(up_right));
        }
        proof {
            lemma_forward(bl, wi, hi, x as int, y as int, fl, ful, fu, fur);
        }
        dist.set(i, best);
        proof {
            assert forall|a: int, b: int|
                #![trigger dist@[cell_at(wi, a, b)]]
                0 <= a < wi && 0 <= b < hi implies if cell_at(wi, a, b) < i + 1 {
                    least_forward(bl, wi, hi, a, b, dist@[cell_at(wi, a, b)])
                } else {
                    dist@[cell_at(wi, a, b)] == seed(bl, cell_at(wi, a, b))
                } by {
                lemma_neighbours(wi, hi, a, b);
                if a != x || b != y {
                    lemma_cells_distinct(wi, a, b, x as int, y as int);
                    assert(dist@[cell_at(wi, a, b)] == before[cell_at(wi, a, b)]);
                }
            }
        }
        let ghost oy = y as int;
        i = i + 1;
        if x + 1 == w {
            x = 0;
            y = y + 1;
            assert((oy + 1) * wi == oy * wi + wi) by (nonlinear_arith);
        } else {
            x = x + 1;
        }
    }
    // backward sweep: down and to the right
    let mut k: usize = n;
    let mut x: usize = w - 1;
    let mut y: usize = h - 1;
    assert((hi - 1) * wi + (wi - 1) == wi * hi - 1) by (nonlinear_arith);
    assert forall|a: int, b: int| 0 <= a < wi && 0 <= b < hi implies cell_at(wi, a, b) < n && least_forward(bl, wi, hi, a, b, #[trigger] dist@[cell_at(wi, a, b)]) by {
        lemma_neighbours(wi, hi, a, b);
    }
    while k > 0
        invariant
            n == w * h,
            w > 0,
            h > 0,
            w * h <= usize::MAX,
            wi == w,
            hi == h,
            bl == grid.blocked@,
            bl.len() == n,
            dist@.len() == n,
            k <= n,
            k > 0 ==> x < w && y < h && k - 1 == cell_at(wi, x as int, y as int),
            forall|a: int, b: int|
                #![trigger dist@[cell_at(wi, a, b)]]
                0 <= a < wi && 0 <= b < hi ==> if cell_at(wi, a, b) >= k {
                    clearance_is(bl, wi, hi, a, b, dist@[cell_at(wi, a, b)])
                } else {
                    least_forward(bl, wi, hi, a, b, dist@[cell_at(wi, a, b)])
                },
        decreases k,
    {
        let i = k - 1;
        proof {
            lemma_neighbours(wi, hi, x as int, y as int);
        }
        let ghost before = dist@;
        let here = dist[i];
        let mut best = here;
        let ghost gr: Option<u64> = None;
        let ghost gdr: Option<u64> = None;
        let ghost gd: Option<u64> = None;
        let ghost gdl: Option<u64> = None;
        if x + 1 < w {
            proof {
                lemma_neighbours(wi, hi, x + 1, y as int);
            }
            let right = dist[i + 1];
            proof {
                assert(before[cell_at(wi, x + 1, y as int)] == right);
                lemma_least_bounded(bl, wi, hi, x + 1, y as int, false, right);
                gr = right;
            }
            best = min_dist(best, succ_dist(right));
        }
        if x + 1 < w && y + 1 < h {
            proof {
                lemma_neighbours(wi, hi, x + 1, y as int);
            }
            let down_right = dist[i + w + 1];
            proof {
                assert(before[cell_at(wi, x + 1, y + 1)] == down_right);
                lemma_least_bounded(bl, wi, hi, x + 1, y + 1, false, down_right);
                gdr = down_right;
            }
            best = min_dist(best, succ_dist(down_right));
        }
        if y + 1 < h {
            let down = dist[i + w];
            proof {
                assert(before[cell_at(wi, x as int, y + 1)] == down);
                lemma_least_bounded(bl, wi, hi, x as int, y + 1, false, down);
                gd = down;
            }
            best = min_dist(best, succ_dist(down));
        }
        if x > 0 && y + 1 < h {
            let down_left = dist[i + w - 1];
            proof {
                assert(before[cell_at(wi, x - 1, y + 1)] == down_left);
                lemma_least_bounded(bl, wi, hi, x - 1, y + 1, false, down_left);
                gdl = down_left;
            }
            best = min_dist(best, succ_dist(down_left));
        }
        proof {
            assert(before[cell_at(wi, x as int, y as int)] == here);
            lemma_backward(bl, wi, hi, x as int, y as int, here, gr, gdr, gd, gdl);
        }
        dist.set(i, best);
        proof {
            assert forall|a: int, b: int|
                #![trigger dist@[cell_at(wi, a, b)]]
                0 <= a < wi && 0 <= b < hi implies if cell_at(wi, a, b) >= i {
                    clearance_is(bl, wi, hi, a, b, dist@[cell_at(wi, a, b)])
                } else {
                    least_forward(bl, wi, hi, a, b, dist@[cell_at(wi, a, b)])
                } by {
                lemma_neighbours(wi, hi, a, b);
                if a != x || b != y {
                    lemma_cells_distinct(wi, a, b, x as int, y as int);
                    assert(dist@[cell_at(wi, a, b)] == before[cell_at(wi, a, b)]);
                }
            }
        }
        k = i;
        if k > 0 {
            let ghost oy = y as int;
            if x == 0 {
                assert(oy > 0) by (nonlinear_arith)
                    requires
                        oy * wi > 0,
                        oy >= 0,
                ;
                x = w - 1;
                y = y - 1;
                assert((oy - 1) * wi + (wi - 1) == oy * wi - 1) by (nonlinear_arith);
            } else {
                x = x - 1;
            }
        }
    }
    dist
}

/// A cell's clearance is zero exactly when the cell itself is blocked, so
/// a blocked cell is walkable at no positive traveller width.
pub proof fn law_zero_clearance_iff_blocked(bl: Seq<bool>, w: int, h: int, x: int, y: int, d: Option<u64>)
    requires
        0 <= x < w,
        0 <= y < h,
        clearance_is(bl, w, h, x, y, d),
    ensures
        d == Some(0u64) <==> bl[cell_at(w, x, y)],
{
    if bl[cell_at(w, x, y)] {
        assert(is_grave(bl, w, h, x, y) && counts(false, x, y, x, y));
        assert(linf(x, y, x, y) == 0);
    } else if d == Some(0u64) {
        let (a, b) = choose|a: int, b: int| #![trigger cell_at(w, a, b)] counts(false, x, y, a, b) && is_grave(bl, w, h, a, b) && linf(x, y, a, b) == 0;
        assert(a == x && b == y);
    }
}

} // verus!
