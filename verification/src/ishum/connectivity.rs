//! Connectivity on the walkable cells of a grid: union-find over the
//! right and lower neighbours, and the paths it answers for.

use vstd::prelude::*;
use crate::ishum::Grid;

verus! {

// ── Union-find ─────────────────────────────────────────────────────────────

/// The parent forest is well formed: parents stay in range, and every
/// step to a parent climbs strictly in rank, up to the bound.
pub open spec fn uf_ok(p: Seq<usize>, r: Seq<nat>, bound: nat) -> bool {
    &&& r.len() == p.len()
    &&& forall|x: int| 0 <= x < p.len() ==> (#[trigger] p[x]) < p.len()
    &&& forall|x: int| 0 <= x < p.len() ==> #[trigger] r[x] <= bound
    &&& forall|x: int| 0 <= x < p.len() && p[x] != x ==> r[x] < #[trigger] r[p[x] as int]
}

/// The root of `x`: follow parents while the rank climbs.
pub open spec fn root(p: Seq<usize>, r: Seq<nat>, bound: nat, x: int) -> int
    decreases bound - r[x],
{
    if 0 <= x < p.len() && p[x] != x && r[x] < r[p[x] as int] <= bound {
        root(p, r, bound, p[x] as int)
    } else {
        x
    }
}

/// The root of a node is a root of the forest, in range, and no lower in
/// rank.
proof fn lemma_root(p: Seq<usize>, r: Seq<nat>, bound: nat, x: int)
    requires
        uf_ok(p, r, bound),
        0 <= x < p.len(),
    ensures
        0 <= root(p, r, bound, x) < p.len(),
        p[root(p, r, bound, x)] == root(p, r, bound, x),
        r[x] <= r[root(p, r, bound, x)],
        root(p, r, bound, x) != x ==> r[x] < r[root(p, r, bound, x)],
        p[x] != x ==> root(p, r, bound, x) == root(p, r, bound, p[x] as int),
    decreases bound - r[x],
{
    if p[x] != x {
        assert(r[p[x] as int] <= bound);
        lemma_root(p, r, bound, p[x] as int);
    }
}

/// Pointing a node straight at its root changes no node's root.
proof fn lemma_compress(p: Seq<usize>, r: Seq<nat>, bound: nat, c: int, y: int)
    requires
        uf_ok(p, r, bound),
        0 <= c < p.len(),
        0 <= y < p.len(),
    ensures
        uf_ok(p.update(c, root(p, r, bound, c) as usize), r, bound),
        root(p.update(c, root(p, r, bound, c) as usize), r, bound, y) == root(p, r, bound, y),
    decreases bound - r[y],
{
    let rt = root(p, r, bound, c);
    lemma_root(p, r, bound, c);
    let q = p.update(c, rt as usize);
    assert forall|x: int| 0 <= x < q.len() && q[x] != x implies r[x] < #[trigger] r[q[x] as int] by {
        if x == c {
        } else {
            assert(q[x] == p[x]);
        }
    }
    assert(uf_ok(q, r, bound));
    if y == c {
        if rt != c {
            lemma_root(q, r, bound, rt);
            assert(q[rt] == rt);
        }
    } else if p[y] != y {
        assert(r[p[y] as int] <= bound);
        lemma_compress(p, r, bound, c, p[y] as int);
        lemma_root(p, r, bound, y);
        assert(q[y] == p[y]);
    } else {
        assert(q[y] == p[y]);
    }
}

/// Raising the bound changes no root.
proof fn lemma_bound(p: Seq<usize>, r: Seq<nat>, bound: nat, big: nat, y: int)
    requires
        uf_ok(p, r, bound),
        bound <= big,
        0 <= y < p.len(),
    ensures
        uf_ok(p, r, big),
        root(p, r, big, y) == root(p, r, bound, y),
    decreases bound - r[y],
{
    if p[y] != y {
        assert(r[p[y] as int] <= bound);
        lemma_bound(p, r, bound, big, p[y] as int);
    }
}

/// The forest after linking root `ra` under root `rb`, raising `rb`'s rank
/// above `ra`'s.
pub open spec fn linked_ranks(r: Seq<nat>, ra: int, rb: int) -> Seq<nat> {
    r.update(rb, if r[rb] > r[ra] { r[rb] } else { r[ra] + 1 })
}

/// Linking root `ra` under root `rb` moves exactly the nodes rooted at
/// `ra` to `rb`.
proof fn lemma_link(p: Seq<usize>, r: Seq<nat>, bound: nat, ra: int, rb: int, y: int)
    requires
        uf_ok(p, r, bound),
        0 <= ra < p.len(),
        0 <= rb < p.len(),
        ra != rb,
        p[ra] == ra,
        p[rb] == rb,
        0 <= y < p.len(),
    ensures
        uf_ok(p.update(ra, rb as usize), linked_ranks(r, ra, rb), bound + r[ra] + 1),
        root(p.update(ra, rb as usize), linked_ranks(r, ra, rb), bound + r[ra] + 1, y) == if root(p, r, bound, y)
            == ra {
            rb
        } else {
            root(p, r, bound, y)
        },
    decreases bound - r[y],
{
    let q = p.update(ra, rb as usize);
    let s = linked_ranks(r, ra, rb);
    let big: nat = bound + r[ra] + 1;
    assert forall|x: int| 0 <= x < q.len() implies #[trigger] s[x] <= big by {
        assert(r[x] <= bound);
    }
    assert forall|x: int| 0 <= x < q.len() && q[x] != x implies s[x] < #[trigger] s[q[x] as int] by {
        if x == ra {
        } else {
            assert(q[x] == p[x]);
            if x == rb {
            } else if p[x] as int == rb {
            } else {
            }
        }
    }
    assert(uf_ok(q, s, big));
    if y == ra {
        assert(q[ra] as int == rb);
        assert(q[rb] == rb);
        assert(s[ra] < s[rb] <= big);
        assert(root(q, s, big, rb) == rb);
        assert(root(p, r, bound, ra) == ra);
    } else if p[y] != y {
        assert(r[p[y] as int] <= bound);
        lemma_link(p, r, bound, ra, rb, p[y] as int);
        assert(q[y] == p[y]);
        assert(s[y] < s[q[y] as int]);
        assert(s[q[y] as int] <= big);
    } else {
        assert(q[y] == p[y]);
    }
}

/// A union-find forest over `0..n`, with the ranks that bound its depth.
struct UnionFind {
    parent: Vec<usize>,
    rank: Ghost<Seq<nat>>,
    bound: Ghost<nat>,
}

impl UnionFind {
    pub closed spec fn ok(&self) -> bool {
        uf_ok(self.parent@, self.rank@, self.bound@)
    }

    pub closed spec fn root_of(&self, x: int) -> int {
        root(self.parent@, self.rank@, self.bound@, x)
    }

    /// Every node its own root.
    fn new(n: usize) -> (u: Self)
        ensures
            u.ok(),
            u.parent@.len() == n,
            forall|x: int| 0 <= x < n ==> #[trigger] u.root_of(x) == x,
    {
        let mut parent: Vec<usize> = Vec::new();
        let mut i: usize = 0;
        while i < n
            invariant
                0 <= i <= n,
                parent@.len() == i,
                forall|x: int| 0 <= x < i ==> #[trigger] parent@[x] == x,
            decreases n - i,
        {
            parent.push(i);
            i = i + 1;
        }
        let u = UnionFind { parent, rank: Ghost(Seq::new(n as nat, |x: int| 0nat)), bound: Ghost(0nat) };
        assert forall|x: int| 0 <= x < n implies #[trigger] u.root_of(x) == x by {
            assert(u.parent@[x] == x);
        }
        u
    }

    /// The root of `x`; every node on the way is pointed straight at it.
    fn find(&mut self, x: usize) -> (rt: usize)
        requires
            old(self).ok(),
            x < old(self).parent@.len(),
        ensures
            final(self).ok(),
            final(self).parent@.len() == old(self).parent@.len(),
            final(self).rank@ == old(self).rank@,
            final(self).bound@ == old(self).bound@,
            rt == old(self).root_of(x as int),
            forall|y: int| 0 <= y < old(self).parent@.len() ==> #[trigger] final(self).root_of(y) == old(self).root_of(y),
    {
        let ghost p0 = self.parent@;
        let ghost r0 = self.rank@;
        let ghost b0 = self.bound@;
        proof {
            lemma_root(self.parent@, self.rank@, self.bound@, x as int);
        }
        let mut cur = x;
        while self.parent[cur] != cur
            invariant
                self.ok(),
                self.parent@ == p0,
                cur < p0.len(),
                self.root_of(cur as int) == self.root_of(x as int),
            decreases self.bound@ - self.rank@[cur as int],
        {
            proof {
                lemma_root(self.parent@, self.rank@, self.bound@, cur as int);
                assert(self.rank@[self.parent@[cur as int] as int] <= self.bound@);
            }
            cur = self.parent[cur];
        }
        let rt = cur;
        let mut c = x;
        while self.parent[c] != c
            invariant
                self.ok(),
                self.rank@ == r0,
                self.bound@ == b0,
                self.parent@.len() == p0.len(),
                c < p0.len(),
                self.root_of(c as int) == rt,
                forall|y: int| 0 <= y < p0.len() ==> #[trigger] self.root_of(y) == root(p0, self.rank@, self.bound@, y),
            decreases self.bound@ - self.rank@[c as int],
        {
            let next = self.parent[c];
            proof {
                lemma_root(self.parent@, self.rank@, self.bound@, c as int);
                assert(root(self.parent@, self.rank@, self.bound@, c as int) as usize == rt);
                assert forall|y: int| 0 <= y < p0.len() implies #[trigger] root(
                    self.parent@.update(c as int, rt),
                    self.rank@,
                    self.bound@,
                    y,
                ) == root(p0, self.rank@, self.bound@, y) by {
                    lemma_compress(self.parent@, self.rank@, self.bound@, c as int, y);
                    assert(self.root_of(y) == root(p0, self.rank@, self.bound@, y));
                }
                lemma_compress(self.parent@, self.rank@, self.bound@, c as int, next as int);
                assert(self.rank@[next as int] <= self.bound@);
            }
            self.parent.set(c, rt);
            c = next;
        }
        rt
    }

    /// Joins the sets of `a` and `b`: `a`'s root is linked under `b`'s.
    fn union(&mut self, a: usize, b: usize)
        requires
            old(self).ok(),
            a < old(self).parent@.len(),
            b < old(self).parent@.len(),
        ensures
            final(self).ok(),
            final(self).parent@.len() == old(self).parent@.len(),
            forall|y: int|
                0 <= y < old(self).parent@.len() ==> #[trigger] final(self).root_of(y) == if old(self).root_of(y)
                    == old(self).root_of(a as int) {
                    old(self).root_of(b as int)
                } else {
                    old(self).root_of(y)
                },
    {
        let ghost s0 = *self;
        let ra = self.find(a);
        let ghost s1 = *self;
        let rb = self.find(b);
        let ghost s2 = *self;
        proof {
            assert forall|y: int| 0 <= y < s0.parent@.len() implies #[trigger] s2.root_of(y) == s0.root_of(y) by {
                assert(s1.root_of(y) == s0.root_of(y));
                assert(s2.root_of(y) == s1.root_of(y));
            }
            assert(s1.root_of(a as int) == s0.root_of(a as int));
            assert(self.root_of(a as int) == s1.root_of(a as int));
            assert(s1.root_of(b as int) == s0.root_of(b as int));
            assert(self.root_of(b as int) == s1.root_of(b as int));
            lemma_root(s0.parent@, s0.rank@, s0.bound@, a as int);
            lemma_root(s0.parent@, s0.rank@, s0.bound@, b as int);
            lemma_root(self.parent@, self.rank@, self.bound@, a as int);
            lemma_root(self.parent@, self.rank@, self.bound@, b as int);
        }
        if ra != rb {
            let ghost p1 = self.parent@;
            let ghost r1 = self.rank@;
            let ghost b1 = self.bound@;
            proof {
                assert forall|y: int| 0 <= y < p1.len() implies #[trigger] root(
                    p1.update(ra as int, rb),
                    linked_ranks(r1, ra as int, rb as int),
                    b1 + r1[ra as int] + 1,
                    y,
                ) == if root(p1, r1, b1, y) == ra {
                    rb as int
                } else {
                    root(p1, r1, b1, y)
                } by {
                    lemma_link(p1, r1, b1, ra as int, rb as int, y);
                }
                lemma_link(p1, r1, b1, ra as int, rb as int, 0);
            }
            self.parent.set(ra, rb);
            self.rank = Ghost(linked_ranks(r1, ra as int, rb as int));
            self.bound = Ghost(b1 + r1[ra as int] + 1);
            assert forall|y: int| 0 <= y < s0.parent@.len() implies #[trigger] self.root_of(y) == if s0.root_of(y)
                == s0.root_of(a as int) {
                s0.root_of(b as int)
            } else {
                s0.root_of(y)
            } by {
                assert(s2.root_of(y) == s0.root_of(y));
            }
        } else {
            assert forall|y: int| 0 <= y < s0.parent@.len() implies #[trigger] self.root_of(y) == if s0.root_of(y)
                == s0.root_of(a as int) {
                s0.root_of(b as int)
            } else {
                s0.root_of(y)
            } by {
                assert(s2.root_of(y) == s0.root_of(y));
            }
        }
    }
}


// ── Paths ───────────────────────────────────────────────────────────────────

/// `p` is a walk whose consecutive cells are linked.
pub open spec fn is_path(link: spec_fn(int, int) -> bool, p: Seq<int>) -> bool {
    &&& p.len() >= 1
    &&& forall|k: int| #![trigger p[k]] 0 <= k < p.len() - 1 ==> link(p[k], p[k + 1])
}

/// Some walk of linked cells leads from `a` to `b`.
pub open spec fn joined(link: spec_fn(int, int) -> bool, a: int, b: int) -> bool {
    exists|p: Seq<int>| #[trigger] is_path(link, p) && p[0] == a && p.last() == b
}

/// A link relation that goes both ways.
pub open spec fn symmetric(link: spec_fn(int, int) -> bool) -> bool {
    forall|u: int, v: int| #[trigger] link(u, v) ==> link(v, u)
}

proof fn lemma_joined_refl(link: spec_fn(int, int) -> bool, a: int)
    ensures
        joined(link, a, a),
{
    assert(is_path(link, seq![a]));
}

proof fn lemma_joined_step(link: spec_fn(int, int) -> bool, a: int, b: int, c: int)
    requires
        joined(link, a, b),
        link(b, c),
    ensures
        joined(link, a, c),
{
    let p = choose|p: Seq<int>| #[trigger] is_path(link, p) && p[0] == a && p.last() == b;
    let q = p.push(c);
    assert forall|k: int| #![trigger q[k]] 0 <= k < q.len() - 1 implies link(q[k], q[k + 1]) by {
        if k < p.len() - 1 {
            assert(q[k] == p[k] && q[k + 1] == p[k + 1]);
        } else {
            assert(q[k] == b && q[k + 1] == c);
        }
    }
    assert(is_path(link, q));
}

proof fn lemma_joined_sym(link: spec_fn(int, int) -> bool, a: int, b: int)
    requires
        joined(link, a, b),
        symmetric(link),
    ensures
        joined(link, b, a),
{
    let p = choose|p: Seq<int>| #[trigger] is_path(link, p) && p[0] == a && p.last() == b;
    let q = p.reverse();
    assert forall|k: int| #![trigger q[k]] 0 <= k < q.len() - 1 implies link(q[k], q[k + 1]) by {
        let j = p.len() - 2 - k;
        assert(p[j] == q[k + 1] && p[j + 1] == q[k]);
        assert(link(p[j], p[j + 1]));
    }
    assert(is_path(link, q));
}

proof fn lemma_joined_trans(link: spec_fn(int, int) -> bool, a: int, b: int, c: int)
    requires
        joined(link, a, b),
        joined(link, b, c),
    ensures
        joined(link, a, c),
{
    let p = choose|p: Seq<int>| #[trigger] is_path(link, p) && p[0] == a && p.last() == b;
    let q = choose|q: Seq<int>| #[trigger] is_path(link, q) && q[0] == b && q.last() == c;
    let t = p + q.drop_first();
    assert forall|k: int| #![trigger t[k]] 0 <= k < t.len() - 1 implies link(t[k], t[k + 1]) by {
        if k < p.len() - 1 {
            assert(t[k] == p[k] && t[k + 1] == p[k + 1]);
        } else if k == p.len() - 1 {
            assert(t[k] == b && t[k + 1] == q[1]);
            assert(q[0] == b);
        } else {
            let j = k - p.len() + 1;
            assert(t[k] == q[j] && t[k + 1] == q[j + 1]);
        }
    }
    assert(is_path(link, t));
    if q.len() == 1 {
        assert(t.last() == p.last());
    } else {
        assert(t.last() == q.last());
    }
}

proof fn lemma_joined_mono(l1: spec_fn(int, int) -> bool, l2: spec_fn(int, int) -> bool, a: int, b: int)
    requires
        joined(l1, a, b),
        forall|u: int, v: int| #[trigger] l1(u, v) ==> l2(u, v),
    ensures
        joined(l2, a, b),
{
    let p = choose|p: Seq<int>| #[trigger] is_path(l1, p) && p[0] == a && p.last() == b;
    assert(is_path(l2, p));
}

/// Along a walk whose links all keep `f`, `f` is the same at both ends.
proof fn lemma_path_keeps(link: spec_fn(int, int) -> bool, f: spec_fn(int) -> int, p: Seq<int>, k: int)
    requires
        is_path(link, p),
        forall|u: int, v: int| #[trigger] link(u, v) ==> f(u) == f(v),
        0 <= k < p.len(),
    ensures
        f(p[0]) == f(p[k]),
    decreases k,
{
    if k > 0 {
        lemma_path_keeps(link, f, p, k - 1);
        assert(link(p[k - 1], p[k]));
    }
}

// ── The walkable grid ───────────────────────────────────────────────────────

/// The row-major index of cell (x, y) on a grid `w` wide.
pub open spec fn cell_at(w: int, x: int, y: int) -> int {
    y * w + x
}

/// From walkable cell (x, y), `j` is its walkable right or lower neighbour.
pub open spec fn edge_from(w: int, h: int, m: Seq<bool>, x: int, y: int, j: int) -> bool {
    &&& m[cell_at(w, x, y)]
    &&& m[j]
    &&& ((x + 1 < w && j == cell_at(w, x, y) + 1) || (y + 1 < h && j == cell_at(w, x, y) + w))
}

/// `j` is the walkable right or lower neighbour of walkable cell `i`.
pub open spec fn step_edge(w: int, h: int, m: Seq<bool>, i: int, j: int) -> bool {
    exists|x: int, y: int| #![trigger cell_at(w, x, y)] 0 <= x < w && 0 <= y < h && cell_at(w, x, y) == i && edge_from(w, h, m, x, y, j)
}

/// Walkable cells that share a side.
pub open spec fn grid_link(w: int, h: int, m: Seq<bool>) -> spec_fn(int, int) -> bool {
    |u: int, v: int| step_edge(w, h, m, u, v) || step_edge(w, h, m, v, u)
}

/// The links of a set of edges, both ways.
pub open spec fn edge_link(edges: Set<(int, int)>) -> spec_fn(int, int) -> bool {
    |u: int, v: int| edges.contains((u, v)) || edges.contains((v, u))
}

proof fn lemma_neighbours(w: int, h: int, x: int, y: int)
    requires
        0 <= x < w,
        0 <= y < h,
    ensures
        0 <= cell_at(w, x, y) < w * h,
        x + 1 < w ==> cell_at(w, x, y) + 1 < w * h,
        y + 1 < h ==> cell_at(w, x, y) + w < w * h,
{
    assert(0 <= y * w + x < w * h) by (nonlinear_arith)
        requires
            0 <= x < w,
            0 <= y < h,
    ;
    if x + 1 < w {
        assert(y * w + (x + 1) < w * h) by (nonlinear_arith)
            requires
                0 <= x + 1 < w,
                0 <= y < h,
        ;
    }
    if y + 1 < h {
        assert((y + 1) * w + x < w * h) by (nonlinear_arith)
            requires
                0 <= x < w,
                0 <= y + 1 < h,
        ;
        assert((y + 1) * w + x == y * w + x + w) by (nonlinear_arith);
    }
}

/// After joining the sets of `i` and `j`, the union-find answers for the
/// edges with `(i, j)` added.
proof fn lemma_after_union(before: UnionFind, after: UnionFind, edges: Set<(int, int)>, n: int, i: int, j: int)
    requires
        before.ok(),
        before.parent@.len() == n,
        0 <= i < n,
        0 <= j < n,
        forall|e: (int, int)| #[trigger] edges.contains(e) ==> 0 <= e.0 < n && 0 <= e.1 < n,
        forall|e: (int, int)| #[trigger] edges.contains(e) ==> before.root_of(e.0) == before.root_of(e.1),
        forall|z: int| 0 <= z < n ==> joined(edge_link(edges), z, #[trigger] before.root_of(z)),
        forall|y: int|
            0 <= y < n ==> #[trigger] after.root_of(y) == if before.root_of(y) == before.root_of(i) {
                before.root_of(j)
            } else {
                before.root_of(y)
            },
    ensures
        forall|e: (int, int)| #[trigger] edges.insert((i, j)).contains(e) ==> after.root_of(e.0) == after.root_of(e.1),
        forall|z: int| 0 <= z < n ==> joined(edge_link(edges.insert((i, j))), z, #[trigger] after.root_of(z)),
{
    let bigger = edges.insert((i, j));
    let l0 = edge_link(edges);
    let l1 = edge_link(bigger);
    assert forall|e: (int, int)| #[trigger] bigger.contains(e) implies after.root_of(e.0) == after.root_of(e.1) by {
        if e != (i, j) {
            assert(edges.contains(e));
        }
        assert(after.root_of(e.0) == if before.root_of(e.0) == before.root_of(i) {
            before.root_of(j)
        } else {
            before.root_of(e.0)
        });
        assert(after.root_of(e.1) == if before.root_of(e.1) == before.root_of(i) {
            before.root_of(j)
        } else {
            before.root_of(e.1)
        });
    }
    assert forall|u: int, v: int| #[trigger] l0(u, v) implies l1(u, v) by {}
    assert(symmetric(l1));
    assert forall|z: int| 0 <= z < n implies joined(l1, z, #[trigger] after.root_of(z)) by {
        let rz = before.root_of(z);
        lemma_joined_mono(l0, l1, z, rz);
        if rz == before.root_of(i) {
            let ri = before.root_of(i);
            let rj = before.root_of(j);
            lemma_joined_mono(l0, l1, i, ri);
            lemma_joined_mono(l0, l1, j, rj);
            lemma_joined_sym(l1, i, ri);
            lemma_joined_step(l1, ri, i, j);
            lemma_joined_trans(l1, z, ri, j);
            lemma_joined_trans(l1, z, j, rj);
        }
    }
}

/// At the end of the sweep, two cells share a root exactly when a walk of
/// walkable neighbours joins them.
proof fn lemma_answer(uf: UnionFind, edges: Set<(int, int)>, m: Seq<bool>, w: int, h: int, n: int, ia: int, ib: int)
    requires
        uf.ok(),
        uf.parent@.len() == n,
        0 <= ia < n,
        0 <= ib < n,
        forall|e: (int, int)| #[trigger] edges.contains(e) ==> step_edge(w, h, m, e.0, e.1),
        forall|e: (int, int)| #[trigger] edges.contains(e) ==> uf.root_of(e.0) == uf.root_of(e.1),
        forall|z: int| 0 <= z < n ==> joined(edge_link(edges), z, #[trigger] uf.root_of(z)),
        forall|x1: int, y1: int, j: int|
            #![trigger edge_from(w, h, m, x1, y1, j)]
            0 <= x1 < w && 0 <= y1 < h && edge_from(w, h, m, x1, y1, j) ==> edges.contains((cell_at(w, x1, y1), j)),
    ensures
        (uf.root_of(ia) == uf.root_of(ib)) == joined(grid_link(w, h, m), ia, ib),
{
    let le = edge_link(edges);
    let lg = grid_link(w, h, m);
    assert(symmetric(le));
    if uf.root_of(ia) == uf.root_of(ib) {
        let rho = uf.root_of(ia);
        lemma_joined_sym(le, ib, rho);
        lemma_joined_trans(le, ia, rho, ib);
        assert forall|u: int, v: int| #[trigger] le(u, v) implies lg(u, v) by {
            if edges.contains((u, v)) {
                assert(step_edge(w, h, m, u, v));
            } else {
                assert(edges.contains((v, u)));
                assert(step_edge(w, h, m, v, u));
            }
        }
        lemma_joined_mono(le, lg, ia, ib);
    }
    if joined(lg, ia, ib) {
        let p = choose|p: Seq<int>| #[trigger] is_path(lg, p) && p[0] == ia && p.last() == ib;
        let f = |z: int| uf.root_of(z);
        assert forall|u: int, v: int| #[trigger] lg(u, v) implies f(u) == f(v) by {
            if step_edge(w, h, m, u, v) {
                let (x1, y1) = choose|x1: int, y1: int| #![trigger cell_at(w, x1, y1)]
                    0 <= x1 < w && 0 <= y1 < h && cell_at(w, x1, y1) == u && edge_from(w, h, m, x1, y1, v);
                assert(edges.contains((cell_at(w, x1, y1), v)));
                assert(edges.contains((u, v)));
            } else {
                assert(step_edge(w, h, m, v, u));
                let (x1, y1) = choose|x1: int, y1: int| #![trigger cell_at(w, x1, y1)]
                    0 <= x1 < w && 0 <= y1 < h && cell_at(w, x1, y1) == v && edge_from(w, h, m, x1, y1, u);
                assert(edges.contains((cell_at(w, x1, y1), u)));
                assert(edges.contains((v, u)));
            }
        }
        lemma_path_keeps(lg, f, p, p.len() - 1);
    }
}

/// Whether two cells of the grid are connected through walkable cells
/// (sharing sides): both walkable and joined by a walk of walkable
/// neighbours. Union-find over each walkable cell's right and lower
/// walkable neighbours, in row-major order.
pub fn connected_where_walkable(grid: &Grid, walkable: &Vec<bool>, a: (usize, usize), b: (usize, usize)) -> (r: bool)
    requires
        grid.width * grid.height <= usize::MAX,
        walkable@.len() == grid.width * grid.height,
        a.0 < grid.width,
        a.1 < grid.height,
        b.0 < grid.width,
        b.1 < grid.height,
    ensures
        r == (walkable@[cell_at(grid.width as int, a.0 as int, a.1 as int)] && walkable@[cell_at(
            grid.width as int,
            b.0 as int,
            b.1 as int,
        )] && joined(
            grid_link(grid.width as int, grid.height as int, walkable@),
            cell_at(grid.width as int, a.0 as int, a.1 as int),
            cell_at(grid.width as int, b.0 as int, b.1 as int),
        )),
{
    let w = grid.width;
    let h = grid.height;
    let ghost wi = w as int;
    let ghost hi = h as int;
    let ghost m = walkable@;
    let n = w * h;
    proof {
        lemma_neighbours(wi, hi, a.0 as int, a.1 as int);
        lemma_neighbours(wi, hi, b.0 as int, b.1 as int);
    }
    let ia = a.1 * w + a.0;
    let ib = b.1 * w + b.0;
    if !walkable[ia] || !walkable[ib] {
        return false;
    }
    let mut uf = UnionFind::new(n);
    let ghost mut edges: Set<(int, int)> = Set::empty();
    proof {
        assert forall|z: int| 0 <= z < n implies joined(edge_link(edges), z, #[trigger] uf.root_of(z)) by {
            lemma_joined_refl(edge_link(edges), z);
        }
    }
    let mut y: usize = 0;
    while y < h
        invariant
            w == grid.width,
            h == grid.height,
            n == w * h,
            n <= usize::MAX,
            m == walkable@,
            m.len() == n,
            wi == w,
            hi == h,
            0 <= y <= h,
            uf.ok(),
            uf.parent@.len() == n,
            forall|e: (int, int)| #[trigger] edges.contains(e) ==> step_edge(wi, hi, m, e.0, e.1),
            forall|e: (int, int)| #[trigger] edges.contains(e) ==> 0 <= e.0 < n && 0 <= e.1 < n,
            forall|e: (int, int)| #[trigger] edges.contains(e) ==> uf.root_of(e.0) == uf.root_of(e.1),
            forall|z: int| 0 <= z < n ==> joined(edge_link(edges), z, #[trigger] uf.root_of(z)),
            forall|x1: int, y1: int, j: int|
                #![trigger edge_from(wi, hi, m, x1, y1, j)]
                0 <= x1 < w && 0 <= y1 < y && edge_from(wi, hi, m, x1, y1, j) ==> edges.contains(
                    (cell_at(wi, x1, y1), j),
                ),
        decreases h - y,
    {
        let mut x: usize = 0;
        while x < w
            invariant
                w == grid.width,
                h == grid.height,
                n == w * h,
                n <= usize::MAX,
                m == walkable@,
                m.len() == n,
                wi == w,
                hi == h,
                0 <= y < h,
                0 <= x <= w,
                uf.ok(),
                uf.parent@.len() == n,
                forall|e: (int, int)| #[trigger] edges.contains(e) ==> step_edge(wi, hi, m, e.0, e.1),
                forall|e: (int, int)| #[trigger] edges.contains(e) ==> 0 <= e.0 < n && 0 <= e.1 < n,
            forall|e: (int, int)| #[trigger] edges.contains(e) ==> 0 <= e.0 < n && 0 <= e.1 < n,
                forall|e: (int, int)| #[trigger] edges.contains(e) ==> uf.root_of(e.0) == uf.root_of(e.1),
                forall|z: int| 0 <= z < n ==> joined(edge_link(edges), z, #[trigger] uf.root_of(z)),
                forall|x1: int, y1: int, j: int|
                    #![trigger edge_from(wi, hi, m, x1, y1, j)]
                    0 <= x1 < w && 0 <= y1 < h && (y1 < y || (y1 == y && x1 < x)) && edge_from(wi, hi, m, x1, y1, j)
                        ==> edges.contains((cell_at(wi, x1, y1), j)),
            decreases w - x,
        {
            proof {
                lemma_neighbours(wi, hi, x as int, y as int);
            }
            let i = y * w + x;
            if walkable[i] {
                if x + 1 < w && walkable[i + 1] {
                    let ghost before = uf;
                    uf.union(i, i + 1);
                    proof {
                        lemma_after_union(before, uf, edges, n as int, i as int, (i + 1) as int);
                        assert(edge_from(wi, hi, m, x as int, y as int, (i + 1) as int));
                        assert(step_edge(wi, hi, m, i as int, (i + 1) as int));
                        edges = edges.insert((i as int, (i + 1) as int));
                    }
                }
                if y + 1 < h && walkable[i + w] {
                    let ghost before = uf;
                    uf.union(i, i + w);
                    proof {
                        lemma_after_union(before, uf, edges, n as int, i as int, (i + w) as int);
                        assert(edge_from(wi, hi, m, x as int, y as int, (i + w) as int));
                        assert(step_edge(wi, hi, m, i as int, (i + w) as int));
                        edges = edges.insert((i as int, (i + w) as int));
                    }
                }
            }
            proof {
                assert forall|j: int| #[trigger] edge_from(wi, hi, m, x as int, y as int, j) implies edges.contains(
                    (cell_at(wi, x as int, y as int), j),
                ) by {
                    assert(cell_at(wi, x as int, y as int) == i as int);
                }
            }
            x = x + 1;
        }
        y = y + 1;
    }
    let ghost before = uf;
    let ra = uf.find(ia);
    let rb = uf.find(ib);
    proof {
        lemma_answer(before, edges, m, wi, hi, n as int, ia as int, ib as int);
    }
    ra == rb
}


/// Two cells are connected through the walkable cells of a mask.
pub open spec fn connected_in(w: int, h: int, m: Seq<bool>, a: int, b: int) -> bool {
    m[a] && m[b] && joined(grid_link(w, h, m), a, b)
}

/// Monotone severance: a mask that keeps fewer cells walkable can only
/// lose connections. (A wider traveller sees fewer walkable cells, so
/// once two cells are severed at some width they stay severed for every
/// wider one.)
pub proof fn law_monotone_severance(w: int, h: int, wide: Seq<bool>, narrow: Seq<bool>, a: int, b: int)
    requires
        narrow.len() == wide.len(),
        narrow.len() == w * h,
        forall|i: int| 0 <= i < narrow.len() && #[trigger] narrow[i] ==> wide[i],
        0 <= a < narrow.len(),
        0 <= b < narrow.len(),
        connected_in(w, h, narrow, a, b),
    ensures
        connected_in(w, h, wide, a, b),
{
    let ln = grid_link(w, h, narrow);
    let lw = grid_link(w, h, wide);
    assert forall|u: int, v: int| #[trigger] ln(u, v) implies lw(u, v) by {
        if step_edge(w, h, narrow, u, v) {
            let (x1, y1) = choose|x1: int, y1: int| #![trigger cell_at(w, x1, y1)]
                0 <= x1 < w && 0 <= y1 < h && cell_at(w, x1, y1) == u && edge_from(w, h, narrow, x1, y1, v);
            lemma_neighbours(w, h, x1, y1);
            assert(edge_from(w, h, wide, x1, y1, v)) by {
                assert(narrow[cell_at(w, x1, y1)]);
            }
            assert(step_edge(w, h, wide, u, v));
        } else {
            let (x1, y1) = choose|x1: int, y1: int| #![trigger cell_at(w, x1, y1)]
                0 <= x1 < w && 0 <= y1 < h && cell_at(w, x1, y1) == v && edge_from(w, h, narrow, x1, y1, u);
            lemma_neighbours(w, h, x1, y1);
            assert(edge_from(w, h, wide, x1, y1, u)) by {
                assert(narrow[cell_at(w, x1, y1)]);
            }
            assert(step_edge(w, h, wide, v, u));
        }
    }
    lemma_joined_mono(ln, lw, a, b);
}

} // verus!
