//! The disconnect-width searches: over candidate widths in ascending
//! order, the first at which two cells are severed. The severance test of
//! a candidate is the caller's (it works on floating-point widths); the
//! searches ask it by candidate index.

use vstd::prelude::*;

verus! {

/// The test answers `sev` for every candidate index below `n`.
pub open spec fn decides<F: Fn(usize) -> bool>(severed: F, sev: spec_fn(int) -> bool, n: int) -> bool {
    forall|i: usize, b: bool| (i as int) < n && #[trigger] call_ensures(severed, (i,), b) ==> b == sev(i as int)
}

/// Once severed, severed at every later candidate.
pub open spec fn monotone(sev: spec_fn(int) -> bool, n: int) -> bool {
    forall|i: int, j: int| 0 <= i <= j < n && #[trigger] sev(i) ==> #[trigger] sev(j)
}

/// `r` is the first candidate below `n` at which `sev` holds, `None` when
/// there is none.
pub open spec fn is_first_severed(sev: spec_fn(int) -> bool, n: int, r: Option<usize>) -> bool {
    match r {
        None => forall|i: int| 0 <= i < n ==> !#[trigger] sev(i),
        Some(k) => k < n && sev(k as int) && forall|i: int| 0 <= i < k ==> !#[trigger] sev(i),
    }
}

/// The first of `n` candidates at which `severed` says the cells are
/// severed, asking each candidate in turn.
pub fn disconnect_width_linear_scan<F: Fn(usize) -> bool>(n: usize, severed: F) -> (r: Option<usize>)
    requires
        forall|i: usize| i < n ==> #[trigger] call_requires(severed, (i,)),
    ensures
        forall|sev: spec_fn(int) -> bool| #[trigger] decides(severed, sev, n as int) ==> is_first_severed(sev, n as int, r),
{
    let mut i: usize = 0;
    while i < n
        invariant
            0 <= i <= n,
            forall|k: usize| k < n ==> #[trigger] call_requires(severed, (k,)),
            forall|j: usize| j < i ==> #[trigger] call_ensures(severed, (j,), false),
        decreases n - i,
    {
        let b = severed(i);
        if b {
            proof {
                assert forall|sev: spec_fn(int) -> bool| #[trigger] decides(severed, sev, n as int) implies is_first_severed(
                    sev,
                    n as int,
                    Some(i),
                ) by {
                    assert forall|j: int| 0 <= j < i implies !#[trigger] sev(j) by {
                        assert(call_ensures(severed, (j as usize,), false));
                    }
                }
            }
            return Some(i);
        }
        i = i + 1;
    }
    proof {
        assert forall|sev: spec_fn(int) -> bool| #[trigger] decides(severed, sev, n as int) implies is_first_severed(
            sev,
            n as int,
            None,
        ) by {
            assert forall|j: int| 0 <= j < n implies !#[trigger] sev(j) by {
                assert(call_ensures(severed, (j as usize,), false));
            }
        }
    }
    None
}

/// The first of `n` candidates at which `severed` says the cells are
/// severed, by bisection: O(log n) questions, valid when severance is
/// monotone over the candidates.
pub fn disconnect_width_bisection<F: Fn(usize) -> bool>(n: usize, severed: F) -> (r: Option<usize>)
    requires
        forall|i: usize| i < n ==> #[trigger] call_requires(severed, (i,)),
    ensures
        forall|sev: spec_fn(int) -> bool|
            #[trigger] decides(severed, sev, n as int) && monotone(sev, n as int) ==> is_first_severed(sev, n as int, r),
{
    let mut lo: usize = 0;
    let mut hi: usize = n;
    while lo < hi
        invariant
            0 <= lo <= hi <= n,
            forall|k: usize| k < n ==> #[trigger] call_requires(severed, (k,)),
            lo > 0 ==> call_ensures(severed, ((lo - 1) as usize,), false),
            hi < n ==> call_ensures(severed, (hi,), true),
        decreases hi - lo,
    {
        let mid = lo + (hi - lo) / 2;
        if severed(mid) {
            hi = mid;
        } else {
            lo = mid + 1;
        }
    }
    let r = if lo == n {
        None
    } else {
        Some(lo)
    };
    proof {
        assert forall|sev: spec_fn(int) -> bool|
            #[trigger] decides(severed, sev, n as int) && monotone(sev, n as int) implies is_first_severed(
            sev,
            n as int,
            r,
        ) by {
            if lo > 0 {
                assert(!sev(lo - 1));
            }
            if lo < n {
                assert(sev(lo as int));
            }
            assert forall|j: int| 0 <= j < lo implies !#[trigger] sev(j) by {
                if sev(j) {
                    assert(sev(lo - 1));
                }
            }
        }
    }
    r
}

/// Bisection finds what the linear scan finds: for a severance test that
/// answers consistently and is monotone over the candidates, any results
/// the two searches may give (each as its contract states) are the same
/// first severed candidate, or both none.
pub proof fn law_bisection_matches_scan<F: Fn(usize) -> bool>(
    severed: F,
    sev: spec_fn(int) -> bool,
    n: usize,
    bisected: Option<usize>,
    scanned: Option<usize>,
)
    requires
        decides(severed, sev, n as int),
        monotone(sev, n as int),
        forall|s: spec_fn(int) -> bool|
            #[trigger] decides(severed, s, n as int) && monotone(s, n as int) ==> is_first_severed(s, n as int, bisected),
        forall|s: spec_fn(int) -> bool| #[trigger] decides(severed, s, n as int) ==> is_first_severed(s, n as int, scanned),
    ensures
        bisected == scanned,
{
    assert(is_first_severed(sev, n as int, bisected));
    assert(is_first_severed(sev, n as int, scanned));
    match (bisected, scanned) {
        (Some(a), Some(b)) => {
            if a < b {
                assert(!sev(a as int));
            } else if b < a {
                assert(!sev(b as int));
            }
        },
        (Some(a), None) => {
            assert(!sev(a as int));
        },
        (None, Some(b)) => {
            assert(!sev(b as int));
        },
        (None, None) => {},
    }
}

} // verus!
