//! HeptaSectorMap — discrete sector addressing of the 7-sector manifold.

use vstd::prelude::*;

verus! {

/// Maps 7D coordinates to discrete Hepta sector bins.
pub struct HeptaSectorMap {
    /// Bin resolution per axis unit.
    resolution: u32,
}

/// Saturating addition and multiplication on u64.
pub open spec fn sat(x: int) -> u64 {
    if x > u64::MAX { u64::MAX } else { x as u64 }
}

/// The base-7 search key of the first `n` address components, with
/// every digit capped at 6 and every step saturating; also the running
/// place value.
pub open spec fn search_key_upto(addr: Seq<u64>, n: nat) -> (u64, u64)
    decreases n,
{
    if n == 0 {
        (0, 1)
    } else {
        let (key, base) = search_key_upto(addr, (n - 1) as nat);
        let digit: u64 = if addr[n - 1] < 6 { addr[n - 1] } else { 6 };
        (sat(key + sat(digit * base)), sat(base * 7))
    }
}

/// Saturating product of two u64 values.
fn sat_mul(a: u64, b: u64) -> (r: u64)
    ensures
        r == sat(a * b),
{
    match a.checked_mul(b) {
        Some(x) => x,
        None => u64::MAX,
    }
}

impl HeptaSectorMap {
    /// A sector map with `resolution` bins per axis unit (non-zero).
    pub fn new(resolution: u32) -> (m: Self)
        requires
            resolution > 0,
        ensures
            m.resolution() == resolution,
    {
        HeptaSectorMap { resolution }
    }

    /// Bins per axis unit.
    pub closed spec fn resolution(&self) -> u32 {
        self.resolution
    }

    /// Bins per axis unit.
    pub fn get_resolution(&self) -> (r: u32)
        ensures
            r == self.resolution(),
    {
        self.resolution
    }

    /// The base-7 search key of a sector address: each axis contributes
    /// one digit (capped at 6), accumulated with saturating arithmetic.
    pub fn address_search_key(addr: &[u64; 7]) -> (k: u64)
        ensures
            k == search_key_upto(addr@, 7).0,
    {
        let mut key: u64 = 0;
        let mut base: u64 = 1;
        let mut i: usize = 0;
        while i < 7
            invariant
                0 <= i <= 7,
                addr@.len() == 7,
                (key, base) == search_key_upto(addr@, i as nat),
            decreases 7 - i,
        {
            let a = addr[i];
            let digit: u64 = if a < 6 { a } else { 6 };
            key = key.saturating_add(sat_mul(digit, base));
            base = sat_mul(base, 7);
            i = i + 1;
        }
        key
    }
}

} // verus!
