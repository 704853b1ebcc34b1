//! ModularNaviIndex — a histogram of edge cost buckets ("Fourier
//! coefficients") that fingerprints a NaviMap's routing topology, with its
//! signature, equivalence, spectral queries and textual form.

use vstd::prelude::*;
use crate::text::{decimal, push_decimal, signed_decimal, push_signed_decimal, string_push};
use crate::kupru::canonical::{extend_bytes, le32, u32_le_bytes};

verus! {

/// Maximum number of cost buckets.
pub const MAX_BUCKETS: usize = 512;

// ── Divisor sums ───────────────────────────────────────────────────────────

/// Sum of the divisors of `n` that are at most `k`.
pub open spec fn divisor_sum_upto(n: nat, k: nat) -> nat
    decreases k,
{
    if k == 0 {
        0
    } else {
        divisor_sum_upto(n, (k - 1) as nat) + if n % k == 0 { k } else { 0 }
    }
}

/// σ₁(n): the sum of all positive divisors of n.
pub open spec fn sigma1_spec(n: nat) -> nat {
    divisor_sum_upto(n, n)
}

proof fn lemma_divisor_sum_monotone(n: nat, j: nat, k: nat)
    requires
        j <= k,
    ensures
        divisor_sum_upto(n, j) <= divisor_sum_upto(n, k),
    decreases k,
{
    if j < k {
        lemma_divisor_sum_monotone(n, j, (k - 1) as nat);
    }
}

/// Divisor-sum function σ₁(n) = sum of all positive divisors of n.
pub fn sigma1(n: u32) -> (s: u32)
    requires
        sigma1_spec(n as nat) <= u32::MAX,
    ensures
        s == sigma1_spec(n as nat),
{
    let mut sum: u32 = 0;
    let mut k: u32 = 0;
    while k < n
        invariant
            k <= n,
            sum == divisor_sum_upto(n as nat, k as nat),
            sigma1_spec(n as nat) <= u32::MAX,
        decreases n - k,
    {
        let d: u32 = k + 1;
        proof {
            lemma_divisor_sum_monotone(n as nat, d as nat, n as nat);
        }
        if n % d == 0 {
            sum = sum + d;
        }
        k = d;
    }
    sum
}

// ── Chord weights ──────────────────────────────────────────────────────────

/// The four chord types of the heptagram routing map.
#[derive(Debug, Clone, Copy, PartialEq, Eq, Structural)]
pub enum HeptaChordType {
    Spoke,
    Rim,
    Local,
    Diagonal,
}

/// Modular weight of each chord type.
pub open spec fn chord_weight_spec(c: HeptaChordType) -> i8 {
    match c {
        HeptaChordType::Spoke => -1i8,
        HeptaChordType::Rim => 0i8,
        HeptaChordType::Local => 1i8,
        HeptaChordType::Diagonal => 2i8,
    }
}

/// The chord type of a weight; every weight other than -1, 0, 1 is
/// Diagonal.
pub open spec fn weight_chord_spec(w: i8) -> HeptaChordType {
    if w == -1 {
        HeptaChordType::Spoke
    } else if w == 0 {
        HeptaChordType::Rim
    } else if w == 1 {
        HeptaChordType::Local
    } else {
        HeptaChordType::Diagonal
    }
}

/// Modular weight for each chord type.
pub fn chord_weight(chord: HeptaChordType) -> (w: i8)
    ensures
        w == chord_weight_spec(chord),
{
    match chord {
        HeptaChordType::Spoke => -1,
        HeptaChordType::Rim => 0,
        HeptaChordType::Local => 1,
        HeptaChordType::Diagonal => 2,
    }
}

/// Chord type for a given modular weight (inverse of chord_weight).
pub fn weight_chord(weight: i8) -> (c: HeptaChordType)
    ensures
        c == weight_chord_spec(weight),
{
    match weight {
        -1 => HeptaChordType::Spoke,
        0 => HeptaChordType::Rim,
        1 => HeptaChordType::Local,
        _ => HeptaChordType::Diagonal,
    }
}

/// `weight_chord` undoes `chord_weight`.
pub proof fn law_chord_weight_roundtrip(c: HeptaChordType)
    ensures
        weight_chord_spec(chord_weight_spec(c)) == c,
{
}

// ── ModularNaviIndex ───────────────────────────────────────────────────────

/// Compact Fourier index encoding the routing topology of a NaviMap.
#[derive(Debug, Clone)]
pub struct ModularNaviIndex {
    /// Modular weight of the dominant chord type.
    pub weight: i8,
    /// NaviGraph node count at index build time.
    pub level: u32,
    /// a(n) = directed edges in cost bucket n (no trailing zeros).
    pub coeffs: Vec<u32>,
    /// CRC-16 over the serialized (weight, level, coeffs).
    pub checksum: u16,
}

/// The 64-bit signature: weight (offset by 128), level and checksum in
/// disjoint bit fields.
pub open spec fn signature_spec(weight: i8, level: u32, checksum: u16) -> int {
    (weight + 128) * 0x1_0000_0000_0000 + level * 0x1_0000 + checksum
}

/// Sum of a coefficient sequence.
pub open spec fn mass(c: Seq<u32>) -> nat
    decreases c.len(),
{
    if c.len() == 0 {
        0
    } else {
        mass(c.drop_last()) + (c.last() as nat)
    }
}

/// Number of non-zero coefficients.
pub open spec fn nonzero_count(c: Seq<u32>) -> nat
    decreases c.len(),
{
    if c.len() == 0 {
        0
    } else {
        nonzero_count(c.drop_last()) + if c.last() > 0 { 1nat } else { 0nat }
    }
}

/// `i` is the last index holding the largest coefficient.
pub open spec fn is_last_peak(c: Seq<u32>, i: int) -> bool {
    &&& 0 <= i < c.len()
    &&& forall|j: int| 0 <= j < c.len() ==> c[j] <= c[i]
    &&& forall|j: int| i < j < c.len() ==> c[j] < c[i]
}

/// The text "a(i)=v" of one bucket.
pub open spec fn term_text(i: nat, v: u32) -> Seq<char> {
    "a("@ + decimal(i) + ")="@ + decimal(v as nat)
}

/// The non-zero buckets among the first `n`, as "a(i)=v" joined by spaces.
pub open spec fn terms_text(c: Seq<u32>, n: nat) -> Seq<char>
    decreases n,
{
    if n == 0 {
        Seq::empty()
    } else {
        let prev = terms_text(c, (n - 1) as nat);
        if c[n - 1] > 0 {
            if prev.len() == 0 {
                term_text((n - 1) as nat, c[n - 1])
            } else {
                prev + " "@ + term_text((n - 1) as nat, c[n - 1])
            }
        } else {
            prev
        }
    }
}

/// The compact text "θ{w=W L=L terms}".
pub open spec fn fourier_text(weight: i8, level: u32, c: Seq<u32>) -> Seq<char> {
    "θ{w="@ + signed_decimal(weight as int) + " L="@ + decimal(level as nat) + " "@
        + terms_text(c, c.len()) + "}"@
}

impl ModularNaviIndex {
    /// 64-bit compact signature: weight, level and checksum packed into
    /// disjoint bit fields.
    pub fn signature(&self) -> (s: u64)
        ensures
            s == signature_spec(self.weight, self.level, self.checksum),
    {
        let w: u64 = (self.weight as i16 + 128) as u64;
        let l: u64 = self.level as u64;
        let c: u64 = self.checksum as u64;
        assert(w < 256);
        assert((w << 48) | (l << 16) | c == w * 0x1_0000_0000_0000 + l * 0x1_0000 + c)
            by (bit_vector)
            requires
                w < 256,
                l < 0x1_0000_0000,
                c < 0x1_0000,
        ;
        (w << 48) | (l << 16) | c
    }

    /// Structural routing equivalence: same weight, level and checksum.
    pub fn is_equivalent(&self, other: &Self) -> (b: bool)
        ensures
            b == (self.weight == other.weight && self.level == other.level && self.checksum
                == other.checksum),
    {
        self.weight == other.weight && self.level == other.level && self.checksum
            == other.checksum
    }

    /// Exact coefficient match: same weight, level and coefficients.
    pub fn coeffs_match(&self, other: &Self) -> (b: bool)
        ensures
            b == (self.weight == other.weight && self.level == other.level && self.coeffs@
                == other.coeffs@),
    {
        if self.weight != other.weight || self.level != other.level {
            return false;
        }
        if self.coeffs.len() != other.coeffs.len() {
            return false;
        }
        let mut i: usize = 0;
        while i < self.coeffs.len()
            invariant
                self.coeffs@.len() == other.coeffs@.len(),
                0 <= i <= self.coeffs@.len(),
                forall|j: int| 0 <= j < i ==> self.coeffs@[j] == other.coeffs@[j],
            decreases self.coeffs@.len() - i,
        {
            if self.coeffs[i] != other.coeffs[i] {
                return false;
            }
            i = i + 1;
        }
        assert(self.coeffs@ =~= other.coeffs@);
        true
    }

    /// Sum of all coefficients = total directed edge count.
    pub fn total_mass(&self) -> (m: u32)
        requires
            mass(self.coeffs@) <= u32::MAX,
        ensures
            m == mass(self.coeffs@),
    {
        let mut sum: u32 = 0;
        let mut i: usize = 0;
        while i < self.coeffs.len()
            invariant
                0 <= i <= self.coeffs@.len(),
                sum == mass(self.coeffs@.subrange(0, i as int)),
                mass(self.coeffs@) <= u32::MAX,
            decreases self.coeffs@.len() - i,
        {
            proof {
                let s = self.coeffs@;
                assert(s.subrange(0, i + 1).drop_last() =~= s.subrange(0, i as int));
                lemma_mass_prefix(s, i + 1);
            }
            sum = sum + self.coeffs[i];
            i = i + 1;
        }
        assert(self.coeffs@.subrange(0, i as int) =~= self.coeffs@);
        sum
    }

    /// The dominant chord type (the chord of the weight).
    pub fn dominant_chord(&self) -> (c: HeptaChordType)
        ensures
            c == weight_chord_spec(self.weight),
    {
        weight_chord(self.weight)
    }

    /// The last bucket holding the highest coefficient (0 when empty).
    pub fn spectral_peak_bucket(&self) -> (b: usize)
        ensures
            self.coeffs@.len() == 0 ==> b == 0,
            self.coeffs@.len() > 0 ==> is_last_peak(self.coeffs@, b as int),
    {
        if self.coeffs.len() == 0 {
            return 0;
        }
        let mut best: usize = 0;
        let mut i: usize = 1;
        while i < self.coeffs.len()
            invariant
                1 <= i <= self.coeffs@.len(),
                0 <= best < i,
                forall|j: int| 0 <= j < i ==> self.coeffs@[j] <= self.coeffs@[best as int],
                forall|j: int| best < j < i ==> self.coeffs@[j] < self.coeffs@[best as int],
            decreases self.coeffs@.len() - i,
        {
            if self.coeffs[i] >= self.coeffs[best] {
                best = i;
            }
            i = i + 1;
        }
        best
    }

    /// Number of occupied (non-zero) buckets.
    pub fn spectral_width(&self) -> (w: usize)
        ensures
            w == nonzero_count(self.coeffs@),
    {
        let mut count: usize = 0;
        let mut i: usize = 0;
        while i < self.coeffs.len()
            invariant
                0 <= i <= self.coeffs@.len(),
                count == nonzero_count(self.coeffs@.subrange(0, i as int)),
                count <= i,
            decreases self.coeffs@.len() - i,
        {
            proof {
                let s = self.coeffs@;
                assert(s.subrange(0, i + 1).drop_last() =~= s.subrange(0, i as int));
            }
            if self.coeffs[i] > 0 {
                count = count + 1;
            }
            i = i + 1;
        }
        assert(self.coeffs@.subrange(0, i as int) =~= self.coeffs@);
        count
    }

    /// Coefficient of bucket `n` (0 beyond the stored buckets).
    pub fn coeff_at_bucket(&self, n: usize) -> (c: u32)
        ensures
            c == if n < self.coeffs@.len() { self.coeffs@[n as int] } else { 0 },
    {
        if n < self.coeffs.len() {
            self.coeffs[n]
        } else {
            0
        }
    }

    /// Compact text: "θ{w=W L=L a(i)=v …}" listing only non-zero buckets.
    pub fn fourier_repr(&self) -> (s: String)
        ensures
            s@ == fourier_text(self.weight, self.level, self.coeffs@),
    {
        let mut s = "θ{w=".to_owned();
        push_signed_decimal(&mut s, self.weight as i64);
        s.append(" L=");
        push_decimal(&mut s, self.level as u64);
        s.append(" ");
        let ghost head = s@;
        let mut body = String::new();
        let mut i: usize = 0;
        while i < self.coeffs.len()
            invariant
                0 <= i <= self.coeffs@.len(),
                body@ == terms_text(self.coeffs@, i as nat),
            decreases self.coeffs@.len() - i,
        {
            let v = self.coeffs[i];
            if v > 0 {
                if !body.as_str().is_empty() {
                    string_push(&mut body, ' ');
                    proof {
                        reveal_strlit(" ");
                        assert(seq![' '] =~= " "@);
                    }
                }
                body.append("a(");
                push_decimal(&mut body, i as u64);
                body.append(")=");
                push_decimal(&mut body, v as u64);
                proof {
                    assert(body@ =~= terms_text(self.coeffs@, (i + 1) as nat));
                }
            }
            i = i + 1;
        }
        s.append(body.as_str());
        s.append("}");
        proof {
            assert(s@ =~= fourier_text(self.weight, self.level, self.coeffs@));
        }
        s
    }
}

proof fn lemma_mass_prefix(s: Seq<u32>, k: int)
    requires
        0 <= k <= s.len(),
    ensures
        mass(s.subrange(0, k)) <= mass(s),
    decreases s.len() - k,
{
    if k < s.len() {
        lemma_mass_prefix(s, k + 1);
        assert(s.subrange(0, k + 1).drop_last() =~= s.subrange(0, k));
    } else {
        assert(s.subrange(0, k) =~= s);
    }
}

/// Two indexes are equivalent exactly when their signatures agree.
pub proof fn law_signature_identifies_equivalence(a: ModularNaviIndex, b: ModularNaviIndex)
    ensures
        (signature_spec(a.weight, a.level, a.checksum) == signature_spec(b.weight, b.level, b.checksum))
            <==> (a.weight == b.weight && a.level == b.level && a.checksum == b.checksum),
{
    let wa = a.weight + 128;
    let wb = b.weight + 128;
    if signature_spec(a.weight, a.level, a.checksum) == signature_spec(b.weight, b.level, b.checksum) {
        assert(a.checksum == b.checksum && a.level == b.level && wa == wb) by (nonlinear_arith)
            requires
                wa * 0x1_0000_0000_0000 + a.level * 0x1_0000 + a.checksum == wb * 0x1_0000_0000_0000
                    + b.level * 0x1_0000 + b.checksum,
                0 <= a.checksum < 0x1_0000,
                0 <= b.checksum < 0x1_0000,
                0 <= a.level < 0x1_0000_0000,
                0 <= b.level < 0x1_0000_0000,
        ;
    }
}


// ── Building an index ───────────────────────────────────────────────────────

/// The position of a chord type among Spoke, Rim, Local, Diagonal.
pub open spec fn chord_index(c: HeptaChordType) -> int {
    match c {
        HeptaChordType::Spoke => 0,
        HeptaChordType::Rim => 1,
        HeptaChordType::Local => 2,
        HeptaChordType::Diagonal => 3,
    }
}

/// How many of the edges' chords are of type number `k`.
pub open spec fn chord_count(cs: Seq<HeptaChordType>, k: int) -> nat
    decreases cs.len(),
{
    if cs.len() == 0 {
        0
    } else {
        chord_count(cs.drop_last(), k) + if chord_index(cs.last()) == k { 1nat } else { 0nat }
    }
}

/// Chord type number `k` is the dominant one: no type is more frequent,
/// and every lower-numbered type is strictly less frequent (ties go to
/// the lowest weight).
pub open spec fn is_dominant(cs: Seq<HeptaChordType>, k: int) -> bool {
    &&& 0 <= k < 4
    &&& forall|j: int| 0 <= j < 4 ==> #[trigger] chord_count(cs, j) <= chord_count(cs, k)
    &&& forall|j: int| 0 <= j < k ==> #[trigger] chord_count(cs, j) < chord_count(cs, k)
}

/// The chord type of number `k`.
pub open spec fn chord_of_index(k: int) -> HeptaChordType {
    if k == 0 {
        HeptaChordType::Spoke
    } else if k == 1 {
        HeptaChordType::Rim
    } else if k == 2 {
        HeptaChordType::Local
    } else {
        HeptaChordType::Diagonal
    }
}

/// How many edges fall in cost bucket `n` of `count` buckets: an edge
/// with no finite cost (`None`) falls in none, one past the last bucket
/// falls in the last.
pub open spec fn bucket_hits(bs: Seq<Option<usize>>, count: nat, n: int) -> nat
    decreases bs.len(),
{
    if bs.len() == 0 {
        0
    } else {
        bucket_hits(bs.drop_last(), count, n) + match bs.last() {
            Some(b) => if (if b < count { b as int } else { count - 1 }) == n { 1nat } else { 0nat },
            None => 0nat,
        }
    }
}

/// A histogram without its trailing zero buckets (one bucket is kept).
pub open spec fn trimmed(c: Seq<u32>) -> Seq<u32>
    decreases c.len(),
{
    if c.len() > 1 && c.last() == 0 {
        trimmed(c.drop_last())
    } else {
        c
    }
}

/// The bytes the checksum covers: the weight's byte, the level and each
/// coefficient, little-endian.
pub open spec fn checksum_input(weight: i8, level: u32, coeffs: Seq<u32>) -> Seq<u8>
    decreases coeffs.len(),
{
    if coeffs.len() == 0 {
        seq![weight as u8] + le32(level)
    } else {
        checksum_input(weight, level, coeffs.drop_last()) + le32(coeffs.last())
    }
}

proof fn lemma_counts_bounded(cs: Seq<HeptaChordType>, k: int)
    ensures
        chord_count(cs, k) <= cs.len(),
    decreases cs.len(),
{
    if cs.len() > 0 {
        lemma_counts_bounded(cs.drop_last(), k);
    }
}

proof fn lemma_hits_bounded(bs: Seq<Option<usize>>, count: nat, n: int)
    ensures
        bucket_hits(bs, count, n) <= bs.len(),
    decreases bs.len(),
{
    if bs.len() > 0 {
        lemma_hits_bounded(bs.drop_last(), count, n);
    }
}

/// The weight of the dominant chord among the edges' chords.
pub fn dominant_weight(chords: &Vec<HeptaChordType>) -> (w: i8)
    requires
        chords@.len() <= u32::MAX,
    ensures
        exists|k: int| is_dominant(chords@, k) && w == chord_weight_spec(chord_of_index(k)),
{
    let mut counts: [u32; 4] = [0, 0, 0, 0];
    let mut i: usize = 0;
    while i < chords.len()
        invariant
            0 <= i <= chords@.len(),
            chords@.len() <= u32::MAX,
            forall|k: int| 0 <= k < 4 ==> #[trigger] counts@[k] == chord_count(chords@.subrange(0, i as int), k),
        decreases chords@.len() - i,
    {
        proof {
            let t = chords@.subrange(0, i + 1);
            assert(t.drop_last() =~= chords@.subrange(0, i as int));
            assert forall|k: int| 0 <= k < 4 implies #[trigger] chord_count(chords@.subrange(0, i as int), k) <= i by {
                lemma_counts_bounded(chords@.subrange(0, i as int), k);
            }
        }
        let k: usize = match chords[i] {
            HeptaChordType::Spoke => 0,
            HeptaChordType::Rim => 1,
            HeptaChordType::Local => 2,
            HeptaChordType::Diagonal => 3,
        };
        assert(counts@[k as int] <= i);
        counts[k] = counts[k] + 1;
        i = i + 1;
        proof {
            assert forall|j: int| 0 <= j < 4 implies #[trigger] counts@[j] == chord_count(chords@.subrange(0, i as int), j) by {
                let t = chords@.subrange(0, i as int);
                assert(t.drop_last() =~= chords@.subrange(0, i - 1));
            }
        }
    }
    assert(chords@.subrange(0, i as int) =~= chords@);
    let mut best: usize = 0;
    let mut j: usize = 1;
    while j < 4
        invariant
            1 <= j <= 4,
            0 <= best < j,
            forall|k: int| 0 <= k < 4 ==> #[trigger] counts@[k] == chord_count(chords@, k),
            forall|m: int| 0 <= m < j ==> #[trigger] chord_count(chords@, m) <= chord_count(chords@, best as int),
            forall|m: int| 0 <= m < best ==> #[trigger] chord_count(chords@, m) < chord_count(chords@, best as int),
        decreases 4 - j,
    {
        if counts[j] > counts[best] {
            best = j;
        }
        j = j + 1;
    }
    let w: i8 = match best {
        0 => -1,
        1 => 0,
        2 => 1,
        _ => 2,
    };
    assert(is_dominant(chords@, best as int));
    w
}

/// The cost histogram of the edges over `count` buckets (see
/// `bucket_hits`), without its trailing zero buckets.
pub fn bucket_histogram(buckets: &Vec<Option<usize>>, count: usize) -> (c: Vec<u32>)
    requires
        1 <= count <= MAX_BUCKETS,
        buckets@.len() <= u32::MAX,
    ensures
        c@ == trimmed(Seq::new(count as nat, |n: int| bucket_hits(buckets@, count as nat, n) as u32)),
{
    let mut coeffs: Vec<u32> = Vec::new();
    let mut n: usize = 0;
    while n < count
        invariant
            0 <= n <= count,
            coeffs@.len() == n,
            forall|k: int| 0 <= k < n ==> #[trigger] coeffs@[k] == 0,
        decreases count - n,
    {
        coeffs.push(0);
        n = n + 1;
    }
    let mut i: usize = 0;
    while i < buckets.len()
        invariant
            0 <= i <= buckets@.len(),
            1 <= count <= MAX_BUCKETS,
            buckets@.len() <= u32::MAX,
            coeffs@.len() == count,
            forall|k: int| 0 <= k < count ==> #[trigger] coeffs@[k] == bucket_hits(buckets@.subrange(0, i as int), count as nat, k),
        decreases buckets@.len() - i,
    {
        proof {
            assert forall|k: int| 0 <= k < count implies #[trigger] bucket_hits(buckets@.subrange(0, i as int), count as nat, k) <= i by {
                lemma_hits_bounded(buckets@.subrange(0, i as int), count as nat, k);
            }
        }
        match buckets[i] {
            Some(b) => {
                let slot: usize = if b < count { b } else { count - 1 };
                assert(coeffs@[slot as int] <= i);
                let v = coeffs[slot] + 1;
                coeffs.set(slot, v);
            },
            None => {},
        }
        i = i + 1;
        proof {
            assert forall|k: int| 0 <= k < count implies #[trigger] coeffs@[k] == bucket_hits(buckets@.subrange(0, i as int), count as nat, k) by {
                let t = buckets@.subrange(0, i as int);
                assert(t.drop_last() =~= buckets@.subrange(0, i - 1));
            }
        }
    }
    assert(buckets@.subrange(0, i as int) =~= buckets@);
    assert(coeffs@ =~= Seq::new(count as nat, |n: int| bucket_hits(buckets@, count as nat, n) as u32));
    let ghost full = coeffs@;
    while coeffs.len() > 1 && coeffs[coeffs.len() - 1] == 0
        invariant
            trimmed(coeffs@) == trimmed(full),
        decreases coeffs@.len(),
    {
        coeffs.pop();
    }
    coeffs
}

/// The bytes the index checksum covers (see `checksum_input`).
pub fn checksum_bytes(weight: i8, level: u32, coeffs: &Vec<u32>) -> (b: Vec<u8>)
    ensures
        b@ == checksum_input(weight, level, coeffs@),
{
    let mut bytes: Vec<u8> = Vec::new();
    bytes.push(weight as u8);
    let lv = u32_le_bytes(level);
    extend_bytes(&mut bytes, &lv);
    assert(bytes@ =~= checksum_input(weight, level, coeffs@.subrange(0, 0)));
    let mut i: usize = 0;
    while i < coeffs.len()
        invariant
            0 <= i <= coeffs@.len(),
            bytes@ == checksum_input(weight, level, coeffs@.subrange(0, i as int)),
        decreases coeffs@.len() - i,
    {
        let cb = u32_le_bytes(coeffs[i]);
        extend_bytes(&mut bytes, &cb);
        proof {
            let t = coeffs@.subrange(0, i + 1);
            assert(t.drop_last() =~= coeffs@.subrange(0, i as int));
        }
        i = i + 1;
    }
    assert(coeffs@.subrange(0, i as int) =~= coeffs@);
    bytes
}

} // verus!
