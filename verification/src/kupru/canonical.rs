//! Canonical byte serialisation — deterministic and platform-independent:
//! length-prefixed byte strings and little-endian integers.

use vstd::prelude::*;
use vstd::string::StringSliceAdditionalSpecFns;

verus! {

/// Domain separator for SargonPassport seal operations.
pub const SARGON_PASSPORT_DOMAIN: &'static str = "BahyWay.SargonPassport.v4.KANAKU";

/// Little-endian bytes of a 32-bit value.
pub open spec fn le32(v: u32) -> Seq<u8> {
    seq![
        (v % 0x100) as u8,
        ((v / 0x100) % 0x100) as u8,
        ((v / 0x1_0000) % 0x100) as u8,
        ((v / 0x100_0000) % 0x100) as u8,
    ]
}

/// Little-endian bytes of a 64-bit value.
pub open spec fn le64(v: u64) -> Seq<u8> {
    le32((v % 0x1_0000_0000) as u32) + le32((v / 0x1_0000_0000) as u32)
}

/// A length-prefixed byte string: its length as a little-endian u32
/// (truncated to 32 bits), then the bytes.
pub open spec fn prefixed(b: Seq<u8>) -> Seq<u8> {
    le32((b.len() % 0x1_0000_0000) as u32) + b
}

/// Accumulates bytes in a deterministic, length-prefixed format.
pub struct CanonicalBytes {
    data: Vec<u8>,
}

/// The little-endian bytes of a u32.
pub fn u32_le_bytes(v: u32) -> (b: [u8; 4])
    ensures
        b@ == le32(v),
{
    let b = [
        (v % 0x100) as u8,
        ((v / 0x100) % 0x100) as u8,
        ((v / 0x1_0000) % 0x100) as u8,
        ((v / 0x100_0000) % 0x100) as u8,
    ];
    assert(b@ =~= le32(v));
    b
}

/// Appends a byte slice to a vector.
pub fn extend_bytes(v: &mut Vec<u8>, b: &[u8])
    ensures
        final(v)@ == old(v)@ + b@,
{
    let mut i: usize = 0;
    let ghost start = v@;
    while i < b.len()
        invariant
            0 <= i <= b@.len(),
            v@ == start + b@.subrange(0, i as int),
        decreases b@.len() - i,
    {
        v.push(b[i]);
        i = i + 1;
        assert(v@ =~= start + b@.subrange(0, i as int));
    }
    assert(b@.subrange(0, i as int) =~= b@);
}

impl CanonicalBytes {
    /// The bytes accumulated so far.
    pub closed spec fn bytes(&self) -> Seq<u8> {
        self.data@
    }

    /// A new stream anchored with a length-prefixed domain separator.
    pub fn new(domain: &[u8]) -> (cb: Self)
        ensures
            cb.bytes() == prefixed(domain@),
    {
        let mut cb = CanonicalBytes { data: Vec::new() };
        cb.push_bytes(domain);
        assert(cb.data@ =~= prefixed(domain@));
        cb
    }

    /// Append length-prefixed bytes (u32 LE length + payload).
    pub fn push_bytes(&mut self, bytes: &[u8])
        ensures
            final(self).bytes() == old(self).bytes() + prefixed(bytes@),
    {
        let len: u64 = bytes.len() as u64;
        let n: u32 = (len % 0x1_0000_0000) as u32;
        self.push_u32(n);
        extend_bytes(&mut self.data, bytes);
        assert(self.data@ =~= old(self).data@ + prefixed(bytes@));
    }

    /// Append a length-prefixed UTF-8 string.
    pub fn push_str(&mut self, s: &str)
        ensures
            final(self).bytes() == old(self).bytes() + prefixed(s.spec_bytes()),
    {
        self.push_bytes(s.as_bytes());
    }

    /// Append a fixed-size byte slice with no length prefix.
    pub fn push_fixed(&mut self, bytes: &[u8])
        ensures
            final(self).bytes() == old(self).bytes() + bytes@,
    {
        extend_bytes(&mut self.data, bytes);
    }

    /// Append a u64 in little-endian.
    pub fn push_u64(&mut self, v: u64)
        ensures
            final(self).bytes() == old(self).bytes() + le64(v),
    {
        let lo = u32_le_bytes((v % 0x1_0000_0000) as u32);
        let hi = u32_le_bytes((v / 0x1_0000_0000) as u32);
        extend_bytes(&mut self.data, &lo);
        extend_bytes(&mut self.data, &hi);
        assert(self.data@ =~= old(self).data@ + le64(v));
    }

    /// Append a u32 in little-endian.
    pub fn push_u32(&mut self, v: u32)
        ensures
            final(self).bytes() == old(self).bytes() + le32(v),
    {
        let b = u32_le_bytes(v);
        extend_bytes(&mut self.data, &b);
    }

    /// Append a single byte.
    pub fn push_u8(&mut self, v: u8)
        ensures
            final(self).bytes() == old(self).bytes().push(v),
    {
        self.data.push(v);
    }

    /// Consume the builder and return the accumulated bytes.
    pub fn finish(self) -> (b: Vec<u8>)
        ensures
            b@ == self.bytes(),
    {
        self.data
    }
}

} // verus!
