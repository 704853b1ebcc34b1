//! `SovereignHash` — algorithm-agnostic hashing: callers receive digests
//! and never name the algorithm behind them.

use vstd::prelude::*;
use crate::kupru::error::KupruResult;
use crate::kupru::primitives::{
    hmac_sha3_256, hmac_sha3_256_of, hmac_sha3_512, hmac_sha3_512_of, sha3_256, sha3_256_of, sha3_512,
    sha3_512_of,
};

verus! {

/// The hash algorithm recorded in a `.akk` header.
#[derive(Debug, Clone, Copy, PartialEq, Eq, Structural)]
pub enum HashAlgorithm {
    /// The default: 512-bit digests.
    SovereignDigest512,
    /// 256-bit digests for performance-sensitive paths.
    SovereignDigest256,
    /// Reserved for a post-quantum hash.
    PostQuantum,
}

/// The header byte of each algorithm.
pub open spec fn algorithm_byte(a: HashAlgorithm) -> u8 {
    match a {
        HashAlgorithm::SovereignDigest512 => 0x01,
        HashAlgorithm::SovereignDigest256 => 0x02,
        HashAlgorithm::PostQuantum => 0xFF,
    }
}

impl HashAlgorithm {
    /// The header byte of the algorithm.
    pub fn to_byte(self) -> (b: u8)
        ensures
            b == algorithm_byte(self),
    {
        match self {
            HashAlgorithm::SovereignDigest512 => 0x01,
            HashAlgorithm::SovereignDigest256 => 0x02,
            HashAlgorithm::PostQuantum => 0xFF,
        }
    }
}

/// A hasher.
pub trait SovereignHash {
    /// The digest of `data`.
    spec fn digest_of(&self, data: Seq<u8>) -> Seq<u8>;

    /// The keyed digest of `data` under `key`.
    spec fn keyed_digest_of(&self, key: Seq<u8>, data: Seq<u8>) -> Seq<u8>;

    /// The digest length in bytes.
    spec fn digest_len(&self) -> nat;

    /// The algorithm.
    spec fn algorithm_of(&self) -> HashAlgorithm;

    /// The digest of `data`, `output_len` bytes long.
    fn digest(&self, data: &[u8]) -> (d: Vec<u8>)
        ensures
            d@ == self.digest_of(data@),
            d@.len() == self.digest_len(),
    ;

    /// The digest length in bytes.
    fn output_len(&self) -> (n: usize)
        ensures
            n == self.digest_len(),
    ;

    /// The algorithm, as recorded in `.akk` headers.
    fn algorithm(&self) -> (a: HashAlgorithm)
        ensures
            a == self.algorithm_of(),
    ;

    /// A keyed digest (HMAC) of `data` under `key`.
    fn keyed_digest(&self, key: &[u8], data: &[u8]) -> (r: KupruResult<Vec<u8>>)
        ensures
            r matches Ok(d) ==> d@ == self.keyed_digest_of(key@, data@),
    ;
}

/// SHA3-512 with HMAC-SHA3-512.
pub struct Sha3Digest512;

/// SHA3-256 with HMAC-SHA3-256.
pub struct Sha3Digest256;

impl SovereignHash for Sha3Digest512 {
    open spec fn digest_of(&self, data: Seq<u8>) -> Seq<u8> {
        sha3_512_of(data)
    }

    open spec fn keyed_digest_of(&self, key: Seq<u8>, data: Seq<u8>) -> Seq<u8> {
        hmac_sha3_512_of(key, data)
    }

    open spec fn digest_len(&self) -> nat {
        64
    }

    open spec fn algorithm_of(&self) -> HashAlgorithm {
        HashAlgorithm::SovereignDigest512
    }

    fn digest(&self, data: &[u8]) -> (d: Vec<u8>) {
        sha3_512(data)
    }

    fn output_len(&self) -> (n: usize) {
        64
    }

    fn algorithm(&self) -> (a: HashAlgorithm) {
        HashAlgorithm::SovereignDigest512
    }

    /// HMAC accepts keys of every length, so this never fails.
    fn keyed_digest(&self, key: &[u8], data: &[u8]) -> (r: KupruResult<Vec<u8>>)
        ensures
            r is Ok,
            r matches Ok(d) ==> d@.len() == 64,
    {
        Ok(hmac_sha3_512(key, data))
    }
}

impl SovereignHash for Sha3Digest256 {
    open spec fn digest_of(&self, data: Seq<u8>) -> Seq<u8> {
        sha3_256_of(data)
    }

    open spec fn keyed_digest_of(&self, key: Seq<u8>, data: Seq<u8>) -> Seq<u8> {
        hmac_sha3_256_of(key, data)
    }

    open spec fn digest_len(&self) -> nat {
        32
    }

    open spec fn algorithm_of(&self) -> HashAlgorithm {
        HashAlgorithm::SovereignDigest256
    }

    fn digest(&self, data: &[u8]) -> (d: Vec<u8>) {
        let a = sha3_256(data);
        let mut out: Vec<u8> = Vec::new();
        crate::kupru::canonical::extend_bytes(&mut out, &a);
        assert(out@ =~= a@);
        out
    }

    fn output_len(&self) -> (n: usize) {
        32
    }

    fn algorithm(&self) -> (a: HashAlgorithm) {
        HashAlgorithm::SovereignDigest256
    }

    /// HMAC accepts keys of every length, so this never fails.
    fn keyed_digest(&self, key: &[u8], data: &[u8]) -> (r: KupruResult<Vec<u8>>)
        ensures
            r is Ok,
            r matches Ok(d) ==> d@.len() == 32,
    {
        Ok(hmac_sha3_256(key, data))
    }
}

/// The default hasher: SHA3-512.
pub fn default_hasher() -> (h: Sha3Digest512) {
    Sha3Digest512
}

/// The fast hasher: SHA3-256.
pub fn fast_hasher() -> (h: Sha3Digest256) {
    Sha3Digest256
}

} // verus!
