//! AkkadianSeal — sovereign signatures (Ed25519 by default), behind
//! traits so that the algorithm can change without touching callers.

use vstd::prelude::*;
use crate::kupru::akkadian_root::array32;
use crate::kupru::error::{KupruError, KupruResult};
use crate::kupru::primitives::{
    ed25519_accepts, ed25519_generate_secret, ed25519_public, ed25519_public_of, ed25519_sign,
    ed25519_signature_of, ed25519_verify,
};

verus! {

/// The algorithm byte of Ed25519 seals.
pub const ED25519_ALGORITHM_ID: u8 = 0x01;

/// A signer.
pub trait AkkadianSeal {
    /// `seal` is a seal this signer makes of `message`.
    spec fn seals(&self, message: Seq<u8>, seal: Seq<u8>) -> bool;

    /// This signer's own verification accepts `seal` for `message`.
    spec fn accepts(&self, message: Seq<u8>, seal: Seq<u8>) -> bool;

    /// The public verification key.
    spec fn verifier_view(&self) -> Seq<u8>;

    /// The algorithm byte.
    spec fn algorithm(&self) -> u8;

    /// This signer refuses to seal `message`.
    spec fn refuses(&self, message: Seq<u8>) -> bool;

    /// Seals a message; it fails exactly on the messages the signer
    /// refuses.
    fn seal(&self, message: &[u8]) -> (r: KupruResult<Vec<u8>>)
        ensures
            r is Err <==> self.refuses(message@),
            r matches Ok(s) ==> self.seals(message@, s@),
    ;

    /// Verifies a seal of a message.
    fn verify(&self, message: &[u8], seal_bytes: &[u8]) -> (b: bool)
        ensures
            b == self.accepts(message@, seal_bytes@),
    ;

    /// The public verification key bytes.
    fn verifier_bytes(&self) -> (v: Vec<u8>)
        ensures
            v@ == self.verifier_view(),
    ;

    /// The algorithm byte.
    fn algorithm_id(&self) -> (a: u8)
        ensures
            a == self.algorithm(),
    ;
}

/// A verifier of seals.
pub trait SealVerifier {
    /// This verifier accepts `seal` for `message`.
    spec fn accepts(&self, message: Seq<u8>, seal: Seq<u8>) -> bool;

    /// The algorithm byte.
    spec fn algorithm(&self) -> u8;

    /// Verifies a seal of a message.
    fn verify(&self, message: &[u8], seal_bytes: &[u8]) -> (b: bool)
        ensures
            b == self.accepts(message@, seal_bytes@),
    ;

    /// The algorithm byte.
    fn algorithm_id(&self) -> (a: u8)
        ensures
            a == self.algorithm(),
    ;
}

/// Ed25519 acceptance of a seal: 64 bytes that verify under the key.
pub open spec fn ed25519_seal_accepted(verifying_key: Seq<u8>, message: Seq<u8>, seal: Seq<u8>) -> bool {
    seal.len() == 64 && ed25519_accepts(verifying_key, message, seal)
}

/// Copies 64 bytes into an array.
fn array64(v: &[u8]) -> (a: [u8; 64])
    requires
        v@.len() == 64,
    ensures
        a@ == v@,
{
    let mut a = [0u8; 64];
    let mut i: usize = 0;
    while i < 64
        invariant
            v@.len() == 64,
            0 <= i <= 64,
            a@.len() == 64,
            forall|j: int| 0 <= j < i ==> a@[j] == v@[j],
        decreases 64 - i,
    {
        a[i] = v[i];
        i = i + 1;
    }
    assert(a@ =~= v@);
    a
}

/// Ed25519 verification of a seal of any length.
fn ed25519_check(verifying_key: &[u8; 32], message: &[u8], seal_bytes: &[u8]) -> (b: bool)
    ensures
        b == ed25519_seal_accepted(verifying_key@, message@, seal_bytes@),
{
    if seal_bytes.len() != 64 {
        return false;
    }
    let sig = array64(seal_bytes);
    ed25519_verify(verifying_key, message, &sig)
}

/// An Ed25519 key pair.
#[derive(Debug)]
pub struct SealKeyPair {
    signing_key: [u8; 32],
    verifying_key: [u8; 32],
}

impl SealKeyPair {
    /// The secret signing key.
    pub closed spec fn signing_view(&self) -> Seq<u8> {
        self.signing_key@
    }

    /// The public verifying key.
    pub closed spec fn verifying_view(&self) -> Seq<u8> {
        self.verifying_key@
    }

    /// Both keys are 32 bytes long.
    pub proof fn lemma_key_lengths(&self)
        ensures
            self.signing_view().len() == 32,
            self.verifying_view().len() == 32,
    {
    }

    /// The verifying key is the public key of the signing key.
    pub open spec fn keys_match(&self) -> bool {
        self.verifying_view() == ed25519_public_of(self.signing_view())
    }

    /// A fresh key pair from the system RNG. Nothing is promised of the
    /// secret key.
    pub fn generate() -> (r: KupruResult<Self>)
        ensures
            r matches Ok(k) && k.keys_match(),
    {
        let signing_key = ed25519_generate_secret();
        let verifying_key = ed25519_public(&signing_key);
        Ok(SealKeyPair { signing_key, verifying_key })
    }

    /// The key pair of exactly 32 secret-key bytes.
    pub fn from_bytes(bytes: &[u8]) -> (r: KupruResult<Self>)
        ensures
            bytes@.len() != 32 ==> (r matches Err(KupruError::InvalidInput(m)) && m@
                == "LEMNĪ: signing key must be 32 bytes"@),
            bytes@.len() == 32 ==> (r matches Ok(k) && k.signing_view() == bytes@ && k.keys_match()),
    {
        if bytes.len() != 32 {
            return Err(KupruError::InvalidInput("LEMNĪ: signing key must be 32 bytes".to_owned()));
        }
        let signing_key = array32(bytes);
        let verifying_key = ed25519_public(&signing_key);
        Ok(SealKeyPair { signing_key, verifying_key })
    }

    /// The public verifying key.
    pub fn verifying_key_bytes(&self) -> (k: [u8; 32])
        ensures
            k@ == self.verifying_view(),
    {
        self.verifying_key
    }

    /// The raw secret signing key, for splitting into shares only.
    pub fn signing_key_bytes(&self) -> (k: [u8; 32])
        ensures
            k@ == self.signing_view(),
    {
        self.signing_key
    }

    /// The public-only verifier of this key pair.
    pub fn to_verifier(&self) -> (v: SovereignVerifier)
        ensures
            v.key_view() == self.verifying_view(),
    {
        SovereignVerifier { verifying_key: self.verifying_key }
    }
}

impl AkkadianSeal for SealKeyPair {
    open spec fn seals(&self, message: Seq<u8>, seal: Seq<u8>) -> bool {
        &&& seal == ed25519_signature_of(self.signing_view(), message)
        &&& ed25519_seal_accepted(ed25519_public_of(self.signing_view()), message, seal)
    }

    open spec fn accepts(&self, message: Seq<u8>, seal: Seq<u8>) -> bool {
        ed25519_seal_accepted(self.verifying_view(), message, seal)
    }

    open spec fn verifier_view(&self) -> Seq<u8> {
        self.verifying_view()
    }

    open spec fn algorithm(&self) -> u8 {
        ED25519_ALGORITHM_ID
    }

    /// Ed25519 signing refuses no message.
    open spec fn refuses(&self, message: Seq<u8>) -> bool {
        false
    }

    /// Ed25519 signing never fails.
    fn seal(&self, message: &[u8]) -> (r: KupruResult<Vec<u8>>)
        ensures
            r is Ok,
    {
        let sig = ed25519_sign(&self.signing_key, message);
        let mut out: Vec<u8> = Vec::new();
        crate::kupru::canonical::extend_bytes(&mut out, &sig);
        assert(out@ =~= sig@);
        Ok(out)
    }

    fn verify(&self, message: &[u8], seal_bytes: &[u8]) -> (b: bool) {
        ed25519_check(&self.verifying_key, message, seal_bytes)
    }

    fn verifier_bytes(&self) -> (v: Vec<u8>) {
        let mut out: Vec<u8> = Vec::new();
        crate::kupru::canonical::extend_bytes(&mut out, &self.verifying_key);
        assert(out@ =~= self.verifying_key@);
        out
    }

    fn algorithm_id(&self) -> (a: u8) {
        ED25519_ALGORITHM_ID
    }
}

/// A public-only Ed25519 verifier.
#[derive(Debug, Clone)]
pub struct SovereignVerifier {
    verifying_key: [u8; 32],
}

impl SovereignVerifier {
    /// The verifying key.
    pub closed spec fn key_view(&self) -> Seq<u8> {
        self.verifying_key@
    }

    /// The verifier of exactly 32 public-key bytes.
    pub fn from_bytes(bytes: &[u8]) -> (r: KupruResult<Self>)
        ensures
            bytes@.len() != 32 ==> (r matches Err(KupruError::InvalidInput(m)) && m@
                == "LEMNĪ: verifying key must be 32 bytes"@),
            bytes@.len() == 32 ==> (r matches Ok(v) && v.key_view() == bytes@),
    {
        if bytes.len() != 32 {
            return Err(KupruError::InvalidInput("LEMNĪ: verifying key must be 32 bytes".to_owned()));
        }
        Ok(SovereignVerifier { verifying_key: array32(bytes) })
    }
}

impl SealVerifier for SovereignVerifier {
    open spec fn accepts(&self, message: Seq<u8>, seal: Seq<u8>) -> bool {
        ed25519_seal_accepted(self.key_view(), message, seal)
    }

    open spec fn algorithm(&self) -> u8 {
        ED25519_ALGORITHM_ID
    }

    fn verify(&self, message: &[u8], seal_bytes: &[u8]) -> (b: bool) {
        ed25519_check(&self.verifying_key, message, seal_bytes)
    }

    fn algorithm_id(&self) -> (a: u8) {
        ED25519_ALGORITHM_ID
    }
}

/// A seal made by a key pair verifies, both under the key pair and under
/// its public verifier.
pub proof fn law_seal_then_verify(k: SealKeyPair, v: SovereignVerifier, message: Seq<u8>, seal: Seq<u8>)
    requires
        k.keys_match(),
        v.key_view() == k.verifying_view(),
        k.seals(message, seal),
    ensures
        k.accepts(message, seal),
        v.accepts(message, seal),
{
}

} // verus!
