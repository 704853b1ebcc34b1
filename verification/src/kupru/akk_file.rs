//! AkkFile — the five-layer `.akk` document: RĒŠU header, MUDÛ metadata,
//! KANĀKU seal, ŠIPRU payload and ŠIPIR ŠARRI integrity digest.

use vstd::prelude::*;
use vstd::utf8::encode_utf8;
use crate::text::{hex_byte, push_hex_byte};
use crate::kupru::akkadian_seal::{AkkadianSeal, SealVerifier};
use crate::kupru::canonical::extend_bytes;
use crate::kupru::error::{KupruError, KupruResult};
use crate::kupru::primitives::{ct_eq, sha3_256, sha3_256_of};
use crate::kupru::sargon_kdf::SargonKdf;

verus! {

/// The `.akk` magic number: 0xAC 'K' 'v' '4'.
pub open spec fn akk_magic() -> Seq<u8> {
    seq![0xACu8, 0x4Bu8, 0x76u8, 0x34u8]
}

/// The magic number as bytes.
pub fn akk_magic_bytes() -> (m: [u8; 4])
    ensures
        m@ == akk_magic(),
{
    let m = [0xACu8, 0x4Bu8, 0x76u8, 0x34u8];
    assert(m@ =~= akk_magic());
    m
}

/// The `.akk` format version (BahyWay v4.0).
pub const AKK_VERSION: u8 = 0x04;

/// The digest-algorithm byte of the integrity layer (SHA3-256).
pub const SHIPIR_SHA3_256: u8 = 0x03;

/// RĒŠU — the file header.
#[derive(Debug, Clone)]
pub struct ResuHeader {
    pub magic: [u8; 4],
    pub version: u8,
    pub domain: u8,
    pub timestamp: u64,
    pub flags: u16,
}

impl ResuHeader {
    /// A header for `domain`, stamped with the current time. Nothing is
    /// promised of the timestamp.
    pub fn new(domain: u8) -> (h: Self)
        ensures
            h.magic@ == akk_magic(),
            h.version == AKK_VERSION,
            h.domain == domain,
            h.flags == 0,
    {
        ResuHeader { magic: akk_magic_bytes(), version: AKK_VERSION, domain, timestamp: SargonKdf::sovereign_now(), flags: 0 }
    }

    /// Checks the magic number, then the version.
    pub fn validate(&self) -> (r: KupruResult<()>)
        ensures
            self.magic@ != akk_magic() ==> (r matches Err(KupruError::InvalidInput(m)) && m@
                == "LEMNĪ: invalid .akk magic"@),
            (self.magic@ == akk_magic() && self.version != AKK_VERSION) ==> (r matches Err(
                KupruError::InvalidInput(m),
            ) && m@ == "LEMNĪ: unsupported .akk version 0x"@ + hex_byte(self.version)),
            (self.magic@ == akk_magic() && self.version == AKK_VERSION) ==> r is Ok,
    {
        let magic = akk_magic_bytes();
        let mut i: usize = 0;
        while i < 4
            invariant
                0 <= i <= 4,
                magic@ == akk_magic(),
                forall|j: int| 0 <= j < i ==> self.magic@[j] == magic@[j],
            decreases 4 - i,
        {
            if self.magic[i] != magic[i] {
                return Err(KupruError::InvalidInput("LEMNĪ: invalid .akk magic".to_owned()));
            }
            i = i + 1;
        }
        assert(self.magic@ =~= akk_magic());
        if self.version != AKK_VERSION {
            let mut m = "LEMNĪ: unsupported .akk version 0x".to_owned();
            push_hex_byte(&mut m, self.version);
            return Err(KupruError::InvalidInput(m));
        }
        Ok(())
    }
}

/// MUDÛ — document metadata.
#[derive(Debug, Clone)]
pub struct MuduMetadata {
    pub name: String,
    pub quality: u8,
    pub creator_id: String,
    pub tribe: Option<String>,
    pub tags: Vec<String>,
}

impl MuduMetadata {
    /// Metadata with the quality capped at 240, no tribe and no tags.
    pub fn new(name: &str, quality: u8, creator_id: &str) -> (m: Self)
        ensures
            m.name@ == name@,
            m.quality == (if quality > 240 { 240 } else { quality }),
            m.creator_id@ == creator_id@,
            m.tribe is None,
            m.tags@.len() == 0,
    {
        MuduMetadata {
            name: name.to_owned(),
            quality: if quality > 240 { 240 } else { quality },
            creator_id: creator_id.to_owned(),
            tribe: None,
            tags: Vec::new(),
        }
    }
}

/// KANĀKU — the seal section.
#[derive(Debug, Clone)]
pub struct KanakuSeal {
    pub algorithm_id: u8,
    pub verifier_key: Vec<u8>,
    pub signature: Vec<u8>,
}

/// ŠIPIR ŠARRI — the royal integrity digest of the payload.
#[derive(Debug, Clone)]
pub struct ShipirSharri {
    pub digest_algo: u8,
    pub digest: [u8; 32],
}

impl ShipirSharri {
    /// The SHA3-256 digest of a payload.
    pub fn compute(payload: &[u8]) -> (s: Self)
        ensures
            s.digest_algo == SHIPIR_SHA3_256,
            s.digest@ == sha3_256_of(payload@),
    {
        ShipirSharri { digest_algo: SHIPIR_SHA3_256, digest: sha3_256(payload) }
    }

    /// Whether the digest is that of `payload` (compared in constant time).
    pub fn verify(&self, payload: &[u8]) -> (b: bool)
        ensures
            b == (self.digest@ == sha3_256_of(payload@)),
    {
        let expected = sha3_256(payload);
        ct_eq(&self.digest, &expected)
    }
}

/// The assembled document.
#[derive(Debug, Clone)]
pub struct AkkFile {
    pub header: ResuHeader,
    pub metadata: MuduMetadata,
    pub seal: Option<KanakuSeal>,
    pub payload: Vec<u8>,
    pub integrity: ShipirSharri,
}

/// What the KANĀKU seal signs: magic, version, domain, the UTF-8 name,
/// quality and payload.
pub open spec fn signed_bytes(f: AkkFile) -> Seq<u8> {
    f.header.magic@ + seq![f.header.version, f.header.domain] + encode_utf8(f.metadata.name@) + seq![
        f.metadata.quality,
    ] + f.payload@
}

/// The integrity digest matches the payload.
pub open spec fn intact(f: AkkFile) -> bool {
    f.integrity.digest@ == sha3_256_of(f.payload@)
}

impl AkkFile {
    /// A new unsealed document whose integrity digest covers `payload`.
    pub fn new(domain: u8, name: &str, quality: u8, creator_id: &str, payload: Vec<u8>) -> (f: Self)
        ensures
            f.header.magic@ == akk_magic(),
            f.header.version == AKK_VERSION,
            f.header.domain == domain,
            f.header.flags == 0,
            f.metadata.name@ == name@,
            f.metadata.quality == (if quality > 240 { 240 } else { quality }),
            f.metadata.creator_id@ == creator_id@,
            f.metadata.tribe is None,
            f.metadata.tags@.len() == 0,
            f.seal is None,
            f.payload@ == payload@,
            f.integrity.digest_algo == SHIPIR_SHA3_256,
            intact(f),
    {
        let header = ResuHeader::new(domain);
        let metadata = MuduMetadata::new(name, quality, creator_id);
        let integrity = ShipirSharri::compute(payload.as_slice());
        AkkFile { header, metadata, seal: None, payload, integrity }
    }

    /// Seals the document: when the signer seals the signed bytes, the
    /// KANĀKU layer records its algorithm, verifier key and signature;
    /// when it refuses, the document is left as it was.
    pub fn sign<S: AkkadianSeal>(&mut self, signer: &S)
        ensures
            final(self).header == old(self).header,
            final(self).metadata == old(self).metadata,
            final(self).payload == old(self).payload,
            final(self).integrity == old(self).integrity,
            signer.refuses(signed_bytes(*old(self))) ==> final(self).seal == old(self).seal,
            !signer.refuses(signed_bytes(*old(self))) ==> (final(self).seal matches Some(k) && k.algorithm_id
                == signer.algorithm() && k.verifier_key@ == signer.verifier_view() && signer.seals(
                signed_bytes(*old(self)),
                k.signature@,
            )),
    {
        let msg = self.sign_payload();
        match signer.seal(msg.as_slice()) {
            Ok(sig) => {
                let algorithm_id = signer.algorithm_id();
                let verifier_key = signer.verifier_bytes();
                self.seal = Some(KanakuSeal { algorithm_id, verifier_key, signature: sig });
            },
            Err(_) => {},
        }
    }

    /// Whether the KANĀKU seal verifies over the signed bytes; false for
    /// an unsealed document.
    pub fn verify_seal<V: SealVerifier>(&self, verifier: &V) -> (b: bool)
        ensures
            b == (self.seal matches Some(k) && verifier.accepts(signed_bytes(*self), k.signature@)),
    {
        match &self.seal {
            None => false,
            Some(k) => {
                let msg = self.sign_payload();
                verifier.verify(msg.as_slice(), k.signature.as_slice())
            },
        }
    }

    /// Whether the integrity digest matches the payload.
    pub fn verify_integrity(&self) -> (b: bool)
        ensures
            b == intact(*self),
    {
        self.integrity.verify(self.payload.as_slice())
    }

    /// The bytes the KANĀKU seal signs.
    fn sign_payload(&self) -> (m: Vec<u8>)
        ensures
            m@ == signed_bytes(*self),
    {
        let mut msg: Vec<u8> = Vec::new();
        extend_bytes(&mut msg, &self.header.magic);
        msg.push(self.header.version);
        msg.push(self.header.domain);
        extend_bytes(&mut msg, self.metadata.name.as_str().as_bytes());
        msg.push(self.metadata.quality);
        extend_bytes(&mut msg, self.payload.as_slice());
        assert(msg@ =~= signed_bytes(*self));
        msg
    }
}

/// A document sealed by a key pair verifies under a verifier that
/// accepts that key pair's seals, and a new document is intact.
pub proof fn law_sealed_document_verifies<S: AkkadianSeal, V: SealVerifier>(
    f: AkkFile,
    signer: S,
    verifier: V,
    k: KanakuSeal,
)
    requires
        f.seal == Some(k),
        signer.seals(signed_bytes(f), k.signature@),
        forall|m: Seq<u8>, s: Seq<u8>| signer.seals(m, s) ==> #[trigger] verifier.accepts(m, s),
    ensures
        verifier.accepts(signed_bytes(f), k.signature@),
{
}

} // verus!
