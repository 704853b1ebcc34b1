//! The passport seal over canonical binary bytes (never JSON), so that
//! seals stay valid across platforms and serialiser versions.

use vstd::prelude::*;
use vstd::utf8::encode_utf8;
use crate::kupru::akkadian_seal::{AkkadianSeal, SealKeyPair, SealVerifier, SovereignVerifier, ed25519_seal_accepted};
use crate::kupru::canonical::{
    extend_bytes, le32, le64, prefixed, u32_le_bytes, CanonicalBytes, SARGON_PASSPORT_DOMAIN,
};
use crate::kupru::error::{KupruError, KupruResult};
use crate::kupru::passport::{IshtarLayer, KupruLayer, NaruLayer, QuppuLayer};

verus! {

/// The scopes block: each scope's UTF-8 bytes, length-prefixed, in order.
pub open spec fn scope_block(scopes: Seq<String>) -> Seq<u8>
    decreases scopes.len(),
{
    if scopes.len() == 0 {
        Seq::empty()
    } else {
        scope_block(scopes.drop_last()) + prefixed(encode_utf8(scopes.last()@))
    }
}

/// The UTF-8 bytes of an optional text, empty for `None`.
pub open spec fn optional_text(s: Option<String>) -> Seq<u8> {
    match s {
        Some(t) => encode_utf8(t@),
        None => Seq::empty(),
    }
}

/// The QUPPU part of the canonical bytes.
pub open spec fn quppu_bytes(q: QuppuLayer) -> Seq<u8> {
    q.passport_id@ + le64(q.created_at) + le64(q.expires_at) + q.issuer_kaki@
}

/// The KUPRU part of the canonical bytes.
pub open spec fn kupru_bytes(k: KupruLayer) -> Seq<u8> {
    prefixed(k.content_hash@) + prefixed(k.hmac@) + k.nonce@ + seq![k.algorithm_id]
}

/// The NĀRU part of the canonical bytes.
pub open spec fn naru_bytes(n: NaruLayer) -> Seq<u8> {
    n.subject_kaki@ + prefixed(encode_utf8(n.akkadian_name.sumu@)) + prefixed(
        optional_text(n.akkadian_name.abu),
    ) + prefixed(optional_text(n.akkadian_name.asaredu)) + prefixed(n.linguistic_proof.commitment@)
        + n.linguistic_proof.nonce@ + seq![n.linguistic_proof.mudu] + prefixed(encode_utf8(n.realm@))
}

/// The IŠTAR part of the canonical bytes.
pub open spec fn istar_bytes(i: IshtarLayer) -> Seq<u8> {
    prefixed(scope_block(i.isretu_scopes@)) + seq![i.privilege_level]
}

/// The canonical bytes a passport seal signs: the domain separator, then
/// the QUPPU, KUPRU, NĀRU and IŠTAR layers in a fixed field order.
#[verifier::opaque]
pub open spec fn passport_bytes(q: QuppuLayer, k: KupruLayer, n: NaruLayer, i: IshtarLayer) -> Seq<u8> {
    prefixed(encode_utf8(SARGON_PASSPORT_DOMAIN@)) + quppu_bytes(q) + kupru_bytes(k) + naru_bytes(n)
        + istar_bytes(i)
}

/// The scopes block of a list of scopes.
fn scope_block_bytes(scopes: &Vec<String>) -> (b: Vec<u8>)
    ensures
        b@ == scope_block(scopes@),
{
    let mut out: Vec<u8> = Vec::new();
    let mut i: usize = 0;
    while i < scopes.len()
        invariant
            0 <= i <= scopes@.len(),
            out@ == scope_block(scopes@.subrange(0, i as int)),
        decreases scopes@.len() - i,
    {
        let b = scopes[i].as_str().as_bytes();
        let len: u64 = b.len() as u64;
        let n: u32 = (len % 0x1_0000_0000) as u32;
        let lb = u32_le_bytes(n);
        extend_bytes(&mut out, &lb);
        extend_bytes(&mut out, b);
        i = i + 1;
        proof {
            let t = scopes@.subrange(0, i as int);
            assert(t.drop_last() =~= scopes@.subrange(0, i - 1));
            assert(t.last() == scopes@[i - 1]);
        }
    }
    assert(scopes@.subrange(0, scopes@.len() as int) =~= scopes@);
    out
}

/// Appends an optional text, length-prefixed (empty for `None`).
fn push_optional(cb: &mut CanonicalBytes, s: &Option<String>)
    ensures
        final(cb).bytes() == old(cb).bytes() + prefixed(optional_text(*s)),
{
    match s {
        Some(t) => cb.push_str(t.as_str()),
        None => {
            let e: Vec<u8> = Vec::new();
            cb.push_bytes(e.as_slice());
            assert(e@ =~= optional_text(*s));
        },
    }
}

/// The canonical bytes of a passport's four layers.
pub fn passport_canonical_bytes(quppu: &QuppuLayer, kupru: &KupruLayer, naru: &NaruLayer, istar: &IshtarLayer) -> (b: Vec<u8>)
    ensures
        b@ == passport_bytes(*quppu, *kupru, *naru, *istar),
{
    let mut cb = CanonicalBytes::new(SARGON_PASSPORT_DOMAIN.as_bytes());
    let ghost b0 = cb.bytes();
    cb.push_fixed(&quppu.passport_id);
    cb.push_u64(quppu.created_at);
    cb.push_u64(quppu.expires_at);
    cb.push_fixed(&quppu.issuer_kaki);
    assert(cb.bytes() =~= b0 + quppu_bytes(*quppu));
    let ghost b1 = cb.bytes();
    cb.push_bytes(kupru.content_hash.as_slice());
    cb.push_bytes(kupru.hmac.as_slice());
    cb.push_fixed(&kupru.nonce);
    cb.push_u8(kupru.algorithm_id);
    assert(cb.bytes() =~= b1 + kupru_bytes(*kupru));
    let ghost b2 = cb.bytes();
    cb.push_fixed(&naru.subject_kaki);
    cb.push_str(naru.akkadian_name.sumu.as_str());
    push_optional(&mut cb, &naru.akkadian_name.abu);
    push_optional(&mut cb, &naru.akkadian_name.asaredu);
    cb.push_bytes(&naru.linguistic_proof.commitment);
    cb.push_fixed(&naru.linguistic_proof.nonce);
    cb.push_u8(naru.linguistic_proof.mudu);
    cb.push_str(naru.realm.as_str());
    assert(cb.bytes() =~= b2 + naru_bytes(*naru));
    let ghost b3 = cb.bytes();
    let scopes = scope_block_bytes(&istar.isretu_scopes);
    cb.push_bytes(scopes.as_slice());
    cb.push_u8(istar.privilege_level);
    assert(cb.bytes() =~= b3 + istar_bytes(*istar));
    assert(cb.bytes() =~= passport_bytes(*quppu, *kupru, *naru, *istar)) by {
        reveal(passport_bytes);
    }
    cb.finish()
}

/// Seals a passport's canonical bytes with the issuer key pair.
pub fn passport_seal(
    quppu: &QuppuLayer,
    kupru: &KupruLayer,
    naru: &NaruLayer,
    istar: &IshtarLayer,
    keypair: &SealKeyPair,
) -> (r: KupruResult<Vec<u8>>)
    ensures
        r matches Ok(s) && keypair.seals(passport_bytes(*quppu, *kupru, *naru, *istar), s@),
{
    let bytes = passport_canonical_bytes(quppu, kupru, naru, istar);
    keypair.seal(bytes.as_slice())
}

/// Verifies a passport seal over the canonical bytes with a 32-byte
/// verifying key; a key of another length is refused.
pub fn passport_verify_seal(
    quppu: &QuppuLayer,
    kupru: &KupruLayer,
    naru: &NaruLayer,
    istar: &IshtarLayer,
    seal_bytes: &[u8],
    verifying_key: &[u8],
) -> (r: KupruResult<bool>)
    ensures
        verifying_key@.len() != 32 ==> (r matches Err(KupruError::InvalidInput(m)) && m@
            == "LEMNĪ: verifying key must be 32 bytes"@),
        verifying_key@.len() == 32 ==> (r matches Ok(b) && b == ed25519_seal_accepted(
            verifying_key@,
            passport_bytes(*quppu, *kupru, *naru, *istar),
            seal_bytes@,
        )),
{
    let bytes = passport_canonical_bytes(quppu, kupru, naru, istar);
    let verifier = SovereignVerifier::from_bytes(verifying_key)?;
    Ok(verifier.verify(bytes.as_slice(), seal_bytes))
}

} // verus!
