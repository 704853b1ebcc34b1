//! The cryptographic and system primitives KUPRU calls: SHA3, HMAC-SHA3,
//! constant-time comparison, randomness, the clock, Ed25519,
//! ChaCha20-Poly1305, Argon2id and UUID v4. Each is a thin call into its
//! crate; the contracts state what the crates document and the rest of
//! the library is verified against them.

use vstd::prelude::*;

verus! {

// ── Hashing ─────────────────────────────────────────────────────────────────

/// The SHA3-256 digest of a byte string.
pub uninterp spec fn sha3_256_of(data: Seq<u8>) -> Seq<u8>;

/// The SHA3-512 digest of a byte string.
pub uninterp spec fn sha3_512_of(data: Seq<u8>) -> Seq<u8>;

/// HMAC-SHA3-256 of `data` under `key`.
pub uninterp spec fn hmac_sha3_256_of(key: Seq<u8>, data: Seq<u8>) -> Seq<u8>;

/// HMAC-SHA3-512 of `data` under `key`.
pub uninterp spec fn hmac_sha3_512_of(key: Seq<u8>, data: Seq<u8>) -> Seq<u8>;

/// `sha3::Sha3_256::digest`: the 32-byte SHA3-256 digest of `data`.
#[verifier::external_body]
pub(crate) fn sha3_256(data: &[u8]) -> (d: [u8; 32])
    ensures
        d@ == sha3_256_of(data@),
{
    <sha3::Sha3_256 as sha3::Digest>::digest(data).into()
}

/// `sha3::Sha3_512::digest`: the 64-byte SHA3-512 digest of `data`.
#[verifier::external_body]
pub(crate) fn sha3_512(data: &[u8]) -> (d: Vec<u8>)
    ensures
        d@ == sha3_512_of(data@),
        d@.len() == 64,
{
    <sha3::Sha3_512 as sha3::Digest>::digest(data).to_vec()
}

/// `hmac::Hmac<Sha3_256>`: HMAC over SHA3-256; the crate accepts keys of
/// every length (`new_from_slice` always succeeds for HMAC).
#[verifier::external_body]
pub(crate) fn hmac_sha3_256(key: &[u8], data: &[u8]) -> (m: Vec<u8>)
    ensures
        m@ == hmac_sha3_256_of(key@, data@),
        m@.len() == 32,
{
    let mut mac = <hmac::Hmac<sha3::Sha3_256> as hmac::Mac>::new_from_slice(key).unwrap();
    hmac::Mac::update(&mut mac, data);
    hmac::Mac::finalize(mac).into_bytes().to_vec()
}

/// `hmac::Hmac<Sha3_512>`: HMAC over SHA3-512; the crate accepts keys of
/// every length (`new_from_slice` always succeeds for HMAC).
#[verifier::external_body]
pub(crate) fn hmac_sha3_512(key: &[u8], data: &[u8]) -> (m: Vec<u8>)
    ensures
        m@ == hmac_sha3_512_of(key@, data@),
        m@.len() == 64,
{
    let mut mac = <hmac::Hmac<sha3::Sha3_512> as hmac::Mac>::new_from_slice(key).unwrap();
    hmac::Mac::update(&mut mac, data);
    hmac::Mac::finalize(mac).into_bytes().to_vec()
}

/// `subtle::ConstantTimeEq::ct_eq` on byte slices: true exactly when both
/// slices have the same length and the same bytes, compared in constant
/// time.
#[verifier::external_body]
pub(crate) fn ct_eq(a: &[u8], b: &[u8]) -> (r: bool)
    ensures
        r == (a@ == b@),
{
    bool::from(subtle::ConstantTimeEq::ct_eq(a, b))
}

// ── Randomness and time ────────────────────────────────────────────────────

/// `rand::RngCore::fill_bytes` on the thread RNG: `n` random bytes. Nothing
/// is promised of their values.
#[verifier::external_body]
pub(crate) fn random_bytes(n: usize) -> (v: Vec<u8>)
    ensures
        v@.len() == n,
{
    let mut v = vec![0u8; n];
    rand::RngCore::fill_bytes(&mut rand::thread_rng(), &mut v);
    v
}

/// `std::time::SystemTime::now` as nanoseconds since the Unix epoch (0
/// if the clock is before the epoch); the whole seconds fit in a `u64`,
/// as `Duration::as_secs` returns them. Nothing else is promised of the
/// value.
#[verifier::external_body]
pub(crate) fn unix_nanos() -> (t: u128)
    ensures
        t / 1_000_000_000 <= u64::MAX,
{
    std::time::SystemTime::now()
        .duration_since(std::time::UNIX_EPOCH)
        .map(|d| d.as_nanos())
        .unwrap_or(0)
}

/// `uuid::Uuid::new_v4`: 16 random bytes with the version nibble set to 4
/// and the RFC 4122 variant bits set to 10.
#[verifier::external_body]
pub(crate) fn uuid_v4_bytes() -> (b: [u8; 16])
    ensures
        b@[6] / 16 == 4,
        b@[8] / 64 == 2,
{
    uuid::Uuid::new_v4().into_bytes()
}

// ── Ed25519 ────────────────────────────────────────────────────────────────

/// The Ed25519 public key of a 32-byte secret key.
pub uninterp spec fn ed25519_public_of(sk: Seq<u8>) -> Seq<u8>;

/// The Ed25519 signature (deterministic, RFC 8032) of a message.
pub uninterp spec fn ed25519_signature_of(sk: Seq<u8>, msg: Seq<u8>) -> Seq<u8>;

/// Whether Ed25519 verification accepts a signature.
pub uninterp spec fn ed25519_accepts(vk: Seq<u8>, msg: Seq<u8>, sig: Seq<u8>) -> bool;

/// `ed25519_dalek::SigningKey::generate` with the OS RNG: a fresh secret
/// key. Nothing is promised of its value.
#[verifier::external_body]
pub(crate) fn ed25519_generate_secret() -> (sk: [u8; 32]) {
    ed25519_dalek::SigningKey::generate(&mut rand::rngs::OsRng).to_bytes()
}

/// `ed25519_dalek::SigningKey::verifying_key`: the public key of `sk`.
#[verifier::external_body]
pub(crate) fn ed25519_public(sk: &[u8; 32]) -> (vk: [u8; 32])
    ensures
        vk@ == ed25519_public_of(sk@),
{
    ed25519_dalek::SigningKey::from_bytes(sk).verifying_key().to_bytes()
}

/// `ed25519_dalek::Signer::sign`: the signature of `msg` under `sk`; the
/// signature verifies against the public key of `sk`.
#[verifier::external_body]
pub(crate) fn ed25519_sign(sk: &[u8; 32], msg: &[u8]) -> (sig: [u8; 64])
    ensures
        sig@ == ed25519_signature_of(sk@, msg@),
        ed25519_accepts(ed25519_public_of(sk@), msg@, sig@),
{
    let key = ed25519_dalek::SigningKey::from_bytes(sk);
    ed25519_dalek::Signer::sign(&key, msg).to_bytes()
}

/// `ed25519_dalek::VerifyingKey::from_bytes` then `Verifier::verify`:
/// false when the key bytes are not a valid point or the signature does
/// not verify.
#[verifier::external_body]
pub(crate) fn ed25519_verify(vk: &[u8; 32], msg: &[u8], sig: &[u8; 64]) -> (ok: bool)
    ensures
        ok == ed25519_accepts(vk@, msg@, sig@),
{
    match ed25519_dalek::VerifyingKey::from_bytes(vk) {
        Ok(key) => ed25519_dalek::Verifier::verify(&key, msg, &ed25519_dalek::Signature::from_bytes(sig)).is_ok(),
        Err(_) => false,
    }
}

// ── ChaCha20-Poly1305 ──────────────────────────────────────────────────────

/// The ChaCha20-Poly1305 ciphertext-with-tag of a message.
pub uninterp spec fn chacha_sealed_of(key: Seq<u8>, nonce: Seq<u8>, msg: Seq<u8>, aad: Seq<u8>) -> Seq<u8>;

/// The plaintext ChaCha20-Poly1305 recovers from a ciphertext-with-tag,
/// or none when authentication fails.
pub uninterp spec fn chacha_opened_of(key: Seq<u8>, nonce: Seq<u8>, ct: Seq<u8>, aad: Seq<u8>) -> Option<Seq<u8>>;

/// `chacha20poly1305::ChaCha20Poly1305::encrypt`: ciphertext followed by
/// the 16-byte tag. It fails only for messages of 2^32-1 or more 64-byte
/// blocks; what it returns decrypts back to the message.
#[verifier::external_body]
pub(crate) fn chacha_encrypt(key: &[u8; 32], nonce: &[u8; 12], msg: &[u8], aad: &[u8]) -> (r: Option<Vec<u8>>)
    ensures
        r is Some <==> msg@.len() / 64 < 0xFFFF_FFFF,
        r matches Some(ct) ==> (ct@ == chacha_sealed_of(key@, nonce@, msg@, aad@) && ct@.len() == msg@.len() + 16),
        r matches Some(ct) ==> chacha_opened_of(key@, nonce@, ct@, aad@) == Some(msg@),
{
    let cipher = <chacha20poly1305::ChaCha20Poly1305 as chacha20poly1305::KeyInit>::new(chacha20poly1305::Key::from_slice(key));
    let payload = chacha20poly1305::aead::Payload { msg, aad };
    chacha20poly1305::aead::Aead::encrypt(&cipher, &chacha20poly1305::Nonce::from(*nonce), payload).ok()
}

/// `chacha20poly1305::ChaCha20Poly1305::decrypt`: the plaintext, or none
/// when the tag does not authenticate.
#[verifier::external_body]
pub(crate) fn chacha_decrypt(key: &[u8; 32], nonce: &[u8; 12], ct: &[u8], aad: &[u8]) -> (r: Option<Vec<u8>>)
    ensures
        match r {
            Some(pt) => chacha_opened_of(key@, nonce@, ct@, aad@) == Some(pt@),
            None => chacha_opened_of(key@, nonce@, ct@, aad@) is None,
        },
{
    let cipher = <chacha20poly1305::ChaCha20Poly1305 as chacha20poly1305::KeyInit>::new(chacha20poly1305::Key::from_slice(key));
    let payload = chacha20poly1305::aead::Payload { msg: ct, aad };
    chacha20poly1305::aead::Aead::decrypt(&cipher, &chacha20poly1305::Nonce::from(*nonce), payload).ok()
}

// ── Argon2id ───────────────────────────────────────────────────────────────

/// The Argon2id (v0x13) output for the given costs, password, salt and
/// output length.
pub uninterp spec fn argon2id_of(m_kib: u32, t: u32, p: u32, pwd: Seq<u8>, salt: Seq<u8>, out_len: usize) -> Seq<u8>;

/// Why an Argon2id derivation failed, with the crate's message.
#[derive(Debug)]
pub enum Argon2Failure {
    /// The cost parameters or output length were refused.
    Params(String),
    /// Hashing refused the password or salt.
    Hash(String),
}

/// Argon2 accepts the costs and output length (`argon2::Params::new`).
pub open spec fn argon2_params_ok(m_kib: u32, t: u32, p: u32, out_len: usize) -> bool {
    &&& m_kib >= 8
    &&& m_kib >= p * 8
    &&& t >= 1
    &&& 1 <= p <= 0xFF_FFFF
    &&& 4 <= out_len <= 0xFFFF_FFFF
}

/// Argon2 accepts the password and salt lengths (`Argon2::verify_inputs`).
pub open spec fn argon2_inputs_ok(pwd: Seq<u8>, salt: Seq<u8>) -> bool {
    pwd.len() <= 0xFFFF_FFFF && 8 <= salt.len() <= 0xFFFF_FFFF
}

/// `argon2::Params::new` then `Argon2::hash_password_into` (Argon2id,
/// v0x13): `out_len` bytes of key material. `Params::new` computes
/// `p * 8` before it checks `p` against its maximum, so `p` is kept within
/// that maximum (2^24 - 1) here. Parameter errors are exactly
/// those `Params::new` checks; hashing then fails only for a password or
/// salt the crate refuses by length.
#[verifier::external_body]
pub(crate) fn argon2id(m_kib: u32, t: u32, p: u32, out_len: usize, pwd: &[u8], salt: &[u8]) -> (r: Result<Vec<u8>, Argon2Failure>)
    requires
        p <= 0xFF_FFFF,
    ensures
        r matches Err(Argon2Failure::Params(_)) <==> !argon2_params_ok(m_kib, t, p, out_len),
        r is Ok <==> (argon2_params_ok(m_kib, t, p, out_len) && argon2_inputs_ok(pwd@, salt@)),
        r matches Ok(v) ==> v@ == argon2id_of(m_kib, t, p, pwd@, salt@, out_len) && v@.len() == out_len,
{
    let params = argon2::Params::new(m_kib, t, p, Some(out_len)).map_err(|e| Argon2Failure::Params(e.to_string()))?;
    let argon = argon2::Argon2::new(argon2::Algorithm::Argon2id, argon2::Version::V0x13, params);
    let mut out = vec![0u8; out_len];
    argon.hash_password_into(pwd, salt, &mut out).map_err(|e| Argon2Failure::Hash(e.to_string()))?;
    Ok(out)
}

// ── Shamir secret sharing (sharks) ─────────────────────────────────────────

/// The secret `sharks::Sharks::recover` interpolates from shares given
/// as bytes (x, then the y values).
pub uninterp spec fn sharks_recovered_of(threshold: u8, shares: Seq<Seq<u8>>) -> Seq<u8>;

/// The x coordinates (first bytes) of byte shares.
pub open spec fn share_xs(shares: Seq<Seq<u8>>) -> Set<u8> {
    Set::new(|x: u8| exists|i: int| 0 <= i < shares.len() && (#[trigger] shares[i])[0] == x)
}

/// The byte views of shares.
pub open spec fn byte_shares(shares: Seq<Vec<u8>>) -> Seq<Seq<u8>> {
    shares.map_values(|v: Vec<u8>| v@)
}

/// Every share has the length of the first.
pub open spec fn shares_same_len(shares: Seq<Seq<u8>>) -> bool {
    forall|i: int| 0 <= i < shares.len() ==> (#[trigger] shares[i]).len() == shares[0].len()
}

/// The message of a refused recovery: unequal lengths come first.
pub open spec fn recover_error_text(shares: Seq<Seq<u8>>) -> Seq<char> {
    if !shares_same_len(shares) {
        "All shares must have the same length"@
    } else {
        "Not enough shares to recover original secret"@
    }
}

/// `sharks::Sharks::dealer` then `Vec::from(&Share)`: the first `count`
/// shares of a fresh random split, each the x coordinate (1, 2, …) then
/// one y byte per secret byte. Nothing is promised of the y values.
#[verifier::external_body]
pub(crate) fn sharks_deal(secret: &[u8], threshold: u8, count: usize) -> (shares: Vec<Vec<u8>>)
    requires
        count <= 255,
    ensures
        shares@.len() == count,
        forall|i: int| 0 <= i < count ==> (#[trigger] shares@[i])@.len() == secret@.len() + 1,
        forall|i: int| 0 <= i < count ==> (#[trigger] shares@[i])@[0] == i + 1,
{
    let mut out: Vec<Vec<u8>> = Vec::new();
    for share in sharks::Sharks(threshold).dealer(secret).take(count) {
        out.push(Vec::from(&share));
    }
    out
}

/// `sharks::Share::try_from` on each share, then `Sharks::recover`: fails
/// when the shares differ in length ("All shares must have the same
/// length") or carry fewer than `threshold` distinct x coordinates ("Not
/// enough shares to recover original secret"); otherwise the
/// interpolated secret, one byte shorter than a share.
#[verifier::external_body]
pub(crate) fn sharks_recover(threshold: u8, shares: &Vec<Vec<u8>>) -> (r: Result<Vec<u8>, String>)
    requires
        shares@.len() > 0,
        forall|i: int| 0 <= i < shares@.len() ==> (#[trigger] shares@[i])@.len() >= 2,
    ensures
        r is Ok <==> (shares_same_len(byte_shares(shares@)) && share_xs(byte_shares(shares@)).len() >= threshold),
        r matches Err(m) ==> m@ == recover_error_text(byte_shares(shares@)),
        r matches Ok(v) ==> (v@ == sharks_recovered_of(threshold, byte_shares(shares@)) && v@.len() == shares@[0]@.len() - 1),
{
    let mut parsed: Vec<sharks::Share> = Vec::new();
    for bytes in shares {
        parsed.push(sharks::Share::try_from(bytes.as_slice()).unwrap());
    }
    sharks::Sharks(threshold).recover(&parsed).map_err(|e| e.to_string())
}

} // verus!
