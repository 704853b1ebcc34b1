//! `SargonKdf` — sovereign key derivation: the key material of an
//! Akkadian root, a per-credential salt and Argon2id (64 MiB, four lanes,
//! 54 passes). ŠATTĀTU_MAX (54 hours) bounds every credential's lifetime.

use vstd::prelude::*;
use crate::text::{decimal, push_decimal};
use crate::kupru::akkadian_root::{AkkadianRoot, array32, key_material_input};
use crate::kupru::canonical::extend_bytes;
use crate::kupru::error::{KupruError, KupruResult};
use crate::kupru::primitives::{
    argon2id, argon2_inputs_ok, argon2id_of, random_bytes, sha3_256_of, unix_nanos, Argon2Failure,
};

verus! {

/// ŠATTĀTU_MAX: 54 hours in seconds, the longest a credential may live.
pub const SATTATU_MAX: u64 = 54 * 3600;

/// Argon2id memory cost in KiB (64 MiB).
pub const KDF_MEMORY_KIB: u32 = 65_536;

/// Argon2id lanes.
pub const KDF_PARALLELISM: u32 = 4;

/// Argon2id passes.
pub const KDF_ITERATIONS: u32 = 54;

/// Length of the standard derived key.
pub const KDF_OUTPUT_LEN: usize = 32;

/// Largest clock skew tolerated on a credential's creation time.
pub const MAX_SKEW_SECS: u64 = 300;

/// Key derivation from an Akkadian root and a salt.
#[derive(Debug)]
pub struct SargonKdf {
    root: AkkadianRoot,
    salt: [u8; 32],
    iterations: u32,
    memory_kib: u32,
    parallelism: u32,
}

/// The salt `new` mints: the random bytes XOR the root's key material,
/// with the low byte of the passphrase length folded into the last byte.
pub open spec fn mixed_salt(random: Seq<u8>, material: Seq<u8>, pass_len: usize) -> Seq<u8> {
    Seq::new(
        32,
        |i: int|
            if i == 31 {
                random[i] ^ material[i] ^ ((pass_len & 0xFF) as u8)
            } else {
                random[i] ^ material[i]
            },
    )
}

/// The key a root, a salt and a passphrase derive: Argon2id over the
/// passphrase followed by the root's key material.
pub open spec fn sargon_derivation(root: AkkadianRoot, salt: Seq<u8>, passphrase: Seq<u8>, out_len: usize) -> Seq<u8> {
    argon2id_of(
        KDF_MEMORY_KIB,
        KDF_ITERATIONS,
        KDF_PARALLELISM,
        passphrase + sha3_256_of(key_material_input(root)),
        salt,
        out_len,
    )
}

/// Folds the root's key material and the passphrase length into random
/// salt bytes.
pub fn mix_salt(random: &[u8; 32], material: &[u8; 32], pass_len: usize) -> (s: [u8; 32])
    ensures
        s@ == mixed_salt(random@, material@, pass_len),
{
    let mut s = [0u8; 32];
    let mut i: usize = 0;
    while i < 32
        invariant
            0 <= i <= 32,
            s@.len() == 32,
            forall|j: int| 0 <= j < i ==> s@[j] == random@[j] ^ material@[j],
        decreases 32 - i,
    {
        s[i] = random[i] ^ material[i];
        i = i + 1;
    }
    let low: u8 = (pass_len & 0xFF) as u8;
    s[31] = s[31] ^ low;
    assert(s@ =~= mixed_salt(random@, material@, pass_len));
    s
}

impl SargonKdf {
    #[verifier::type_invariant]
    spec fn fixed_costs(self) -> bool {
        &&& self.iterations == KDF_ITERATIONS
        &&& self.memory_kib == KDF_MEMORY_KIB
        &&& self.parallelism == KDF_PARALLELISM
    }

    /// The root the key is derived from.
    pub closed spec fn root_of(self) -> AkkadianRoot {
        self.root
    }

    /// The salt the key is derived with.
    pub closed spec fn salt_of(self) -> Seq<u8> {
        self.salt@
    }

    /// A derivation with a fresh random salt mixed with the root's key
    /// material and the passphrase length, so identical passphrases give
    /// different keys for different roots. Nothing is promised of the
    /// random part.
    pub fn new(root: AkkadianRoot, passphrase: &[u8]) -> (r: KupruResult<Self>)
        ensures
            r matches Ok(k) && k.root_of() == root && exists|random: Seq<u8>|
                random.len() == 32 && #[trigger] mixed_salt(
                    random,
                    sha3_256_of(key_material_input(root)),
                    passphrase@.len() as usize,
                ) == k.salt_of(),
    {
        let rv = random_bytes(32);
        let random = array32(rv.as_slice());
        let material = root.to_key_material();
        let salt = mix_salt(&random, &material, passphrase.len());
        let k = SargonKdf {
            root,
            salt,
            iterations: KDF_ITERATIONS,
            memory_kib: KDF_MEMORY_KIB,
            parallelism: KDF_PARALLELISM,
        };
        assert(mixed_salt(random@, material@, passphrase@.len() as usize) == k.salt_of());
        Ok(k)
    }

    /// A derivation with a known salt, to re-derive a stored credential's
    /// key.
    pub fn with_salt(root: AkkadianRoot, salt: [u8; 32]) -> (k: Self)
        ensures
            k.root_of() == root,
            k.salt_of() == salt@,
    {
        SargonKdf {
            root,
            salt,
            iterations: KDF_ITERATIONS,
            memory_kib: KDF_MEMORY_KIB,
            parallelism: KDF_PARALLELISM,
        }
    }

    /// The password Argon2id runs on: the passphrase followed by the
    /// root's key material.
    pub fn derivation_input(&self, passphrase: &[u8]) -> (v: Vec<u8>)
        ensures
            v@ == passphrase@ + sha3_256_of(key_material_input(self.root_of())),
            v@.len() == passphrase@.len() + 32,
    {
        let material = self.root.to_key_material();
        let mut combined: Vec<u8> = Vec::new();
        extend_bytes(&mut combined, passphrase);
        extend_bytes(&mut combined, &material);
        combined
    }

    /// `output_len` bytes of key material: Argon2id over the passphrase
    /// followed by the root's key material, with the salt. An output
    /// length outside 4..=2^32-1 is refused as invalid input; a combined
    /// input longer than Argon2 accepts breaks the seal.
    pub fn derive(&self, passphrase: &[u8], output_len: usize) -> (r: KupruResult<Vec<u8>>)
        ensures
            r matches Err(KupruError::InvalidInput(_)) <==> !(4 <= output_len <= 0xFFFF_FFFF),
            r matches Err(KupruError::SealBroken(_)) <==> (4 <= output_len <= 0xFFFF_FFFF
                && passphrase@.len() + 32 > 0xFFFF_FFFF),
            r is Ok <==> (4 <= output_len <= 0xFFFF_FFFF && passphrase@.len() + 32 <= 0xFFFF_FFFF),
            r matches Ok(v) ==> v@ == sargon_derivation(self.root_of(), self.salt_of(), passphrase@, output_len),
            r matches Ok(v) ==> v@.len() == output_len,
    {
        proof {
            use_type_invariant(self);
        }
        let combined = self.derivation_input(passphrase);
        assert(argon2_inputs_ok(combined@, self.salt@) <==> passphrase@.len() + 32 <= 0xFFFF_FFFF);
        match argon2id(self.memory_kib, self.iterations, self.parallelism, output_len, combined.as_slice(), &self.salt) {
            Ok(v) => Ok(v),
            Err(Argon2Failure::Params(m)) => Err(KupruError::InvalidInput(m)),
            Err(Argon2Failure::Hash(m)) => Err(KupruError::SealBroken(m)),
        }
    }

    /// The standard 32-byte key.
    pub fn derive_key(&self, passphrase: &[u8]) -> (r: KupruResult<[u8; 32]>)
        ensures
            r is Ok <==> passphrase@.len() + 32 <= 0xFFFF_FFFF,
            r matches Err(KupruError::SealBroken(_)) <==> passphrase@.len() + 32 > 0xFFFF_FFFF,
            r matches Ok(k) ==> k@ == sargon_derivation(self.root_of(), self.salt_of(), passphrase@, KDF_OUTPUT_LEN),
    {
        let bytes = self.derive(passphrase, KDF_OUTPUT_LEN)?;
        Ok(array32(bytes.as_slice()))
    }

    /// The salt, stored beside the sealed artifact; it is not secret.
    pub fn salt(&self) -> (s: &[u8; 32])
        ensures
            s@ == self.salt_of(),
    {
        &self.salt
    }

    /// The current Unix time in seconds, from the system clock.
    pub fn sovereign_now() -> (t: u64) {
        let nanos = unix_nanos();
        (nanos / 1_000_000_000) as u64
    }

    /// The expiry of a credential issued now: the clock plus ŠATTĀTU_MAX.
    pub fn sovereign_expiry() -> (e: u64)
        ensures
            exists|now: u64| e == expiry_from(now),
    {
        let now = Self::sovereign_now();
        let e = expiry_at(now);
        assert(e == expiry_from(now));
        e
    }

    /// Whether `expires_at` is already past by the system clock.
    pub fn is_expired(expires_at: u64) -> (b: bool)
        ensures
            exists|now: u64| b == #[trigger] expired_at(now, expires_at),
    {
        let now = Self::sovereign_now();
        let b = now > expires_at;
        assert(b == expired_at(now, expires_at));
        b
    }
}

/// A credential expiring at `expires_at` is past its expiry at `now`.
pub open spec fn expired_at(now: u64, expires_at: u64) -> bool {
    now > expires_at
}

/// Issue time plus ŠATTĀTU_MAX, saturating at `u64::MAX`.
pub open spec fn expiry_from(now: u64) -> u64 {
    if now as int + SATTATU_MAX <= u64::MAX {
        (now + SATTATU_MAX) as u64
    } else {
        u64::MAX
    }
}

/// The expiry of a credential issued at `now`.
pub fn expiry_at(now: u64) -> (e: u64)
    ensures
        e == expiry_from(now),
{
    match now.checked_add(SATTATU_MAX) {
        Some(e) => e,
        None => u64::MAX,
    }
}

/// How credential timing is judged at time `now`.
pub enum TimingVerdict {
    /// The credential may be used.
    Valid,
    /// It expired before `now`.
    Expired,
    /// It was created more than the tolerated skew after `now`.
    FutureDated,
    /// Its lifetime exceeds ŠATTĀTU_MAX.
    TooLong,
}

/// The timing rules in order: expiry, clock skew, then lifetime.
pub open spec fn timing_verdict(now: u64, created_at: u64, expires_at: u64) -> TimingVerdict {
    if now > expires_at {
        TimingVerdict::Expired
    } else if created_at > now + MAX_SKEW_SECS {
        TimingVerdict::FutureDated
    } else if expires_at > created_at && expires_at - created_at > SATTATU_MAX {
        TimingVerdict::TooLong
    } else {
        TimingVerdict::Valid
    }
}

/// The outcome of the timing check at `now`: valid, or the error kind and
/// message of the first refusal.
pub open spec fn timing_outcome(now: u64, created_at: u64, expires_at: u64, r: KupruResult<()>) -> bool {
    match timing_verdict(now, created_at, expires_at) {
        TimingVerdict::Valid => r is Ok,
        TimingVerdict::Expired => r matches Err(KupruError::Expired(m)) && m@
            == "ŠANÛ ŠATTĀTI: credential expired at "@ + decimal(expires_at as nat) + ", now is "@
            + decimal(now as nat),
        TimingVerdict::FutureDated => r matches Err(KupruError::Expired(m)) && m@
            == "ŠANÛ ŠATTĀTI: created_at "@ + decimal(created_at as nat) + " is in the future (now="@
            + decimal(now as nat) + ")"@,
        TimingVerdict::TooLong => r matches Err(KupruError::AccessDenied(m)) && m@
            == "DŪRU: credential TTL exceeds ŠATTĀTU_MAX ("@ + decimal(SATTATU_MAX as nat) + "s)"@,
    }
}

/// Validates credential timing at `now`: refuses an expired credential,
/// one created more than five minutes in the future, and one whose
/// lifetime exceeds ŠATTĀTU_MAX, with the messages of each.
pub fn validate_credential_timing_at(now: u64, created_at: u64, expires_at: u64) -> (r: KupruResult<()>)
    ensures
        timing_outcome(now, created_at, expires_at, r),
{
    if now > expires_at {
        let mut m = "ŠANÛ ŠATTĀTI: credential expired at ".to_owned();
        push_decimal(&mut m, expires_at);
        m.append(", now is ");
        push_decimal(&mut m, now);
        return Err(KupruError::Expired(m));
    }
    if created_at > MAX_SKEW_SECS && created_at - MAX_SKEW_SECS > now {
        let mut m = "ŠANÛ ŠATTĀTI: created_at ".to_owned();
        push_decimal(&mut m, created_at);
        m.append(" is in the future (now=");
        push_decimal(&mut m, now);
        m.append(")");
        return Err(KupruError::Expired(m));
    }
    if expires_at > created_at && expires_at - created_at > SATTATU_MAX {
        let mut m = "DŪRU: credential TTL exceeds ŠATTĀTU_MAX (".to_owned();
        push_decimal(&mut m, SATTATU_MAX);
        m.append("s)");
        return Err(KupruError::AccessDenied(m));
    }
    Ok(())
}

/// Validates credential timing against the system clock (see
/// `validate_credential_timing_at`).
pub fn validate_credential_timing(created_at: u64, expires_at: u64) -> (r: KupruResult<()>)
    ensures
        exists|now: u64| #[trigger] timing_outcome(now, created_at, expires_at, r),
{
    let now = SargonKdf::sovereign_now();
    validate_credential_timing_at(now, created_at, expires_at)
}

/// What a derivation yields depends only on its root and salt: a
/// derivation rebuilt with `with_salt` from the stored salt reproduces
/// the key of the original.
pub proof fn law_salt_determines_key(a: SargonKdf, b: SargonKdf, passphrase: Seq<u8>, out_len: usize)
    requires
        a.root_of() == b.root_of(),
        a.salt_of() == b.salt_of(),
    ensures
        sargon_derivation(a.root_of(), a.salt_of(), passphrase, out_len) == sargon_derivation(
            b.root_of(),
            b.salt_of(),
            passphrase,
            out_len,
        ),
{
}

/// A credential is never valid once expired, and one that is valid lives
/// no longer than ŠATTĀTU_MAX.
pub proof fn law_valid_credential_bounded(now: u64, created_at: u64, expires_at: u64)
    requires
        timing_verdict(now, created_at, expires_at) is Valid,
    ensures
        now <= expires_at,
        expires_at - created_at <= SATTATU_MAX,
        created_at <= now + MAX_SKEW_SECS,
{
}

} // verus!
