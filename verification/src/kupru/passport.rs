//! `SargonPassport` — the sovereign credential: QUPPU (identity and
//! lifespan), KUPRU (integrity), NĀRU (subject) and IŠTAR (scopes), under
//! an outer Ed25519 seal over their canonical bytes.

use vstd::prelude::*;
use crate::text::{chars_eq_str, hex_encode, hex_of, str_chars, string_push};
use crate::kupru::akkadian_root::{AkkadianName, LinguisticProof};
use crate::kupru::akkadian_seal::{AkkadianSeal, SealKeyPair, ed25519_seal_accepted};
use crate::kupru::canonical::extend_bytes;
use crate::kupru::error::{KupruError, KupruResult};
use crate::kupru::passport_seal::{passport_bytes, passport_seal, passport_verify_seal};
use crate::kupru::primitives::{
    ct_eq, hmac_sha3_512_of, random_bytes, sha3_512_of, uuid_v4_bytes,
};
use crate::kupru::sargon_kdf::{
    expiry_at, expiry_from, timing_verdict, validate_credential_timing_at, SargonKdf, TimingVerdict,
    MAX_SKEW_SECS, SATTATU_MAX,
};
use crate::kupru::sovereign_hash::{default_hasher, SovereignHash};

verus! {

/// Renewal is due once this fraction (4/5) of a passport's lifetime has
/// passed: the numerator.
pub const RENEWAL_NUMERATOR: u64 = 4;

/// The denominator of the renewal fraction.
pub const RENEWAL_DENOMINATOR: u64 = 5;

/// QUPPU — the outer container: identity and lifespan.
#[derive(Debug, Clone)]
pub struct QuppuLayer {
    /// The passport's UUID v4, as its sixteen bytes.
    pub passport_id: [u8; 16],
    pub created_at: u64,
    pub expires_at: u64,
    pub issuer_kaki: [u8; 16],
}

/// The lifetime of a credential, zero when it expires before creation.
pub open spec fn lifetime_of(q: QuppuLayer) -> int {
    if q.expires_at >= q.created_at {
        q.expires_at - q.created_at
    } else {
        0
    }
}

/// The moment renewal becomes due: creation plus four fifths of the
/// lifetime (rounded down).
pub open spec fn renewal_threshold_of(q: QuppuLayer) -> int {
    q.created_at + (lifetime_of(q) * 4) / 5
}

/// The renewal arithmetic fits in 64 bits.
pub open spec fn renewal_fits(q: QuppuLayer) -> bool {
    lifetime_of(q) * 4 <= u64::MAX && renewal_threshold_of(q) <= u64::MAX
}

/// Renewal is due at `now`: four fifths of the lifetime have passed.
pub open spec fn renewal_due_by(q: QuppuLayer, now: u64) -> bool {
    now >= renewal_threshold_of(q)
}

/// The seconds left before renewal is due at `now`, zero once due.
pub open spec fn seconds_until_renewal(q: QuppuLayer, now: u64) -> int {
    if renewal_threshold_of(q) > now {
        renewal_threshold_of(q) - now
    } else {
        0
    }
}

/// Copies 16 bytes into an array.
fn array16(v: &[u8]) -> (a: [u8; 16])
    requires
        v@.len() == 16,
    ensures
        a@ == v@,
{
    let mut a = [0u8; 16];
    let mut i: usize = 0;
    while i < 16
        invariant
            v@.len() == 16,
            0 <= i <= 16,
            a@.len() == 16,
            forall|j: int| 0 <= j < i ==> a@[j] == v@[j],
        decreases 16 - i,
    {
        a[i] = v[i];
        i = i + 1;
    }
    assert(a@ =~= v@);
    a
}

impl QuppuLayer {
    /// A QUPPU issued now for ŠATTĀTU_MAX (saturating at `u64::MAX`),
    /// under a fresh UUID v4.
    pub fn new(issuer_kaki: [u8; 16]) -> (q: Self)
        ensures
            q.expires_at == expiry_from(q.created_at),
            q.issuer_kaki == issuer_kaki,
            q.passport_id@[6] / 16 == 4,
            q.passport_id@[8] / 64 == 2,
    {
        let now = SargonKdf::sovereign_now();
        QuppuLayer { passport_id: uuid_v4_bytes(), created_at: now, expires_at: expiry_at(now), issuer_kaki }
    }

    /// The timing check of `validate_credential_timing` at `now`.
    pub fn validate_timing_at(&self, now: u64) -> (r: KupruResult<()>)
        ensures
            r is Ok <==> timing_verdict(now, self.created_at, self.expires_at) is Valid,
            r is Err ==> (r matches Err(e) && (e is Expired || e is AccessDenied)),
    {
        validate_credential_timing_at(now, self.created_at, self.expires_at)
    }

    /// The timing check against the system clock.
    pub fn validate_timing(&self) -> (r: KupruResult<()>)
        ensures
            exists|now: u64| (#[trigger] timing_verdict(now, self.created_at, self.expires_at) is Valid)
                == (r is Ok),
    {
        let now = SargonKdf::sovereign_now();
        self.validate_timing_at(now)
    }

    /// Whether the renewal time of this layer can be computed in 64 bits
    /// (the test to make before the renewal functions).
    pub fn renewal_computable(&self) -> (b: bool)
        ensures
            b == renewal_fits(*self),
    {
        let lifetime: u64 = if self.expires_at >= self.created_at {
            self.expires_at - self.created_at
        } else {
            0
        };
        match lifetime.checked_mul(4) {
            Some(l4) => self.created_at.checked_add(l4 / 5).is_some(),
            None => false,
        }
    }

    /// When renewal becomes due.
    fn renewal_threshold(&self) -> (t: u64)
        requires
            renewal_fits(*self),
        ensures
            t == renewal_threshold_of(*self),
    {
        let lifetime: u64 = if self.expires_at >= self.created_at {
            self.expires_at - self.created_at
        } else {
            0
        };
        self.created_at + (lifetime * RENEWAL_NUMERATOR) / RENEWAL_DENOMINATOR
    }

    /// Whether 80% of the lifetime has passed at `now`.
    pub fn renewal_due_at(&self, now: u64) -> (b: bool)
        requires
            renewal_fits(*self),
        ensures
            b == renewal_due_by(*self, now),
    {
        now >= self.renewal_threshold()
    }

    /// Whether 80% of the lifetime has passed by the system clock.
    pub fn renewal_due(&self) -> (b: bool)
        requires
            renewal_fits(*self),
        ensures
            exists|now: u64| b == #[trigger] renewal_due_by(*self, now),
    {
        let now = SargonKdf::sovereign_now();
        let b = self.renewal_due_at(now);
        assert(b == renewal_due_by(*self, now));
        b
    }

    /// Seconds until renewal is due at `now` (zero once due).
    pub fn seconds_until_renewal_due_at(&self, now: u64) -> (s: u64)
        requires
            renewal_fits(*self),
        ensures
            s == seconds_until_renewal(*self, now),
    {
        let t = self.renewal_threshold();
        if t > now {
            t - now
        } else {
            0
        }
    }

    /// Seconds until renewal is due by the system clock.
    pub fn seconds_until_renewal_due(&self) -> (s: u64)
        requires
            renewal_fits(*self),
        ensures
            exists|now: u64| s == #[trigger] seconds_until_renewal(*self, now),
    {
        let now = SargonKdf::sovereign_now();
        self.seconds_until_renewal_due_at(now)
    }
}

/// KUPRU — the integrity layer over the inner (NĀRU and IŠTAR) bytes.
#[derive(Debug, Clone)]
pub struct KupruLayer {
    pub content_hash: Vec<u8>,
    pub hmac: Vec<u8>,
    pub nonce: [u8; 16],
    pub algorithm_id: u8,
}

/// The layer's digests are those of `inner` under `key`.
pub open spec fn kupru_matches(k: KupruLayer, inner: Seq<u8>, key: Seq<u8>) -> bool {
    k.content_hash@ == sha3_512_of(inner) && k.hmac@ == hmac_sha3_512_of(key, inner)
}

impl KupruLayer {
    /// The integrity layer of `inner`: its SHA3-512 digest and its
    /// HMAC-SHA3-512 under `integrity_key`, with a random nonce.
    pub fn compute(inner_bytes: &[u8], integrity_key: &[u8]) -> (r: KupruResult<Self>)
        ensures
            r matches Ok(k) && kupru_matches(k, inner_bytes@, integrity_key@) && k.algorithm_id == 0x01,
    {
        let hasher = default_hasher();
        let nv = random_bytes(16);
        let nonce = array16(nv.as_slice());
        let content_hash = hasher.digest(inner_bytes);
        let hmac = hasher.keyed_digest(integrity_key, inner_bytes)?;
        let algorithm_id = hasher.algorithm().to_byte();
        Ok(KupruLayer { content_hash, hmac, nonce, algorithm_id })
    }

    /// Checks both digests (in constant time).
    pub fn verify(&self, inner_bytes: &[u8], integrity_key: &[u8]) -> (r: KupruResult<()>)
        ensures
            r is Ok <==> kupru_matches(*self, inner_bytes@, integrity_key@),
            r is Err ==> (r matches Err(KupruError::SealBroken(m)) && m@
                == "NAKRU: KUPRU layer integrity check failed"@),
    {
        let hasher = default_hasher();
        let expected_hash = hasher.digest(inner_bytes);
        let expected_hmac = hasher.keyed_digest(integrity_key, inner_bytes)?;
        let hash_ok = ct_eq(self.content_hash.as_slice(), expected_hash.as_slice());
        let hmac_ok = ct_eq(self.hmac.as_slice(), expected_hmac.as_slice());
        if hash_ok && hmac_ok {
            Ok(())
        } else {
            Err(KupruError::SealBroken("NAKRU: KUPRU layer integrity check failed".to_owned()))
        }
    }
}

/// A layer computed over some bytes verifies over the same bytes.
pub proof fn law_kupru_layer_verifies(k: KupruLayer, inner: Seq<u8>, key: Seq<u8>)
    requires
        kupru_matches(k, inner, key),
    ensures
        k.content_hash@ == sha3_512_of(inner),
        k.hmac@ == hmac_sha3_512_of(key, inner),
{
}

/// NĀRU — the subject of the passport.
#[derive(Debug, Clone)]
pub struct NaruLayer {
    pub subject_kaki: [u8; 16],
    pub akkadian_name: AkkadianName,
    pub linguistic_proof: LinguisticProof,
    pub realm: String,
    pub mudu_score: u8,
}

/// IŠTAR — granted scopes and privilege.
#[derive(Debug, Clone)]
pub struct IshtarLayer {
    pub isretu_scopes: Vec<String>,
    pub access_matrix: std::collections::HashMap<String, Vec<String>>,
    pub nadanu_chain: Vec<[u8; 16]>,
    /// 1 (gardener) to 7 (king).
    pub privilege_level: u8,
}

/// `realm` followed by `suffix`.
fn realm_scope(realm: &str, suffix: &str) -> (s: String)
    ensures
        s@ == realm@ + suffix@,
{
    let mut s = realm.to_owned();
    s.append(suffix);
    s
}

impl IshtarLayer {
    /// Read-only gardener permissions: `<realm>:read` and `story:read`,
    /// privilege level 1.
    pub fn gardener(realm: &str) -> (l: Self)
        ensures
            l.isretu_scopes@.len() == 2,
            l.isretu_scopes@[0]@ == realm@ + ":read"@,
            l.isretu_scopes@[1]@ == "story:read"@,
            l.access_matrix@ == Map::<String, Vec<String>>::empty(),
            l.nadanu_chain@.len() == 0,
            l.privilege_level == 1,
    {
        let mut scopes: Vec<String> = Vec::new();
        scopes.push(realm_scope(realm, ":read"));
        scopes.push("story:read".to_owned());
        IshtarLayer {
            isretu_scopes: scopes,
            access_matrix: std::collections::HashMap::new(),
            nadanu_chain: Vec::new(),
            privilege_level: 1,
        }
    }

    /// Full architect permissions: `<realm>:*`, `kaki:*`, `enki:*`,
    /// `story:*` and `zero:*`, privilege level 7.
    pub fn architect(realm: &str) -> (l: Self)
        ensures
            l.isretu_scopes@.len() == 5,
            l.isretu_scopes@[0]@ == realm@ + ":*"@,
            l.isretu_scopes@[1]@ == "kaki:*"@,
            l.isretu_scopes@[2]@ == "enki:*"@,
            l.isretu_scopes@[3]@ == "story:*"@,
            l.isretu_scopes@[4]@ == "zero:*"@,
            l.access_matrix@ == Map::<String, Vec<String>>::empty(),
            l.nadanu_chain@.len() == 0,
            l.privilege_level == 7,
    {
        let mut scopes: Vec<String> = Vec::new();
        scopes.push(realm_scope(realm, ":*"));
        scopes.push("kaki:*".to_owned());
        scopes.push("enki:*".to_owned());
        scopes.push("story:*".to_owned());
        scopes.push("zero:*".to_owned());
        IshtarLayer {
            isretu_scopes: scopes,
            access_matrix: std::collections::HashMap::new(),
            nadanu_chain: Vec::new(),
            privilege_level: 7,
        }
    }
}

/// A granted scope covers a requested one: it is the same scope, or it
/// ends in `:*` and the request starts with everything before the `*`.
pub open spec fn scope_grants(granted: Seq<char>, scope: Seq<char>) -> bool {
    ||| granted == scope
    ||| {
        &&& granted.len() >= 2
        &&& granted[granted.len() - 2] == ':'
        &&& granted[granted.len() - 1] == '*'
        &&& scope.len() >= granted.len() - 1
        &&& scope.subrange(0, granted.len() - 1) == granted.subrange(0, granted.len() - 1)
    }
}

/// Whether `granted` covers `scope`.
fn grants(granted: &str, scope: &Vec<char>) -> (b: bool)
    ensures
        b == scope_grants(granted@, scope@),
{
    let g = str_chars(granted);
    if chars_eq_str(scope, granted) {
        return true;
    }
    let n = g.len();
    if n < 2 || g[n - 2] != ':' || g[n - 1] != '*' || scope.len() < n - 1 {
        return false;
    }
    let mut i: usize = 0;
    while i < n - 1
        invariant
            n == g@.len(),
            g@ == granted@,
            n >= 2,
            scope@.len() >= n - 1,
            0 <= i <= n - 1,
            forall|j: int| 0 <= j < i ==> scope@[j] == g@[j],
        decreases n - 1 - i,
    {
        if scope[i] != g[i] {
            assert(scope@.subrange(0, n - 1)[i as int] != g@.subrange(0, n - 1)[i as int]);
            return false;
        }
        i = i + 1;
    }
    assert(scope@.subrange(0, n - 1) =~= g@.subrange(0, n - 1));
    true
}

/// A wildcard scope `<prefix>:*` covers every scope `<prefix>:<rest>`.
pub proof fn law_wildcard_covers(prefix: Seq<char>, rest: Seq<char>)
    ensures
        scope_grants(prefix + seq![':', '*'], prefix + seq![':'] + rest),
{
    let g = prefix + seq![':', '*'];
    let s = prefix + seq![':'] + rest;
    assert(s.subrange(0, g.len() - 1) =~= g.subrange(0, g.len() - 1));
}

/// The complete passport: four layers and the issuer's outer seal.
#[derive(Debug, Clone)]
pub struct SargonPassport {
    pub quppu: QuppuLayer,
    pub kupru: KupruLayer,
    pub naru: NaruLayer,
    pub istar: IshtarLayer,
    pub outer_seal: Vec<u8>,
    pub issuer_verifying_key: Vec<u8>,
}

/// The outer seal verifies: a 32-byte issuer key under which the seal
/// accepts the canonical bytes of the four layers.
pub open spec fn outer_seal_valid(p: SargonPassport) -> bool {
    &&& p.issuer_verifying_key@.len() == 32
    &&& ed25519_seal_accepted(
        p.issuer_verifying_key@,
        passport_bytes(p.quppu, p.kupru, p.naru, p.istar),
        p.outer_seal@,
    )
}

/// `p` was issued by `issuer`: it carries the issuer's verifying key and
/// a seal the issuer made of its canonical bytes.
pub open spec fn issued_by(p: SargonPassport, issuer: SealKeyPair) -> bool {
    &&& p.issuer_verifying_key@ == issuer.verifying_view()
    &&& issuer.seals(passport_bytes(p.quppu, p.kupru, p.naru, p.istar), p.outer_seal@)
}

impl SargonPassport {
    /// Issues a passport: a fresh QUPPU, the KUPRU layer over `inner`
    /// (the serialised NĀRU and IŠTAR layers), and the issuer's seal
    /// over the canonical bytes.
    pub fn issue(
        naru: NaruLayer,
        istar: IshtarLayer,
        inner: &[u8],
        issuer_kaki: [u8; 16],
        issuer_keypair: &SealKeyPair,
        integrity_key: &[u8; 32],
    ) -> (r: KupruResult<Self>)
        ensures
            r matches Ok(p) && {
                &&& p.naru == naru
                &&& p.istar == istar
                &&& p.quppu.issuer_kaki == issuer_kaki
                &&& p.quppu.expires_at == expiry_from(p.quppu.created_at)
                &&& kupru_matches(p.kupru, inner@, integrity_key@)
                &&& issued_by(p, *issuer_keypair)
            },
    {
        let quppu = QuppuLayer::new(issuer_kaki);
        let kupru = KupruLayer::compute(inner, integrity_key)?;
        let outer_seal = passport_seal(&quppu, &kupru, &naru, &istar, issuer_keypair)?;
        let vk = issuer_keypair.verifying_key_bytes();
        let mut issuer_verifying_key: Vec<u8> = Vec::new();
        extend_bytes(&mut issuer_verifying_key, &vk);
        Ok(SargonPassport { quppu, kupru, naru, istar, outer_seal, issuer_verifying_key })
    }

    /// Verifies timing at `now`, then the outer seal. Scopes are not
    /// checked.
    pub fn verify_seal_at(&self, now: u64) -> (r: KupruResult<()>)
        ensures
            r is Ok <==> (timing_verdict(now, self.quppu.created_at, self.quppu.expires_at) is Valid
                && outer_seal_valid(*self)),
            (timing_verdict(now, self.quppu.created_at, self.quppu.expires_at) is Valid
                && self.issuer_verifying_key@.len() != 32) ==> (r matches Err(KupruError::InvalidInput(m))
                && m@ == "LEMNĪ: verifying key must be 32 bytes"@),
            (timing_verdict(now, self.quppu.created_at, self.quppu.expires_at) is Valid
                && self.issuer_verifying_key@.len() == 32 && !outer_seal_valid(*self)) ==> (r matches Err(
                KupruError::SealBroken(m),
            ) && m@ == "NAKRU: outer passport seal is invalid"@),
    {
        self.quppu.validate_timing_at(now)?;
        let ok = passport_verify_seal(
            &self.quppu,
            &self.kupru,
            &self.naru,
            &self.istar,
            self.outer_seal.as_slice(),
            self.issuer_verifying_key.as_slice(),
        )?;
        if ok {
            Ok(())
        } else {
            Err(KupruError::SealBroken("NAKRU: outer passport seal is invalid".to_owned()))
        }
    }

    /// Verifies timing against the system clock, then the outer seal.
    pub fn verify_seal(&self) -> (r: KupruResult<()>)
        ensures
            exists|now: u64|
                (#[trigger] timing_verdict(now, self.quppu.created_at, self.quppu.expires_at) is Valid
                    && outer_seal_valid(*self)) == (r is Ok),
    {
        let now = SargonKdf::sovereign_now();
        self.verify_seal_at(now)
    }

    /// Whether a granted scope covers `scope`.
    pub fn has_scope(&self, scope: &str) -> (b: bool)
        ensures
            b == exists|j: int|
                0 <= j < self.istar.isretu_scopes@.len() && scope_grants(
                    #[trigger] self.istar.isretu_scopes@[j]@,
                    scope@,
                ),
    {
        let want = str_chars(scope);
        let scopes = &self.istar.isretu_scopes;
        let mut i: usize = 0;
        while i < scopes.len()
            invariant
                0 <= i <= scopes@.len(),
                want@ == scope@,
                scopes@ == self.istar.isretu_scopes@,
                forall|j: int| 0 <= j < i ==> !scope_grants(#[trigger] scopes@[j]@, scope@),
            decreases scopes@.len() - i,
        {
            if grants(scopes[i].as_str(), &want) {
                assert(scope_grants(self.istar.isretu_scopes@[i as int]@, scope@));
                return true;
            }
            i = i + 1;
        }
        false
    }

    /// The subject's KAKI key.
    pub fn subject_kaki(&self) -> (k: [u8; 16])
        ensures
            k == self.naru.subject_kaki,
    {
        self.naru.subject_kaki
    }

    /// The passport id in hyphenated UUID form.
    pub fn passport_id(&self) -> (s: String)
        ensures
            s@ == uuid_text(self.quppu.passport_id@),
    {
        let id = &self.quppu.passport_id;
        let mut s = hex_encode(vstd::slice::slice_subrange(id, 0, 4));
        string_push(&mut s, '-');
        let t1 = hex_encode(vstd::slice::slice_subrange(id, 4, 6));
        s.append(t1.as_str());
        string_push(&mut s, '-');
        let t2 = hex_encode(vstd::slice::slice_subrange(id, 6, 8));
        s.append(t2.as_str());
        string_push(&mut s, '-');
        let t3 = hex_encode(vstd::slice::slice_subrange(id, 8, 10));
        s.append(t3.as_str());
        string_push(&mut s, '-');
        let t4 = hex_encode(vstd::slice::slice_subrange(id, 10, 16));
        s.append(t4.as_str());
        s
    }

    /// Whether renewal is due at `now`.
    pub fn renewal_due_at(&self, now: u64) -> (b: bool)
        requires
            renewal_fits(self.quppu),
        ensures
            b == renewal_due_by(self.quppu, now),
    {
        self.quppu.renewal_due_at(now)
    }

    /// Whether renewal is due by the system clock.
    pub fn renewal_due(&self) -> (b: bool)
        requires
            renewal_fits(self.quppu),
        ensures
            exists|now: u64| b == #[trigger] renewal_due_by(self.quppu, now),
    {
        self.quppu.renewal_due()
    }

    /// Seconds until renewal is due at `now`.
    pub fn seconds_until_renewal_due_at(&self, now: u64) -> (s: u64)
        requires
            renewal_fits(self.quppu),
        ensures
            s == seconds_until_renewal(self.quppu, now),
    {
        self.quppu.seconds_until_renewal_due_at(now)
    }

    /// Seconds until renewal is due by the system clock.
    pub fn seconds_until_renewal_due(&self) -> (s: u64)
        requires
            renewal_fits(self.quppu),
        ensures
            exists|now: u64| s == #[trigger] seconds_until_renewal(self.quppu, now),
    {
        self.quppu.seconds_until_renewal_due()
    }
}

/// A UUID in hyphenated form: 8-4-4-4-12 lowercase hexadecimal digits.
pub open spec fn uuid_text(b: Seq<u8>) -> Seq<char> {
    hex_of(b.subrange(0, 4)) + seq!['-'] + hex_of(b.subrange(4, 6)) + seq!['-'] + hex_of(b.subrange(6, 8))
        + seq!['-'] + hex_of(b.subrange(8, 10)) + seq!['-'] + hex_of(b.subrange(10, 16))
}

/// A passport its issuer sealed verifies at every moment its timing is
/// valid; in particular a fresh passport verifies at its issue time.
pub proof fn law_issued_passport_verifies(p: SargonPassport, issuer: SealKeyPair, now: u64)
    requires
        issuer.keys_match(),
        issued_by(p, issuer),
        timing_verdict(now, p.quppu.created_at, p.quppu.expires_at) is Valid,
    ensures
        outer_seal_valid(p),
{
    issuer.lemma_key_lengths();
}

/// A fresh passport's timing is valid at its issue time, and its
/// lifetime never exceeds ŠATTĀTU_MAX.
pub proof fn law_fresh_passport_timing(q: QuppuLayer)
    requires
        q.expires_at == expiry_from(q.created_at),
    ensures
        timing_verdict(q.created_at, q.created_at, q.expires_at) is Valid,
        q.expires_at - q.created_at <= SATTATU_MAX,
{
}

} // verus!
