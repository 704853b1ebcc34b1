//! The Sargon vault: opening a passphrase-sealed vault, choosing the
//! strongest valid passport inside it, and query-time authorization of
//! restricted attribute namespaces. Parsing the vault's JSON entries
//! happens outside the library.

use vstd::prelude::*;
use vstd::utf8::encode_utf8;
use crate::text::{hex_of, str_chars};
use crate::heptascript::query::{Projection, WhatClause};
use crate::kupru::akk_cipher::{opened_plaintext, sealed_by, AkkadianCipher};
use crate::kupru::akkadian_root::{
    key_material_input, normalized_phrase, pattern_of_vowels, pattern_weight, radicals_of, vowels_of,
    AkkadianRoot,
};
use crate::kupru::error::kupru_error_text;
use crate::kupru::passport::{outer_seal_valid, uuid_text, SargonPassport};
use crate::kupru::primitives::{argon2id_of, sha3_256_of};
use crate::kupru::sargon_kdf::{
    timing_verdict, SargonKdf, TimingVerdict, KDF_ITERATIONS, KDF_MEMORY_KIB, KDF_PARALLELISM,
};

verus! {

/// The phrase every vault key's root is read from.
pub const VAULT_ROOT_PHRASE: &'static str = "sargon-vault-root";

/// The associated data every vault blob is sealed with.
pub const VAULT_AAD: &'static str = "BahyWay.Ecosystem.v4.VaultBlob";

/// Length of the salt in front of a vault's sealed blob.
pub const SALT_LEN: usize = 32;

/// The shortest vault: salt, version, nonce and tag.
pub const VAULT_MIN_LEN: usize = 61;

/// `hex::encode`: lowercase hexadecimal, two digits a byte.
#[verifier::external_body]
fn hex_crate_encode(data: &[u8]) -> (s: String)
    ensures
        s@ == hex_of(data@),
{
    hex::encode(data)
}

/// The identity an opened vault establishes: audit-safe fields only.
#[derive(Debug, Clone)]
pub struct AuthedIdentity {
    pub subject_kaki_hex: String,
    pub realm: String,
    pub privilege_level: u8,
    pub passport_id: String,
    pub expires_at: u64,
}

impl AuthedIdentity {
    /// Whether the identity holds architect privilege (7 or more).
    pub fn is_architect(&self) -> (b: bool)
        ensures
            b == (self.privilege_level >= 7),
    {
        self.privilege_level >= 7
    }
}

/// The key material of the vault root, read from `VAULT_ROOT_PHRASE`.
pub open spec fn vault_root_material() -> Seq<u8> {
    let n = normalized_phrase(VAULT_ROOT_PHRASE@);
    encode_utf8(radicals_of(n).take(3)) + seq![pattern_weight(pattern_of_vowels(vowels_of(n)))]
}

/// The 32-byte key a vault's salt and passphrase derive.
pub open spec fn vault_key(salt: Seq<u8>, passphrase: Seq<u8>) -> Seq<u8> {
    argon2id_of(
        KDF_MEMORY_KIB,
        KDF_ITERATIONS,
        KDF_PARALLELISM,
        passphrase + sha3_256_of(vault_root_material()),
        salt,
        32,
    )
}

/// The vault root phrase yields a root.
pub open spec fn vault_root_readable() -> bool {
    let n = normalized_phrase(VAULT_ROOT_PHRASE@);
    n.len() > 0 && radicals_of(n).len() >= 3
}

/// Decrypts a vault's sealed blob (after its 32-byte salt) with an
/// already derived key: refuses a file too short to hold a salt and a
/// sealed blob, and reports a wrong passphrase or a corrupted file when
/// the blob does not open.
pub fn open_vault_with_key(vault_bytes: &[u8], key: &[u8; 32]) -> (r: Result<Vec<u8>, String>)
    ensures
        vault_bytes@.len() < VAULT_MIN_LEN ==> (r matches Err(m) && m@
            == "file too short to contain a salt + sealed blob"@),
        vault_bytes@.len() >= VAULT_MIN_LEN ==> ({
            let opened = opened_plaintext(
                key@,
                vault_bytes@.subrange(32, vault_bytes@.len() as int),
                encode_utf8(VAULT_AAD@),
            );
            &&& opened is Some ==> (r matches Ok(p) && Some(p@) == opened)
            &&& opened is None ==> (r matches Err(m) && m@
                == "wrong passphrase, or the vault file is corrupted"@)
        }),
{
    if vault_bytes.len() < VAULT_MIN_LEN {
        return Err("file too short to contain a salt + sealed blob".to_owned());
    }
    let sealed = vstd::slice::slice_subrange(vault_bytes, 32, vault_bytes.len());
    let cipher = match AkkadianCipher::from_key_bytes(key) {
        Ok(c) => c,
        Err(e) => {
            return Err(e.to_string());
        },
    };
    match cipher.open(sealed, VAULT_AAD.as_bytes()) {
        Ok(p) => Ok(p),
        Err(_) => Err("wrong passphrase, or the vault file is corrupted".to_owned()),
    }
}

/// Decrypts a vault (`salt(32) ‖ sealed`) with a passphrase: the key is
/// derived from the vault root, the salt and the passphrase, then the
/// blob is opened as `open_vault_with_key` does.
pub fn open_vault(vault_bytes: &[u8], passphrase: &[u8]) -> (r: Result<Vec<u8>, String>)
    ensures
        vault_bytes@.len() < VAULT_MIN_LEN ==> (r matches Err(m) && m@
            == "file too short to contain a salt + sealed blob"@),
        (vault_bytes@.len() >= VAULT_MIN_LEN && vault_root_readable() && passphrase@.len() + 32
            <= 0xFFFF_FFFF) ==> ({
            let key = vault_key(vault_bytes@.subrange(0, 32), passphrase@);
            let opened = opened_plaintext(
                key,
                vault_bytes@.subrange(32, vault_bytes@.len() as int),
                encode_utf8(VAULT_AAD@),
            );
            &&& opened is Some ==> (r matches Ok(p) && Some(p@) == opened)
            &&& opened is None ==> (r matches Err(m) && m@
                == "wrong passphrase, or the vault file is corrupted"@)
        }),
        (vault_bytes@.len() >= VAULT_MIN_LEN && !(vault_root_readable() && passphrase@.len() + 32
            <= 0xFFFF_FFFF)) ==> r is Err,
{
    if vault_bytes.len() < VAULT_MIN_LEN {
        return Err("file too short to contain a salt + sealed blob".to_owned());
    }
    let salt = crate::kupru::akkadian_root::array32(vstd::slice::slice_subrange(vault_bytes, 0, 32));
    let root = match AkkadianRoot::from_phrase(VAULT_ROOT_PHRASE) {
        Ok(root) => root,
        Err(e) => {
            return Err(e.to_string());
        },
    };
    proof {
        assert(key_material_input(root) =~= vault_root_material());
    }
    let kdf = SargonKdf::with_salt(root, salt);
    let key = match kdf.derive_key(passphrase) {
        Ok(k) => k,
        Err(e) => {
            return Err(e.to_string());
        },
    };
    open_vault_with_key(vault_bytes, &key)
}

/// A vault whose blob was sealed under the key of its salt and a
/// passphrase opens, with that passphrase, to what was sealed.
pub proof fn law_vault_round_trip(salt: Seq<u8>, passphrase: Seq<u8>, sealed: Seq<u8>, plaintext: Seq<u8>)
    requires
        sealed_by(vault_key(salt, passphrase), sealed, plaintext, encode_utf8(VAULT_AAD@)),
    ensures
        opened_plaintext(vault_key(salt, passphrase), sealed, encode_utf8(VAULT_AAD@)) == Some(plaintext),
{
    crate::kupru::akk_cipher::law_open_undoes_seal(
        vault_key(salt, passphrase),
        sealed,
        plaintext,
        encode_utf8(VAULT_AAD@),
    );
}

/// A passport passes `verify_seal` at `now`.
pub open spec fn passport_valid_at(p: SargonPassport, now: u64) -> bool {
    timing_verdict(now, p.quppu.created_at, p.quppu.expires_at) is Valid && outer_seal_valid(p)
}

/// The passport the vault authenticates as: among those valid at `now`,
/// the first one of the highest privilege level.
pub open spec fn strongest_index(ps: Seq<SargonPassport>, now: u64) -> Option<int>
    decreases ps.len(),
{
    if ps.len() == 0 {
        None
    } else {
        let before = strongest_index(ps.drop_last(), now);
        let last = ps.len() - 1;
        if passport_valid_at(ps[last], now) && (before is None || ps[last].istar.privilege_level
            > ps[before->0].istar.privilege_level) {
            Some(last)
        } else {
            before
        }
    }
}

/// The identity of a passport, field by field.
pub open spec fn identity_of(id: AuthedIdentity, p: SargonPassport) -> bool {
    &&& id.subject_kaki_hex@ == hex_of(p.naru.subject_kaki@)
    &&& id.realm@ == p.naru.realm@
    &&& id.privilege_level == p.istar.privilege_level
    &&& id.passport_id@ == uuid_text(p.quppu.passport_id@)
    &&& id.expires_at == p.quppu.expires_at
}

/// The identity of a passport.
fn identity(p: &SargonPassport) -> (id: AuthedIdentity)
    ensures
        identity_of(id, *p),
{
    AuthedIdentity {
        subject_kaki_hex: hex_crate_encode(&p.subject_kaki()),
        realm: p.naru.realm.as_str().to_owned(),
        privilege_level: p.istar.privilege_level,
        passport_id: p.passport_id(),
        expires_at: p.quppu.expires_at,
    }
}

/// The strongest identity among the passports valid at `now`: the
/// highest privilege level wins, the first of equals is kept.
pub fn strongest_identity_at(now: u64, passports: &Vec<SargonPassport>) -> (r: Result<AuthedIdentity, String>)
    ensures
        match strongest_index(passports@, now) {
            None => r matches Err(m) && m@
                == "vault opened, but no passport inside it has a valid, unexpired seal"@,
            Some(k) => r matches Ok(id) && identity_of(id, passports@[k]),
        },
{
    let mut best: Option<AuthedIdentity> = None;
    let ghost mut best_k: Option<int> = None;
    let mut i: usize = 0;
    while i < passports.len()
        invariant
            0 <= i <= passports@.len(),
            best_k == strongest_index(passports@.subrange(0, i as int), now),
            best is None <==> best_k is None,
            best_k matches Some(k) ==> (0 <= k < i && (best matches Some(id) && identity_of(
                id,
                passports@[k],
            ))),
        decreases passports@.len() - i,
    {
        let p = &passports[i];
        let valid = p.verify_seal_at(now).is_ok();
        let level = p.istar.privilege_level;
        let better = match &best {
            None => true,
            Some(b) => level > b.privilege_level,
        };
        proof {
            let t = passports@.subrange(0, i + 1);
            assert(t.drop_last() =~= passports@.subrange(0, i as int));
            assert(t[i as int] == passports@[i as int]);
            if best_k is Some {
                assert(t[best_k->0] == passports@[best_k->0]);
            }
        }
        if valid && better {
            best = Some(identity(p));
            proof {
                best_k = Some(i as int);
            }
        }
        i = i + 1;
    }
    assert(passports@.subrange(0, passports@.len() as int) =~= passports@);
    match best {
        Some(id) => Ok(id),
        None => Err("vault opened, but no passport inside it has a valid, unexpired seal".to_owned()),
    }
}

/// The strongest identity among the passports valid by the system clock.
pub fn strongest_identity(passports: &Vec<SargonPassport>) -> (r: Result<AuthedIdentity, String>)
    ensures
        exists|now: u64|
            match #[trigger] strongest_index(passports@, now) {
                None => r is Err,
                Some(k) => r matches Ok(id) && identity_of(id, passports@[k]),
            },
{
    let now = SargonKdf::sovereign_now();
    strongest_identity_at(now, passports)
}

/// The chosen passport is valid and no valid passport outranks it.
pub proof fn law_strongest_wins(ps: Seq<SargonPassport>, now: u64, j: int)
    requires
        0 <= j < ps.len(),
        passport_valid_at(ps[j], now),
    ensures
        strongest_index(ps, now) matches Some(k) && 0 <= k < ps.len() && passport_valid_at(ps[k], now)
            && ps[j].istar.privilege_level <= ps[k].istar.privilege_level,
    decreases ps.len(),
{
    let init = ps.drop_last();
    if j < ps.len() - 1 {
        law_strongest_wins(init, now, j);
        assert(init[j] == ps[j]);
    } else {
        lemma_strongest_valid(init, now);
    }
    lemma_strongest_valid(ps, now);
    let b = strongest_index(init, now);
    if b is Some {
        assert(init[b->0] == ps[b->0]);
    }
}

/// The chosen passport, if any, is valid and lies within the list.
proof fn lemma_strongest_valid(ps: Seq<SargonPassport>, now: u64)
    ensures
        strongest_index(ps, now) matches Some(k) ==> (0 <= k < ps.len() && passport_valid_at(ps[k], now)),
    decreases ps.len(),
{
    if ps.len() > 0 {
        let init = ps.drop_last();
        lemma_strongest_valid(init, now);
        let b = strongest_index(init, now);
        if b is Some {
            assert(init[b->0] == ps[b->0]);
        }
    }
}

// ── Restricted attribute namespaces ─────────────────────────────────────────

/// The least privilege level that may read restricted namespaces.
pub const RESTRICTED_NAMESPACE_MIN_PRIVILEGE: u8 = 5;

/// The first restricted namespace.
pub const PASSPORT_NAMESPACE: &'static str = "passport.";

/// The second restricted namespace.
pub const ANU_GOVERNOR_RUN_NAMESPACE: &'static str = "anu_governor_run.";

/// The restricted namespaces, in the order they are checked.
pub open spec fn restricted_namespace(k: int) -> Seq<char> {
    if k == 0 {
        PASSPORT_NAMESPACE@
    } else {
        ANU_GOVERNOR_RUN_NAMESPACE@
    }
}

/// What a query reads: its WHAT clause and the attributes its WHERE
/// conditions test (the comparison values are never inspected).
#[derive(Debug, Clone)]
pub struct QueryReads {
    pub what: Option<WhatClause>,
    pub where_attrs: Vec<String>,
}

/// `s` starts with `p`.
pub open spec fn starts_with(s: Seq<char>, p: Seq<char>) -> bool {
    p.len() <= s.len() && s.subrange(0, p.len() as int) == p
}

/// The first restricted namespace an attribute name starts with.
pub open spec fn attr_namespace(attr: Seq<char>) -> Option<int> {
    if starts_with(attr, restricted_namespace(0)) {
        Some(0)
    } else if starts_with(attr, restricted_namespace(1)) {
        Some(1)
    } else {
        None
    }
}

/// The namespace of the first attribute that touches one, in order.
pub open spec fn first_touch(attrs: Seq<String>) -> Option<int>
    decreases attrs.len(),
{
    if attrs.len() == 0 {
        None
    } else {
        match first_touch(attrs.drop_last()) {
            Some(k) => Some(k),
            None => attr_namespace(attrs.last()@),
        }
    }
}

/// The projected attributes of a WHAT clause, in order.
pub open spec fn projected_attrs(ps: Seq<Projection>) -> Seq<String>
    decreases ps.len(),
{
    if ps.len() == 0 {
        Seq::empty()
    } else {
        projected_attrs(ps.drop_last()) + ps.last().attrs@
    }
}

/// WHAT is absent, empty, or has a `[*]` projection: it cannot be shown
/// to avoid a restricted namespace.
pub open spec fn what_is_wildcard(what: Option<WhatClause>) -> bool {
    match what {
        None => true,
        Some(w) => w.projections@.len() == 0 || exists|i: int|
            0 <= i < w.projections@.len() && (#[trigger] w.projections@[i]).attrs@.len() == 0,
    }
}

/// The restricted namespace a query touches: the first one for a
/// wildcard WHAT; otherwise that of the first projected, then tested,
/// attribute that starts with one.
pub open spec fn touched_namespace(q: QueryReads) -> Option<int> {
    if what_is_wildcard(q.what) {
        Some(0)
    } else {
        first_touch(projected_attrs(q.what->0.projections@) + q.where_attrs@)
    }
}

/// Whether `attr` starts with the characters `p`.
fn has_prefix(attr: &Vec<char>, p: &Vec<char>) -> (b: bool)
    ensures
        b == starts_with(attr@, p@),
{
    if p.len() > attr.len() {
        return false;
    }
    let mut i: usize = 0;
    while i < p.len()
        invariant
            p@.len() <= attr@.len(),
            0 <= i <= p@.len(),
            forall|j: int| 0 <= j < i ==> attr@[j] == p@[j],
        decreases p@.len() - i,
    {
        if attr[i] != p[i] {
            assert(attr@.subrange(0, p@.len() as int)[i as int] != p@[i as int]);
            return false;
        }
        i = i + 1;
    }
    assert(attr@.subrange(0, p@.len() as int) =~= p@);
    true
}

/// The restricted namespace an attribute name starts with, if any.
fn namespace_of_attr(attr: &str) -> (k: Option<usize>)
    ensures
        k matches Some(i) ==> attr_namespace(attr@) == Some(i as int),
        k is None ==> attr_namespace(attr@) is None,
{
    let a = str_chars(attr);
    let p0 = str_chars(PASSPORT_NAMESPACE);
    if has_prefix(&a, &p0) {
        return Some(0);
    }
    let p1 = str_chars(ANU_GOVERNOR_RUN_NAMESPACE);
    if has_prefix(&a, &p1) {
        return Some(1);
    }
    None
}

/// The text of a restricted namespace.
fn namespace_text(k: usize) -> (s: &'static str)
    requires
        k < 2,
    ensures
        s@ == restricted_namespace(k as int),
{
    if k == 0 {
        PASSPORT_NAMESPACE
    } else {
        ANU_GOVERNOR_RUN_NAMESPACE
    }
}

/// The restricted namespace a query touches, if any (see
/// `touched_namespace`).
pub fn query_touches_restricted_namespace(query: &QueryReads) -> (ns: Option<&'static str>)
    ensures
        match touched_namespace(*query) {
            None => ns is None,
            Some(k) => ns matches Some(s) && s@ == restricted_namespace(k),
        },
{
    let wildcard = match &query.what {
        None => true,
        Some(w) => {
            let mut any_empty = w.projections.len() == 0;
            let mut i: usize = 0;
            while i < w.projections.len() && !any_empty
                invariant
                    0 <= i <= w.projections@.len(),
                    any_empty ==> (w.projections@.len() == 0 || exists|j: int|
                        0 <= j < w.projections@.len() && (#[trigger] w.projections@[j]).attrs@.len() == 0),
                    !any_empty ==> (w.projections@.len() > 0 && forall|j: int|
                        0 <= j < i ==> (#[trigger] w.projections@[j]).attrs@.len() > 0),
                decreases w.projections@.len() - i,
            {
                if w.projections[i].attrs.len() == 0 {
                    any_empty = true;
                }
                i = i + 1;
            }
            any_empty
        },
    };
    if wildcard {
        return Some(PASSPORT_NAMESPACE);
    }
    let w = match &query.what {
        Some(w) => w,
        None => {
            return Some(PASSPORT_NAMESPACE);
        },
    };
    let ghost mut seen: Seq<String> = Seq::empty();
    let mut i: usize = 0;
    while i < w.projections.len()
        invariant
            0 <= i <= w.projections@.len(),
            query.what == Some(*w),
            !what_is_wildcard(query.what),
            seen == projected_attrs(w.projections@.subrange(0, i as int)),
            first_touch(seen) is None,
        decreases w.projections@.len() - i,
    {
        let attrs = &w.projections[i].attrs;
        let mut j: usize = 0;
        while j < attrs.len()
            invariant
                0 <= j <= attrs@.len(),
                0 <= i < w.projections@.len(),
                attrs@ == w.projections@[i as int].attrs@,
                query.what == Some(*w),
                !what_is_wildcard(query.what),
                seen == projected_attrs(w.projections@.subrange(0, i as int)),
                first_touch(seen + attrs@.subrange(0, j as int)) is None,
            decreases attrs@.len() - j,
        {
            let k = namespace_of_attr(attrs[j].as_str());
            proof {
                let t = seen + attrs@.subrange(0, j + 1);
                assert(t.drop_last() =~= seen + attrs@.subrange(0, j as int));
                assert(t.last() == attrs@[j as int]);
            }
            match k {
                Some(k) => {
                    let ghost full = projected_attrs(w.projections@) + query.where_attrs@;
                    proof {
                        let pre = seen + attrs@.subrange(0, j + 1);
                        let ps1 = w.projections@.subrange(0, i + 1);
                        assert(ps1.drop_last() =~= w.projections@.subrange(0, i as int));
                        let upto = projected_attrs(ps1);
                        assert(upto == seen + attrs@);
                        assert(is_prefix(pre, upto)) by {
                            assert(upto.subrange(0, pre.len() as int) =~= pre);
                        }
                        lemma_projected_prefix(w.projections@, i + 1);
                        lemma_prefix_trans(pre, upto, projected_attrs(w.projections@));
                        assert(is_prefix(projected_attrs(w.projections@), full)) by {
                            assert(full.subrange(0, projected_attrs(w.projections@).len() as int)
                                =~= projected_attrs(w.projections@));
                        }
                        lemma_prefix_trans(pre, projected_attrs(w.projections@), full);
                        lemma_first_touch_prefix(pre, full);
                    }
                    return Some(namespace_text(k));
                },
                None => {},
            }
            j = j + 1;
        }
        proof {
            let ps = w.projections@.subrange(0, i + 1);
            assert(ps.drop_last() =~= w.projections@.subrange(0, i as int));
            assert(attrs@.subrange(0, attrs@.len() as int) =~= attrs@);
            seen = seen + attrs@;
        }
        i = i + 1;
    }
    assert(w.projections@.subrange(0, w.projections@.len() as int) =~= w.projections@);
    let wa = &query.where_attrs;
    let mut j: usize = 0;
    while j < wa.len()
        invariant
            0 <= j <= wa@.len(),
            seen == projected_attrs(w.projections@),
            query.what == Some(*w),
            !what_is_wildcard(query.what),
            wa@ == query.where_attrs@,
            first_touch(seen + wa@.subrange(0, j as int)) is None,
        decreases wa@.len() - j,
    {
        let k = namespace_of_attr(wa[j].as_str());
        proof {
            let t = seen + wa@.subrange(0, j + 1);
            assert(t.drop_last() =~= seen + wa@.subrange(0, j as int));
            assert(t.last() == wa@[j as int]);
        }
        match k {
            Some(k) => {
                proof {
                    let pre = seen + wa@.subrange(0, j + 1);
                    assert((seen + wa@).subrange(0, pre.len() as int) =~= pre);
                    lemma_first_touch_prefix(pre, seen + wa@);
                }
                return Some(namespace_text(k));
            },
            None => {},
        }
        j = j + 1;
    }
    assert(wa@.subrange(0, wa@.len() as int) =~= wa@);
    None
}

/// `a` is a prefix of `b`.
pub open spec fn is_prefix(a: Seq<String>, b: Seq<String>) -> bool {
    a.len() <= b.len() && b.subrange(0, a.len() as int) == a
}

/// Prefixes of prefixes are prefixes.
proof fn lemma_prefix_trans(a: Seq<String>, b: Seq<String>, c: Seq<String>)
    requires
        is_prefix(a, b),
        is_prefix(b, c),
    ensures
        is_prefix(a, c),
{
    assert(c.subrange(0, a.len() as int) =~= b.subrange(0, a.len() as int));
}

/// The projected attributes of the first `n` projections are a prefix of
/// all the projected attributes.
proof fn lemma_projected_prefix(ps: Seq<Projection>, n: int)
    requires
        0 <= n <= ps.len(),
    ensures
        is_prefix(projected_attrs(ps.subrange(0, n)), projected_attrs(ps)),
    decreases ps.len(),
{
    if n == ps.len() {
        assert(ps.subrange(0, n) =~= ps);
        assert(projected_attrs(ps).subrange(0, projected_attrs(ps).len() as int) =~= projected_attrs(ps));
    } else {
        lemma_projected_prefix(ps.drop_last(), n);
        assert(ps.drop_last().subrange(0, n) =~= ps.subrange(0, n));
        let a = projected_attrs(ps.drop_last());
        let b = ps.last().attrs@;
        let p = projected_attrs(ps.subrange(0, n));
        assert((a + b).subrange(0, p.len() as int) =~= a.subrange(0, p.len() as int));
    }
}

/// A touch found in a prefix is the touch of the whole list.
proof fn lemma_first_touch_prefix(prefix: Seq<String>, full: Seq<String>)
    requires
        is_prefix(prefix, full),
        first_touch(prefix) is Some,
    ensures
        first_touch(full) == first_touch(prefix),
    decreases full.len(),
{
    if full.len() > prefix.len() {
        assert(full.drop_last().subrange(0, prefix.len() as int) =~= prefix);
        lemma_first_touch_prefix(prefix, full.drop_last());
    } else {
        assert(full =~= prefix);
    }
}

/// The decision on a query.
#[derive(Debug, Clone, PartialEq, Eq)]
pub enum AuthzDecision {
    Allowed,
    /// The query touches a restricted namespace and the caller's
    /// privilege does not clear the bar.
    Denied { namespace: &'static str, required_privilege: u8 },
}

/// Decides a query for a caller of the given privilege (`None`:
/// unauthenticated). A query touching no restricted namespace is always
/// allowed; one touching a namespace needs privilege 5 or more.
pub fn authorize(query: &QueryReads, caller_privilege_level: Option<u8>) -> (d: AuthzDecision)
    ensures
        (d == AuthzDecision::Allowed) == allowed_for(*query, caller_privilege_level),
        match touched_namespace(*query) {
            None => d == AuthzDecision::Allowed,
            Some(k) => if caller_privilege_level matches Some(l) && l >= RESTRICTED_NAMESPACE_MIN_PRIVILEGE {
                d == AuthzDecision::Allowed
            } else {
                d matches AuthzDecision::Denied { namespace, required_privilege } && namespace@
                    == restricted_namespace(k) && required_privilege == RESTRICTED_NAMESPACE_MIN_PRIVILEGE
            },
        },
{
    match query_touches_restricted_namespace(query) {
        None => AuthzDecision::Allowed,
        Some(namespace) => {
            let ok = match caller_privilege_level {
                Some(l) => l >= RESTRICTED_NAMESPACE_MIN_PRIVILEGE,
                None => false,
            };
            if ok {
                AuthzDecision::Allowed
            } else {
                AuthzDecision::Denied { namespace, required_privilege: RESTRICTED_NAMESPACE_MIN_PRIVILEGE }
            }
        },
    }
}

/// A caller of this privilege may run the query.
pub open spec fn allowed_for(q: QueryReads, caller_privilege_level: Option<u8>) -> bool {
    touched_namespace(q) is None || (caller_privilege_level matches Some(l) && l
        >= RESTRICTED_NAMESPACE_MIN_PRIVILEGE)
}

/// The authorizer only narrows access: whatever an unauthenticated
/// caller may run, every caller may run, and raising a caller's privilege
/// never turns an allow into a denial.
pub proof fn law_authorization_monotone(q: QueryReads, lo: u8, hi: u8)
    requires
        lo <= hi,
    ensures
        allowed_for(q, None) ==> allowed_for(q, Some(lo)),
        allowed_for(q, Some(lo)) ==> allowed_for(q, Some(hi)),
{
}

} // verus!
