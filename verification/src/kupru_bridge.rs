//! The operations a scripting host reaches KUPRU through: stateless, on
//! plain bytes and strings, every failure reported as its message. Key
//! derivation with a fresh or a stored salt, sealing and opening a vault
//! blob, and the layers of a locally issued passport. Binding them to the
//! host's own value types is the caller's part.

use vstd::prelude::*;
use vstd::utf8::encode_utf8;
use crate::kupru::akk_cipher::{opened_plaintext, sealed_by, AkkadianCipher};
use crate::kupru::akkadian_root::{
    key_material_input, morphology_score, no_affixes, normalized_phrase, pattern_of_vowels, radicals_of,
    vowels_of, commitment_input, AkkadianAffixes, AkkadianName, AkkadianRoot, LinguisticProof,
};
use crate::kupru::passport::{IshtarLayer, NaruLayer};
use crate::kupru::primitives::{sha3_256, sha3_256_of};
use crate::kupru::sargon_kdf::{mixed_salt, sargon_derivation, SargonKdf, KDF_OUTPUT_LEN};
use crate::kupru_vault::VAULT_AAD;
use crate::text::{decimal, push_decimal};
use crate::text::lowercase_of;

verus! {

/// A root phrase yields a root: after trimming and lowercasing it is not
/// empty and has at least three radicals.
pub open spec fn phrase_has_root(phrase: Seq<char>) -> bool {
    let n = normalized_phrase(phrase);
    n.len() > 0 && radicals_of(n).len() >= 3
}

/// Why a root phrase yields no root, as reported.
pub open spec fn root_refusal(phrase: Seq<char>) -> Seq<char> {
    if normalized_phrase(phrase).len() == 0 {
        "LEMNĪ (invalid input): "@ + "LEMNĪ: empty phrase"@
    } else {
        "LEMNĪ (invalid input): "@ + "LEMNĪ: < 3 consonants"@
    }
}

/// `root` is the root read from `phrase`: its first three radicals, the
/// pattern of its vowels, no affixes.
pub open spec fn is_root_of(root: AkkadianRoot, phrase: Seq<char>) -> bool {
    let n = normalized_phrase(phrase);
    &&& root.radicals@ == radicals_of(n).take(3)
    &&& root.pattern == pattern_of_vowels(vowels_of(n))
    &&& no_affixes(root.affixes)
}

/// Argon2 accepts a passphrase of this many bytes (with the 32 bytes of
/// root material behind it).
pub open spec fn passphrase_fits(passphrase: Seq<u8>) -> bool {
    passphrase.len() + 32 <= 0xFFFF_FFFF
}

/// A 32-byte key derived from a root phrase and a passphrase under a
/// fresh salt, and that salt, to be stored beside whatever the key
/// encrypts so the key can be derived again.
pub fn derive_key(root_phrase: &str, passphrase: &str) -> (r: Result<([u8; 32], [u8; 32]), String>)
    ensures
        !phrase_has_root(root_phrase@) ==> (r matches Err(m) && m@ == root_refusal(root_phrase@)),
        phrase_has_root(root_phrase@) ==> (r is Ok <==> passphrase_fits(encode_utf8(passphrase@))),
        r matches Ok((key, salt)) ==> exists|root: AkkadianRoot, random: Seq<u8>|
            {
                &&& #[trigger] is_root_of(root, root_phrase@)
                &&& random.len() == 32
                &&& salt@ == #[trigger] mixed_salt(
                    random,
                    sha3_256_of(key_material_input(root)),
                    encode_utf8(passphrase@).len() as usize,
                )
                &&& key@ == sargon_derivation(root, salt@, encode_utf8(passphrase@), KDF_OUTPUT_LEN)
            },
{
    let root = match AkkadianRoot::from_phrase(root_phrase) {
        Ok(r) => r,
        Err(e) => {
            return Err(e.to_string());
        },
    };
    let ghost read = root;
    let pass = passphrase.as_bytes();
    let kdf = match SargonKdf::new(root, pass) {
        Ok(k) => k,
        Err(e) => {
            return Err(e.to_string());
        },
    };
    match kdf.derive_key(pass) {
        Ok(key) => {
            proof {
                let random = choose|random: Seq<u8>|
                    random.len() == 32 && #[trigger] mixed_salt(
                        random,
                        sha3_256_of(key_material_input(read)),
                        pass@.len() as usize,
                    ) == kdf.salt_of();
                assert(is_root_of(read, root_phrase@));
                assert(mixed_salt(random, sha3_256_of(key_material_input(read)), encode_utf8(passphrase@).len() as usize) == kdf.salt_of());
            }
            Ok((key, *kdf.salt()))
        },
        Err(e) => Err(e.to_string()),
    }
}

/// The key `derive_key` gave with this salt, derived again. The root
/// phrase is read first; a salt that is not 32 bytes is refused.
pub fn derive_key_with_salt(root_phrase: &str, passphrase: &str, salt: &[u8]) -> (r: Result<[u8; 32], String>)
    ensures
        !phrase_has_root(root_phrase@) ==> (r matches Err(m) && m@ == root_refusal(root_phrase@)),
        (phrase_has_root(root_phrase@) && salt@.len() != 32) ==> (r matches Err(m) && m@
            == "salt must be exactly 32 bytes, got "@ + decimal(salt@.len())),
        (phrase_has_root(root_phrase@) && salt@.len() == 32) ==> (r is Ok <==> passphrase_fits(
            encode_utf8(passphrase@),
        )),
        r matches Ok(key) ==> exists|root: AkkadianRoot|
            #[trigger] is_root_of(root, root_phrase@) && key@ == sargon_derivation(
                root,
                salt@,
                encode_utf8(passphrase@),
                KDF_OUTPUT_LEN,
            ),
{
    let root = match AkkadianRoot::from_phrase(root_phrase) {
        Ok(r) => r,
        Err(e) => {
            return Err(e.to_string());
        },
    };
    if salt.len() != 32 {
        let mut m = "salt must be exactly 32 bytes, got ".to_owned();
        push_decimal(&mut m, salt.len() as u64);
        return Err(m);
    }
    let ghost read = root;
    let kdf = SargonKdf::with_salt(root, crate::kupru::akkadian_root::array32(salt));
    match kdf.derive_key(passphrase.as_bytes()) {
        Ok(key) => {
            assert(is_root_of(read, root_phrase@));
            Ok(key)
        },
        Err(e) => Err(e.to_string()),
    }
}

/// Seals a vault blob under a 32-byte key with the vault's associated
/// data: the version byte, a fresh nonce, the ciphertext and its tag.
pub fn encrypt_vault_blob(key: &[u8], plaintext: &[u8]) -> (r: Result<Vec<u8>, String>)
    ensures
        key@.len() != 32 ==> (r matches Err(m) && m@ == "LEMNĪ (invalid input): "@
            + "LEMNĪ: cipher key must be 32 bytes"@),
        key@.len() == 32 ==> (r is Ok <==> plaintext@.len() / 64 < 0xFFFF_FFFF),
        r matches Ok(s) ==> sealed_by(key@, s@, plaintext@, encode_utf8(VAULT_AAD@)),
{
    let cipher = match AkkadianCipher::from_key_bytes(key) {
        Ok(c) => c,
        Err(e) => {
            return Err(e.to_string());
        },
    };
    match cipher.seal(plaintext, VAULT_AAD.as_bytes()) {
        Ok(s) => Ok(s),
        Err(e) => Err(e.to_string()),
    }
}

/// Opens a blob `encrypt_vault_blob` sealed. A wrong key, a corrupted
/// blob and tampering all fail the same authentication.
pub fn decrypt_vault_blob(key: &[u8], sealed: &[u8]) -> (r: Result<Vec<u8>, String>)
    ensures
        key@.len() != 32 ==> (r matches Err(m) && m@ == "LEMNĪ (invalid input): "@
            + "LEMNĪ: cipher key must be 32 bytes"@),
        key@.len() == 32 ==> (r is Ok <==> opened_plaintext(key@, sealed@, encode_utf8(VAULT_AAD@)) is Some),
        r matches Ok(p) ==> opened_plaintext(key@, sealed@, encode_utf8(VAULT_AAD@)) == Some(p@),
{
    let cipher = match AkkadianCipher::from_key_bytes(key) {
        Ok(c) => c,
        Err(e) => {
            return Err(e.to_string());
        },
    };
    match cipher.open(sealed, VAULT_AAD.as_bytes()) {
        Ok(p) => Ok(p),
        Err(e) => Err(e.to_string()),
    }
}

/// A vault blob opens, under the key it was sealed with, to what was
/// sealed.
pub proof fn law_vault_blob_round_trip(key: Seq<u8>, sealed: Seq<u8>, plaintext: Seq<u8>)
    requires
        sealed_by(key, sealed, plaintext, encode_utf8(VAULT_AAD@)),
    ensures
        opened_plaintext(key, sealed, encode_utf8(VAULT_AAD@)) == Some(plaintext),
{
    crate::kupru::akk_cipher::law_open_undoes_seal(key, sealed, plaintext, encode_utf8(VAULT_AAD@));
}

/// The subject KAKI of a label: the first 16 bytes of the SHA3-256 digest
/// of its UTF-8 bytes.
pub fn subject_kaki(label: &str) -> (k: [u8; 16])
    ensures
        k@ == sha3_256_of(encode_utf8(label@)).take(16),
{
    let d = sha3_256(label.as_bytes());
    let mut k = [0u8; 16];
    let mut i: usize = 0;
    while i < 16
        invariant
            0 <= i <= 16,
            k@.len() == 16,
            d@ == sha3_256_of(encode_utf8(label@)),
            forall|j: int| 0 <= j < i ==> k@[j] == d@[j],
        decreases 16 - i,
    {
        k[i] = d[i];
        i = i + 1;
    }
    assert(k@ =~= d@.take(16));
    k
}

/// A copy of a root that has no affixes.
fn bare_root_copy(root: &AkkadianRoot) -> (c: AkkadianRoot)
    requires
        no_affixes(root.affixes),
    ensures
        c == *root,
{
    AkkadianRoot {
        radicals: root.radicals,
        pattern: root.pattern,
        affixes: AkkadianAffixes { prefix: None, suffix: None, infix: None },
    }
}

/// The layers of a locally issued passport, and the key its integrity
/// layer is made with: the identity phrase is committed to (a
/// linguistic proof) and, with its root, gives the integrity key by
/// Argon2id under a fresh salt; the subject is the label's KAKI under the
/// scribe's name; an architect passport has NĀRU score 7 and architect
/// permissions, any other score 5 and gardener permissions.
pub fn passport_layers(identity_phrase: &str, realm: &str, subject_label: &str, architect: bool) -> (r: Result<
    (NaruLayer, IshtarLayer, [u8; 32]),
    String,
>)
    ensures
        !phrase_has_root(identity_phrase@) ==> (r matches Err(m) && m@ == root_refusal(identity_phrase@)),
        phrase_has_root(identity_phrase@) ==> (r is Ok <==> passphrase_fits(encode_utf8(identity_phrase@))),
        r matches Ok((naru, istar, integrity_key)) ==> {
            &&& naru.subject_kaki@ == sha3_256_of(encode_utf8(subject_label@)).take(16)
            &&& naru.akkadian_name.sumu@ == "DUB.SAR"@
            &&& naru.realm@ == realm@
            &&& naru.mudu_score == if architect { 7u8 } else { 5u8 }
            &&& is_root_of(naru.linguistic_proof.root, identity_phrase@)
            &&& naru.linguistic_proof.commitment@ == sha3_256_of(
                commitment_input(identity_phrase@, naru.linguistic_proof.nonce@),
            )
            &&& naru.linguistic_proof.mudu == morphology_score(lowercase_of(identity_phrase@))
            &&& istar.privilege_level == if architect { 7u8 } else { 1u8 }
            &&& istar.access_matrix@ == Map::<String, Vec<String>>::empty()
            &&& istar.nadanu_chain@.len() == 0
            &&& architect ==> {
                &&& istar.isretu_scopes@.len() == 5
                &&& istar.isretu_scopes@[0]@ == realm@ + ":*"@
                &&& istar.isretu_scopes@[1]@ == "kaki:*"@
                &&& istar.isretu_scopes@[2]@ == "enki:*"@
                &&& istar.isretu_scopes@[3]@ == "story:*"@
                &&& istar.isretu_scopes@[4]@ == "zero:*"@
            }
            &&& !architect ==> {
                &&& istar.isretu_scopes@.len() == 2
                &&& istar.isretu_scopes@[0]@ == realm@ + ":read"@
                &&& istar.isretu_scopes@[1]@ == "story:read"@
            }
            &&& exists|salt: Seq<u8>|
                integrity_key@ == #[trigger] sargon_derivation(
                    naru.linguistic_proof.root,
                    salt,
                    encode_utf8(identity_phrase@),
                    KDF_OUTPUT_LEN,
                )
        },
{
    let proof = match LinguisticProof::create(identity_phrase) {
        Ok(p) => p,
        Err(e) => {
            return Err(e.to_string());
        },
    };
    let phrase = identity_phrase.as_bytes();
    let kdf = match SargonKdf::new(bare_root_copy(&proof.root), phrase) {
        Ok(k) => k,
        Err(e) => {
            return Err(e.to_string());
        },
    };
    let integrity_key = match kdf.derive_key(phrase) {
        Ok(k) => k,
        Err(e) => {
            return Err(e.to_string());
        },
    };
    let naru = NaruLayer {
        subject_kaki: subject_kaki(subject_label),
        akkadian_name: AkkadianName::dubsar(),
        linguistic_proof: proof,
        realm: realm.to_owned(),
        mudu_score: if architect { 7 } else { 5 },
    };
    let istar = if architect {
        IshtarLayer::architect(realm)
    } else {
        IshtarLayer::gardener(realm)
    };
    assert(integrity_key@ == sargon_derivation(
        naru.linguistic_proof.root,
        kdf.salt_of(),
        encode_utf8(identity_phrase@),
        KDF_OUTPUT_LEN,
    ));
    Ok((naru, istar, integrity_key))
}

} // verus!
