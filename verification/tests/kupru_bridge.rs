use bahyway::kupru_bridge::{
    decrypt_vault_blob, derive_key, derive_key_with_salt, encrypt_vault_blob, passport_layers, subject_kaki,
};
use sha3::Digest;

#[test]
fn a_phrase_without_a_root_is_refused() {
    assert_eq!(derive_key("   ", "pass").unwrap_err(), "LEMNĪ (invalid input): LEMNĪ: empty phrase");
    assert_eq!(derive_key("aei", "pass").unwrap_err(), "LEMNĪ (invalid input): LEMNĪ: < 3 consonants");
    assert_eq!(
        derive_key_with_salt("", "pass", &[0u8; 32]).unwrap_err(),
        "LEMNĪ (invalid input): LEMNĪ: empty phrase"
    );
}

#[test]
fn a_salt_of_the_wrong_length_is_refused() {
    assert_eq!(
        derive_key_with_salt("sargon-root", "pass", &[1, 2, 3, 4, 5]).unwrap_err(),
        "salt must be exactly 32 bytes, got 5"
    );
}

#[test]
fn a_vault_blob_opens_under_its_key_only() {
    let key = [7u8; 32];
    let plaintext = b"[{\"passport_json\":\"{}\"}]";
    let sealed = encrypt_vault_blob(&key, plaintext).unwrap();
    assert_eq!(sealed.len(), 1 + 12 + plaintext.len() + 16);
    assert_eq!(sealed[0], 0x01);
    assert_eq!(decrypt_vault_blob(&key, &sealed).unwrap(), plaintext.to_vec());
    assert_eq!(
        decrypt_vault_blob(&[8u8; 32], &sealed).unwrap_err(),
        "KUPRU crypto: LEMNĪ: decrypt failed: aead::Error"
    );
}

#[test]
fn a_vault_key_must_be_32_bytes() {
    assert_eq!(
        encrypt_vault_blob(&[1u8; 16], b"x").unwrap_err(),
        "LEMNĪ (invalid input): LEMNĪ: cipher key must be 32 bytes"
    );
    assert_eq!(
        decrypt_vault_blob(&[1u8; 31], &[0u8; 40]).unwrap_err(),
        "LEMNĪ (invalid input): LEMNĪ: cipher key must be 32 bytes"
    );
}

#[test]
fn the_subject_kaki_is_the_head_of_the_label_digest() {
    let digest = sha3::Sha3_256::digest(b"gardener-01");
    assert_eq!(subject_kaki("gardener-01").as_slice(), &digest[..16]);
    assert_ne!(subject_kaki("gardener-01"), subject_kaki("gardener-02"));
}

#[test]
fn layers_need_a_rooted_identity_phrase() {
    assert_eq!(
        passport_layers("ou", "ur", "someone", true).unwrap_err(),
        "LEMNĪ (invalid input): LEMNĪ: < 3 consonants"
    );
}
