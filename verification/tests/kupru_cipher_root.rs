use bahyway::kupru::akk_cipher::{default_cipher, AkkadianCipher, CipherEnvelope, CipherText, SovereignNonce};
use bahyway::kupru::akkadian_root::{AkkadianName, AkkadianRoot, LinguisticProof, VowelPattern};
use bahyway::kupru::error::KupruError;

#[test]
fn seal_then_open_round_trips() {
    let c = AkkadianCipher::from_key_bytes(&[7u8; 32]).unwrap();
    let sealed = c.seal(b"tablet of destinies", b"aad").unwrap();
    assert_eq!(sealed.len(), 1 + 12 + 19 + 16);
    assert_eq!(sealed[0], 0x01);
    assert_eq!(c.open(&sealed, b"aad").unwrap(), b"tablet of destinies".to_vec());
}

#[test]
fn open_refuses_wrong_aad_short_and_unknown_version() {
    let c = AkkadianCipher::generate().unwrap();
    let mut sealed = c.seal(b"x", b"aad").unwrap();
    match c.open(&sealed, b"other") {
        Err(KupruError::Crypto(m)) => assert_eq!(m, "LEMNĪ: decrypt failed: aead::Error"),
        other => panic!("expected Crypto, got {other:?}"),
    }
    match c.open(&sealed[..28], b"aad") {
        Err(KupruError::Crypto(m)) => assert_eq!(m, "LEMNĪ: sealed payload too short"),
        other => panic!("expected Crypto, got {other:?}"),
    }
    sealed[0] = 0x2a;
    match c.open(&sealed, b"aad") {
        Err(KupruError::Crypto(m)) => assert_eq!(m, "LEMNĪ: unknown cipher version 0x2a"),
        other => panic!("expected Crypto, got {other:?}"),
    }
}

#[test]
fn cipher_key_must_be_32_bytes() {
    match AkkadianCipher::from_key_bytes(&[1u8; 31]) {
        Err(KupruError::InvalidInput(m)) => assert_eq!(m, "LEMNĪ: cipher key must be 32 bytes"),
        other => panic!("expected InvalidInput, got {other:?}"),
    }
    assert!(default_cipher().is_ok());
}

#[test]
fn cipher_text_and_envelope_split_the_layout() {
    let c = default_cipher().unwrap();
    let sealed = c.seal(b"abc", b"").unwrap();
    let ct = CipherText::from_sealed(&sealed).unwrap();
    assert_eq!(ct.version, 1);
    assert_eq!(ct.to_bytes(), sealed);
    let env = CipherEnvelope::from_sealed(&[1, 0xab, 2, 3, 4, 5, 6, 7, 8, 9, 10, 11, 12, 0xff], &[0x0f]).unwrap();
    assert_eq!(env.version, 1);
    assert_eq!(env.nonce_hex, "ab02030405060708090a0b0c");
    assert_eq!(env.ct_hex, "ff");
    assert_eq!(env.aad_hex, "0f");
    assert!(CipherEnvelope::from_sealed(&[1, 2], &[]).is_err());
    assert!(CipherText::from_sealed(&[1u8; 28]).is_err());
    let _ = SovereignNonce::generate();
}

#[test]
fn roots_are_read_from_phrases() {
    let r = AkkadianRoot::from_phrase("  Bahyway ").unwrap();
    assert_eq!(r.radicals, ['b', 'h', 'y']);
    assert_eq!(r.pattern, VowelPattern::Aa);
    let r = AkkadianRoot::from_phrase("šarru-kibrat").unwrap();
    assert_eq!(r.radicals, ['š', 'r', 'r']);
    assert_eq!(r.pattern, VowelPattern::Au);
    match AkkadianRoot::from_phrase("   ") {
        Err(KupruError::InvalidInput(m)) => assert_eq!(m, "LEMNĪ: empty phrase"),
        other => panic!("expected InvalidInput, got {other:?}"),
    }
    match AkkadianRoot::from_phrase("a-e io") {
        Err(KupruError::InvalidInput(m)) => assert_eq!(m, "LEMNĪ: < 3 consonants"),
        other => panic!("expected InvalidInput, got {other:?}"),
    }
    assert_eq!(VowelPattern::Ui.entropy_weight(), 0x71);
    assert_eq!(AkkadianRoot::sargon().radicals, ['Š', 'R', 'K']);
}

#[test]
fn key_material_depends_on_the_root() {
    let a = AkkadianRoot::new('b', 'h', 'y', VowelPattern::Aa).to_key_material();
    let b = AkkadianRoot::new('b', 'h', 'y', VowelPattern::Ai).to_key_material();
    assert_ne!(a, b);
    assert_eq!(a, AkkadianRoot::from_phrase("bahyway").unwrap().to_key_material());
}

#[test]
fn linguistic_proof_verifies_only_its_phrase() {
    let p = LinguisticProof::create("sarru-kibrat-arbaim").unwrap();
    assert!(p.verify("sarru-kibrat-arbaim"));
    assert!(!p.verify("sarru-kibrat-arbaix"));
    // hyphen, long, two words? no; "am"? no "im": yes ("arbaim"); > 16 bytes
    assert_eq!(p.mudu, 1 + 1 + 1 + 1);
    let d = AkkadianName::dubsar();
    assert_eq!(d.sumu, "DUB.SAR");
    assert_eq!(d.ilu.as_deref(), Some("Nabû"));
}
