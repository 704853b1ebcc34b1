use bahyway::kupru::akkadian_root::{AkkadianName, LinguisticProof};
use bahyway::kupru::akkadian_seal::{AkkadianSeal, SealKeyPair, SealVerifier};
use bahyway::kupru::akk_file::AkkFile;
use bahyway::kupru::passport::{IshtarLayer, KupruLayer, NaruLayer, QuppuLayer, SargonPassport};
use bahyway::kupru::passport_seal::{passport_canonical_bytes, passport_seal};
use bahyway::kupru::sargon_kdf::{SargonKdf, SATTATU_MAX};

fn issue_test_passport() -> (SargonPassport, SealKeyPair) {
    let keypair = SealKeyPair::generate().unwrap();
    let integrity_key = [0x42u8; 32];
    let naru = NaruLayer {
        subject_kaki: [7u8; 16],
        akkadian_name: AkkadianName::dubsar(),
        linguistic_proof: LinguisticProof::create("sarru-kibrat-arbaim").unwrap(),
        realm: "bahyway-test".into(),
        mudu_score: 5,
    };
    let istar = IshtarLayer::gardener("bahyway-test");
    let passport = SargonPassport::issue(naru, istar, b"naru+istar", [1u8; 16], &keypair, &integrity_key)
        .expect("issuance must succeed");
    (passport, keypair)
}

#[test]
fn genuine_passport_verifies() {
    let (passport, _keypair) = issue_test_passport();
    assert!(passport.verify_seal().is_ok());
}

#[test]
fn tampering_with_privilege_level_is_detected() {
    let (mut passport, _keypair) = issue_test_passport();
    assert_eq!(passport.istar.privilege_level, 1);
    passport.istar.privilege_level = 7;
    assert!(passport.verify_seal().is_err(), "privilege escalation must invalidate the seal");
}

#[test]
fn tampering_with_subject_kaki_is_detected() {
    let (mut passport, _keypair) = issue_test_passport();
    passport.naru.subject_kaki = [0xFFu8; 16];
    assert!(passport.verify_seal().is_err(), "identity substitution must invalidate the seal");
}

#[test]
fn tampering_with_expiry_is_detected() {
    let (mut passport, _keypair) = issue_test_passport();
    passport.quppu.expires_at = SargonKdf::sovereign_now() + 999_999_999;
    assert!(passport.verify_seal().is_err(), "TTL extension must invalidate the seal");
}

#[test]
fn forged_passport_from_different_keypair_fails_verification() {
    let (mut genuine, _real_keypair) = issue_test_passport();
    let attacker_keypair = SealKeyPair::generate().unwrap();
    let forged_seal = passport_seal(&genuine.quppu, &genuine.kupru, &genuine.naru, &genuine.istar, &attacker_keypair)
        .unwrap();
    genuine.outer_seal = forged_seal;
    assert!(genuine.verify_seal().is_err(), "a seal from the wrong private key must never verify");
}

#[test]
fn expired_passport_fails_timing_check() {
    let (mut passport, _keypair) = issue_test_passport();
    passport.quppu.expires_at = SargonKdf::sovereign_now() - 10;
    assert!(passport.verify_seal().is_err(), "an expired passport must fail verify_seal()");
}

#[test]
fn scope_matching_respects_wildcards() {
    let istar = IshtarLayer::architect("bahyway");
    let passport_scopes = istar.isretu_scopes.clone();
    assert!(passport_scopes.iter().any(|s| s == "kaki:*"));
    let (passport, _keypair) = {
        let keypair = SealKeyPair::generate().unwrap();
        let naru = NaruLayer {
            subject_kaki: [9u8; 16],
            akkadian_name: AkkadianName::dubsar(),
            linguistic_proof: LinguisticProof::create("architect-phrase").unwrap(),
            realm: "bahyway".into(),
            mudu_score: 7,
        };
        let p = SargonPassport::issue(naru, istar, b"naru+istar", [1u8; 16], &keypair, &[0x11u8; 32]).unwrap();
        (p, keypair)
    };
    assert!(passport.has_scope("kaki:read"));
    assert!(passport.has_scope("kaki:write"));
    assert!(!passport.has_scope("unrelated:read"));
}

#[test]
fn gardener_scope_is_read_only() {
    let (passport, _keypair) = issue_test_passport();
    assert!(passport.has_scope("bahyway-test:read"));
    assert!(!passport.has_scope("bahyway-test:write"));
    assert!(!passport.has_scope("kaki:*"));
}

#[test]
fn freshly_issued_passport_does_not_need_renewal() {
    let (passport, _keypair) = issue_test_passport();
    assert!(!passport.renewal_due());
    assert!(passport.seconds_until_renewal_due() > (SATTATU_MAX * 4) / 5 - 5);
}

#[test]
fn passport_past_80_percent_lifetime_needs_renewal() {
    let (mut passport, _keypair) = issue_test_passport();
    let now = SargonKdf::sovereign_now();
    let elapsed = (SATTATU_MAX * 85) / 100;
    passport.quppu.created_at = now - elapsed;
    passport.quppu.expires_at = passport.quppu.created_at + SATTATU_MAX;
    assert!(passport.renewal_due());
    assert_eq!(passport.seconds_until_renewal_due(), 0);
    assert!(SargonKdf::sovereign_now() < passport.quppu.expires_at);
}

#[test]
fn renewal_threshold_at_fixed_time() {
    let (mut passport, _keypair) = issue_test_passport();
    passport.quppu.created_at = 1_000;
    passport.quppu.expires_at = 1_000 + SATTATU_MAX;
    assert_eq!(passport.seconds_until_renewal_due_at(1_000), 155_520);
    assert!(!passport.renewal_due_at(1_000 + 155_519));
    assert!(passport.renewal_due_at(1_000 + 155_520));
    assert!(passport.verify_seal_at(1_000).is_err());
}

#[test]
fn passport_id_is_hyphenated_uuid() {
    let (mut passport, _keypair) = issue_test_passport();
    passport.quppu.passport_id = [0x12, 0x34, 0x56, 0x78, 0x9a, 0xbc, 0x4d, 0xef, 0x80, 0x01, 0, 1, 2, 3, 4, 0xff];
    assert_eq!(passport.passport_id(), "12345678-9abc-4def-8001-0001020304ff");
    assert_eq!(passport.subject_kaki(), [7u8; 16]);
}

#[test]
fn kupru_layer_detects_changed_inner_bytes() {
    let k = KupruLayer::compute(b"inner", b"key").unwrap();
    assert_eq!(k.content_hash.len(), 64);
    assert_eq!(k.algorithm_id, 0x01);
    assert!(k.verify(b"inner", b"key").is_ok());
    assert!(k.verify(b"inner!", b"key").is_err());
    assert!(k.verify(b"inner", b"other").is_err());
}

#[test]
fn canonical_bytes_start_with_the_domain() {
    let (passport, keypair) = issue_test_passport();
    let bytes = passport_canonical_bytes(&passport.quppu, &passport.kupru, &passport.naru, &passport.istar);
    assert_eq!(&bytes[0..4], &[32u8, 0, 0, 0]);
    assert_eq!(&bytes[4..36], b"BahyWay.SargonPassport.v4.KANAKU");
    let sig = keypair.seal(&bytes).unwrap();
    assert!(keypair.to_verifier().verify(&bytes, &sig));
    assert!(keypair.verify(&bytes, &sig));
    assert!(!keypair.verify(&bytes, &sig[..63]));
}

#[test]
fn akk_file_seal_and_integrity() {
    let kp = SealKeyPair::from_bytes(&[5u8; 32]).unwrap();
    let mut f = AkkFile::new(3, "tablet", 250, "creator", b"payload".to_vec());
    assert_eq!(f.metadata.quality, 240);
    assert!(f.header.validate().is_ok());
    assert!(f.verify_integrity());
    assert!(!f.verify_seal(&kp.to_verifier()));
    f.sign(&kp);
    assert!(f.verify_seal(&kp.to_verifier()));
    f.payload.push(1);
    assert!(!f.verify_integrity());
    assert!(!f.verify_seal(&kp.to_verifier()));
    f.header.version = 5;
    assert!(f.header.validate().is_err());
}

#[test]
fn renewal_is_computable_only_when_it_fits_in_64_bits() {
    let ok = QuppuLayer { passport_id: [0u8; 16], created_at: 1_000, expires_at: 2_000, issuer_kaki: [0u8; 16] };
    assert!(ok.renewal_computable());
    let wide = QuppuLayer { passport_id: [0u8; 16], created_at: 0, expires_at: u64::MAX, issuer_kaki: [0u8; 16] };
    assert!(!wide.renewal_computable());
    let late = QuppuLayer { passport_id: [0u8; 16], created_at: u64::MAX - 10, expires_at: u64::MAX, issuer_kaki: [0u8; 16] };
    assert!(late.renewal_computable());
}
