use bahyway::kupru::akkadian_root::{AkkadianName, LinguisticProof};
use bahyway::kupru::akkadian_seal::{AkkadianSeal, SealKeyPair, SealVerifier};
use bahyway::kupru::architect_key::{architect_layers, reconstruct_architect_key, split_architect_key};
use bahyway::kupru::passport::SargonPassport;
use bahyway::kupru::sargon_kdf::SATTATU_MAX;

#[test]
fn reconstruction_with_threshold_shares_recovers_the_same_key() {
    let original = SealKeyPair::generate().unwrap();
    let shares = split_architect_key(&original, 3, 5).unwrap();
    assert_eq!(shares.len(), 5);
    let reconstructed = reconstruct_architect_key(&shares[0..3]).unwrap();
    assert_eq!(reconstructed.verifying_key_bytes(), original.verifying_key_bytes());
    let msg = b"BahyWay.Ecosystem architect ceremony test";
    let sig = reconstructed.seal(msg).unwrap();
    assert!(original.to_verifier().verify(msg, &sig));
}

#[test]
fn any_threshold_combination_of_shares_reconstructs() {
    let original = SealKeyPair::generate().unwrap();
    let shares = split_architect_key(&original, 3, 5).unwrap();
    let combo_a = vec![shares[0].clone(), shares[2].clone(), shares[4].clone()];
    let combo_b = vec![shares[1].clone(), shares[3].clone(), shares[4].clone()];
    let key_a = reconstruct_architect_key(&combo_a).unwrap();
    let key_b = reconstruct_architect_key(&combo_b).unwrap();
    assert_eq!(key_a.verifying_key_bytes(), original.verifying_key_bytes());
    assert_eq!(key_b.verifying_key_bytes(), original.verifying_key_bytes());
}

#[test]
fn below_threshold_shares_refuses_to_reconstruct() {
    let original = SealKeyPair::generate().unwrap();
    let shares = split_architect_key(&original, 3, 5).unwrap();
    let insufficient = &shares[0..2];
    assert!(reconstruct_architect_key(insufficient).is_err(), "2 shares must not satisfy a 3-of-5 split");
}

#[test]
fn single_share_reveals_nothing_reconstructable() {
    let original = SealKeyPair::generate().unwrap();
    let shares = split_architect_key(&original, 3, 5).unwrap();
    assert!(reconstruct_architect_key(&shares[0..1]).is_err());
}

#[test]
fn mixing_shares_from_different_splits_is_rejected() {
    let original = SealKeyPair::generate().unwrap();
    let split_1 = split_architect_key(&original, 3, 5).unwrap();
    let split_2 = split_architect_key(&original, 3, 5).unwrap();
    let mixed = vec![split_1[0].clone(), split_1[1].clone(), split_2[2].clone()];
    assert!(reconstruct_architect_key(&mixed).is_err(), "shares from different splits must never combine");
}

#[test]
fn threshold_of_one_is_rejected_outright() {
    let original = SealKeyPair::generate().unwrap();
    assert!(split_architect_key(&original, 1, 5).is_err(), "threshold=1 defeats the entire purpose of splitting");
}

#[test]
fn full_ceremony_mints_a_verifiable_architect_passport() {
    let root_keypair = SealKeyPair::generate().unwrap();
    let shares = split_architect_key(&root_keypair, 3, 5).unwrap();
    let gathered = vec![shares[1].clone(), shares[3].clone(), shares[4].clone()];
    let reconstructed_root = reconstruct_architect_key(&gathered).unwrap();
    let (naru, istar) = architect_layers(
        "bahyway",
        [0xAAu8; 16],
        AkkadianName::dubsar(),
        LinguisticProof::create("sar-kibrat-arbaim").unwrap(),
    );
    let passport = SargonPassport::issue(naru, istar, b"architect layers", [0x01u8; 16], &reconstructed_root, &[0x99u8; 32])
        .unwrap();
    assert!(passport.verify_seal().is_ok());
    assert_eq!(passport.istar.privilege_level, 7);
    assert!(passport.has_scope("kaki:read"));
    assert!(passport.has_scope("enki:write"));
    assert!(passport.has_scope("zero:anything"));
    assert!(!passport.quppu.expires_at.checked_sub(passport.quppu.created_at).is_none());
    assert_eq!(passport.quppu.expires_at - passport.quppu.created_at, SATTATU_MAX);
}

#[test]
fn share_layout_and_refusal_messages() {
    let kp = SealKeyPair::from_bytes(&[3u8; 32]).unwrap();
    let shares = split_architect_key(&kp, 2, 3).unwrap();
    for (i, s) in shares.iter().enumerate() {
        assert_eq!(s.index as usize, i);
        assert_eq!(s.share_bytes.len(), 33);
        assert_eq!(s.share_bytes[0] as usize, i + 1);
        assert_eq!(s.split_id, shares[0].split_id);
    }
    match split_architect_key(&kp, 4, 3) {
        Err(e) => assert_eq!(e.to_string(), "LEMNĪ (invalid input): DŪRU: total_shares must be >= threshold"),
        Ok(_) => panic!("expected a refusal"),
    }
    match reconstruct_architect_key(&shares[0..1]) {
        Err(e) => assert_eq!(e.to_string(), "LEMNĪ (invalid input): DŪRU: 1 shares provided, but this split requires 2"),
        Ok(_) => panic!("expected a refusal"),
    }
    let mut bad = vec![shares[0].clone(), shares[1].clone()];
    bad[1].share_bytes.truncate(1);
    match reconstruct_architect_key(&bad) {
        Err(e) => assert_eq!(e.to_string(), "KUPRU crypto: NAKRU: malformed share: A Share must be at least 2 bytes long"),
        Ok(_) => panic!("expected a refusal"),
    }
    assert!(reconstruct_architect_key(&[]).is_err());
}
