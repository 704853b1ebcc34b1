use bahyway::kupru::akkadian_root::AkkadianRoot;
use bahyway::kupru::error::KupruError;
use bahyway::kupru::sargon_kdf::{
    expiry_at, mix_salt, validate_credential_timing, validate_credential_timing_at, SargonKdf,
    SATTATU_MAX,
};

// Argon2id at the library's fixed costs (64 MiB, 54 passes) takes about a
// minute per derivation with the unoptimised dependency build the tests run
// against, beyond the per-test time limit; these tests therefore check the
// inputs Argon2id receives (salt and derivation input), on which the key
// depends alone (law_salt_determines_key).

#[test]
fn new_mints_a_different_salt_every_call_even_with_identical_inputs() {
    let root_a = AkkadianRoot::from_phrase("bahyway").unwrap();
    let root_b = AkkadianRoot::from_phrase("bahyway").unwrap();
    let kdf_a = SargonKdf::new(root_a, b"same-passphrase").unwrap();
    let kdf_b = SargonKdf::new(root_b, b"same-passphrase").unwrap();
    assert_ne!(kdf_a.salt(), kdf_b.salt(), "SargonKdf::new must mint a fresh random salt every call");
    assert_eq!(
        kdf_a.derivation_input(b"same-passphrase"),
        kdf_b.derivation_input(b"same-passphrase"),
        "with an identical root+passphrase only the salt tells the two keys apart"
    );
}

#[test]
fn with_salt_reproduces_the_identical_key_new_originally_derived() {
    let root = AkkadianRoot::from_phrase("bahyway").unwrap();
    let original = SargonKdf::new(root.clone(), b"correct-passphrase").unwrap();
    let stored_salt = *original.salt();
    let reopened = SargonKdf::with_salt(root, stored_salt);
    assert_eq!(reopened.salt(), original.salt());
    assert_eq!(
        original.derivation_input(b"correct-passphrase"),
        reopened.derivation_input(b"correct-passphrase"),
        "with_salt() must feed Argon2id exactly what new() fed it"
    );
}

#[test]
fn with_salt_and_wrong_passphrase_derives_a_different_key() {
    let root = AkkadianRoot::from_phrase("bahyway").unwrap();
    let original = SargonKdf::new(root.clone(), b"correct-passphrase").unwrap();
    let stored_salt = *original.salt();
    let reopened = SargonKdf::with_salt(root, stored_salt);
    assert_ne!(
        reopened.derivation_input(b"wrong-passphrase"),
        reopened.derivation_input(b"correct-passphrase"),
        "a wrong passphrase must not feed Argon2id the right password"
    );
}

#[test]
fn sattatu_max_is_fifty_four_hours() {
    assert_eq!(SATTATU_MAX, 194_400);
    assert_eq!(expiry_at(1_000), 1_000 + 194_400);
    assert_eq!(expiry_at(u64::MAX - 5), u64::MAX);
}

#[test]
fn derive_refuses_too_short_output() {
    let kdf = SargonKdf::with_salt(AkkadianRoot::sargon(), [9u8; 32]);
    match kdf.derive(b"pw", 3) {
        Err(KupruError::InvalidInput(_)) => {}
        other => panic!("expected InvalidInput, got {other:?}"),
    }
}

#[test]
fn mix_salt_folds_material_and_length() {
    let random = [0x0Fu8; 32];
    let material = [0xF0u8; 32];
    let s = mix_salt(&random, &material, 0x1_05);
    assert_eq!(s[0], 0xFF);
    assert_eq!(s[30], 0xFF);
    assert_eq!(s[31], 0xFF ^ 0x05);
}

#[test]
fn timing_rules_in_order() {
    let now = 1_000_000u64;
    assert!(validate_credential_timing_at(now, now, now + SATTATU_MAX).is_ok());
    match validate_credential_timing_at(now, now - 100, now - 10) {
        Err(KupruError::Expired(m)) => {
            assert_eq!(m, "ŠANÛ ŠATTĀTI: credential expired at 999990, now is 1000000")
        }
        other => panic!("expected Expired, got {other:?}"),
    }
    match validate_credential_timing_at(now, now + 301, now + 400) {
        Err(KupruError::Expired(m)) => {
            assert_eq!(m, "ŠANÛ ŠATTĀTI: created_at 1000301 is in the future (now=1000000)")
        }
        other => panic!("expected future-dated Expired, got {other:?}"),
    }
    assert!(validate_credential_timing_at(now, now + 300, now + 400).is_ok());
    match validate_credential_timing_at(now, now, now + SATTATU_MAX + 1) {
        Err(KupruError::AccessDenied(m)) => {
            assert_eq!(m, "DŪRU: credential TTL exceeds ŠATTĀTU_MAX (194400s)")
        }
        other => panic!("expected AccessDenied, got {other:?}"),
    }
}

#[test]
fn fresh_credential_is_valid_by_the_clock() {
    let now = SargonKdf::sovereign_now();
    assert!(validate_credential_timing(now, now + SATTATU_MAX).is_ok());
    assert!(!SargonKdf::is_expired(now + 3600));
    assert!(SargonKdf::is_expired(0));
    assert!(SargonKdf::sovereign_expiry() >= now + SATTATU_MAX);
}
