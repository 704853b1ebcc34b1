use bahyway::heptascript::query::{Projection, WhatClause};
use bahyway::kupru::akk_cipher::AkkadianCipher;
use bahyway::kupru::akkadian_root::{AkkadianName, LinguisticProof};
use bahyway::kupru::akkadian_seal::SealKeyPair;
use bahyway::kupru::passport::{IshtarLayer, NaruLayer, SargonPassport};
use bahyway::kupru_vault::{
    authorize, open_vault, open_vault_with_key, strongest_identity, AuthzDecision, QueryReads, VAULT_AAD,
};

fn build_vault(key: &[u8; 32], plaintext: &[u8]) -> Vec<u8> {
    let cipher = AkkadianCipher::from_key_bytes(key).unwrap();
    let sealed = cipher.seal(plaintext, VAULT_AAD.as_bytes()).unwrap();
    let mut out = [5u8; 32].to_vec();
    out.extend_from_slice(&sealed);
    out
}

fn issue(privilege_level: u8, realm: &str) -> SargonPassport {
    let keypair = SealKeyPair::generate().unwrap();
    let naru = NaruLayer {
        subject_kaki: [7u8; 16],
        akkadian_name: AkkadianName::dubsar(),
        linguistic_proof: LinguisticProof::create("test-linguistic-phrase").unwrap(),
        realm: realm.into(),
        mudu_score: 5,
    };
    let istar = if privilege_level >= 7 { IshtarLayer::architect(realm) } else { IshtarLayer::gardener(realm) };
    SargonPassport::issue(naru, istar, b"entry", [1u8; 16], &keypair, &[0x42u8; 32]).unwrap()
}

#[test]
fn round_trip_with_correct_passphrase_authenticates() {
    let vault = build_vault(&[0x33u8; 32], b"[entries]");
    let plaintext = open_vault_with_key(&vault, &[0x33u8; 32]).unwrap();
    assert_eq!(plaintext, b"[entries]".to_vec());
    let id = strongest_identity(&vec![issue(1, "bahyway")]).unwrap();
    assert_eq!(id.privilege_level, 1);
    assert_eq!(id.realm, "bahyway");
    assert_eq!(id.subject_kaki_hex, "07070707070707070707070707070707");
}

#[test]
fn wrong_passphrase_is_rejected() {
    let vault = build_vault(&[0x33u8; 32], b"[entries]");
    assert_eq!(
        open_vault_with_key(&vault, &[0x34u8; 32]).unwrap_err(),
        "wrong passphrase, or the vault file is corrupted"
    );
}

#[test]
fn strongest_of_multiple_wins() {
    let id = strongest_identity(&vec![issue(1, "bahyway"), issue(7, "bahyway")]).unwrap();
    assert_eq!(id.privilege_level, 7);
    assert!(id.is_architect());
}

#[test]
fn short_vault_and_no_valid_passport_are_refused() {
    assert_eq!(open_vault(&[0u8; 60], b"pw").unwrap_err(), "file too short to contain a salt + sealed blob");
    let mut p = issue(1, "bahyway");
    p.istar.privilege_level = 3;
    assert_eq!(
        strongest_identity(&vec![p]).unwrap_err(),
        "vault opened, but no passport inside it has a valid, unexpired seal"
    );
}

fn reads(what: Option<Vec<Vec<&str>>>, where_attrs: Vec<&str>) -> QueryReads {
    QueryReads {
        what: what.map(|ps| WhatClause {
            projections: ps
                .into_iter()
                .map(|attrs| Projection { var: "E".to_string(), attrs: attrs.into_iter().map(String::from).collect() })
                .collect(),
        }),
        where_attrs: where_attrs.into_iter().map(String::from).collect(),
    }
}

#[test]
fn plain_query_with_no_passport_attrs_is_allowed_unauthenticated() {
    let q = reads(Some(vec![vec!["artifact.name"]]), vec!["artifact.kind"]);
    assert_eq!(authorize(&q, None), AuthzDecision::Allowed);
}

#[test]
fn what_projection_on_passport_attr_is_denied_without_privilege() {
    let q = reads(Some(vec![vec!["passport.privilege_level"]]), vec!["artifact.kind"]);
    assert_eq!(authorize(&q, None), AuthzDecision::Denied { namespace: "passport.", required_privilege: 5 });
}

#[test]
fn where_condition_on_passport_attr_is_denied_without_privilege() {
    let q = reads(Some(vec![vec!["artifact.name"]]), vec!["passport.realm"]);
    assert!(matches!(authorize(&q, None), AuthzDecision::Denied { .. }));
}

#[test]
fn anu_governor_run_attr_is_denied_without_privilege_and_allowed_at_5() {
    let q = reads(Some(vec![vec!["anu_governor_run.outcome"]]), vec!["artifact.kind"]);
    assert_eq!(
        authorize(&q, None),
        AuthzDecision::Denied { namespace: "anu_governor_run.", required_privilege: 5 }
    );
    assert_eq!(authorize(&q, Some(5)), AuthzDecision::Allowed);
    assert!(matches!(authorize(&q, Some(4)), AuthzDecision::Denied { .. }));
}

#[test]
fn passport_attr_query_is_allowed_at_sufficient_privilege() {
    let q = reads(Some(vec![vec!["passport.privilege_level"]]), vec!["artifact.kind"]);
    assert_eq!(authorize(&q, Some(5)), AuthzDecision::Allowed);
    assert_eq!(authorize(&q, Some(7)), AuthzDecision::Allowed);
}

#[test]
fn passport_attr_query_is_still_denied_below_threshold() {
    let q = reads(Some(vec![vec!["passport.privilege_level"]]), vec!["artifact.kind"]);
    assert!(matches!(authorize(&q, Some(4)), AuthzDecision::Denied { .. }));
}

#[test]
fn a_value_that_merely_contains_the_word_passport_in_a_where_literal_does_not_false_positive() {
    let q = reads(Some(vec![vec!["artifact.name"]]), vec!["artifact.name"]);
    assert_eq!(authorize(&q, None), AuthzDecision::Allowed);
}

#[test]
fn wildcard_what_is_conservatively_treated_as_touching_every_restricted_namespace() {
    let q = reads(Some(vec![vec![]]), vec!["artifact.kind"]);
    assert!(matches!(authorize(&q, None), AuthzDecision::Denied { .. }));
    assert_eq!(authorize(&q, Some(5)), AuthzDecision::Allowed);
}

#[test]
fn absent_what_clause_is_conservatively_treated_as_touching_every_restricted_namespace() {
    let q = reads(None, vec!["artifact.kind"]);
    assert!(matches!(authorize(&q, None), AuthzDecision::Denied { .. }));
}

#[test]
fn first_touched_namespace_is_reported() {
    let q = reads(Some(vec![vec!["x.a"], vec!["anu_governor_run.id", "passport.realm"]]), vec!["passport.x"]);
    assert_eq!(
        authorize(&q, Some(1)),
        AuthzDecision::Denied { namespace: "anu_governor_run.", required_privilege: 5 }
    );
}
