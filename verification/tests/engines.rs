use bahyway::ishum::connectivity::connected_where_walkable;
use bahyway::iris::{SimScenario, SimulatedCamera};
use bahyway::ishum::Grid;
use bahyway::kidinnu::{card_bytes, check_judging, seal, verify, DoorLedger, JudgeRefusal};
use bahyway::kinetic::{HealthClassification, HeptaDimension};
use bahyway::kittu::{
    build_email_text, confirm_id_for, emit_delivery_confirmation, poll_pending_alerts, show_alert_file_name,
    AlertEvent, AlertSeverity, KittuError,
};

#[test]
fn camera_id_is_stable() {
    let cam = SimulatedCamera::new(SimScenario::Normal);
    assert_eq!(cam.camera_id(), "sim-001");
}

#[test]
fn frame_ids_count_up_from_zero() {
    let mut cam = SimulatedCamera::new(SimScenario::Fever);
    assert_eq!(cam.next_frame_id(), 0);
    assert_eq!(cam.next_frame_id(), 1);
    assert_eq!(cam.scenario, SimScenario::Fever);
}

#[test]
fn builds_expected_subject_and_body() {
    let alert = AlertEvent {
        kaki_id: "kaki-1".to_string(),
        tribe_id: "shedu_security".to_string(),
        severity: AlertSeverity::Erra,
        rule_id: "R-042".to_string(),
        message: "critical drift".to_string(),
        timestamp: "2026-07-08T00:00:00Z".to_string(),
        evidence: vec!["e1".to_string(), "e2".to_string()],
    };
    let text = build_email_text(&alert, "security@bahyway.local");
    assert!(text.contains("To: security@bahyway.local"));
    assert!(text.contains("ERRA Alert - R-042"));
    assert!(text.contains("critical drift"));
    assert!(text.contains("e1, e2"));
}

#[test]
fn email_text_is_exact() {
    let alert = AlertEvent {
        kaki_id: "k".to_string(),
        tribe_id: "t".to_string(),
        severity: AlertSeverity::Info,
        rule_id: "r".to_string(),
        message: "m".to_string(),
        timestamp: "ts".to_string(),
        evidence: vec![],
    };
    let rule = "-----------------------------------------------";
    let expected = format!(
        "To: a@b\nSubject: [BahyWay SHEDU] INFO Alert - r | tribe=t\nMIME-Version: 1.0\nContent-Type: text/plain; charset=utf-8\n\nBahyWay.Ecosystem v4.0 - Kittu Engine Alert\n{rule}\nSeverity : INFO\nRule     : r\nTribe    : t\nTime     : ts\nMessage  : m\nEvidence : \nKAKI ID  : k\n{rule}\nNisaba detected. Kittu delivered. Sovereign.\n"
    );
    assert_eq!(build_email_text(&alert, "a@b"), expected);
}

#[test]
fn show_file_name_takes_eight_id_characters() {
    let alert = AlertEvent {
        kaki_id: "0123456789abcdef".to_string(),
        tribe_id: "shedu_security".to_string(),
        severity: AlertSeverity::Critical,
        rule_id: "R-001".to_string(),
        message: "test".to_string(),
        timestamp: "2026-07-08T00:00:00Z".to_string(),
        evidence: vec!["ev-1".to_string()],
    };
    assert_eq!(show_alert_file_name(&alert), "alert_CRITICAL_01234567.json");
    assert_eq!(AlertSeverity::Warning.as_str(), "WARNING");
    assert_eq!(KittuError::Email("x".into()).to_string(), "Email error: x");
}

#[test]
fn confirm_id_is_unique_per_call() {
    let alert = AlertEvent {
        kaki_id: "kaki-1".to_string(),
        tribe_id: "shedu_security".to_string(),
        severity: AlertSeverity::Info,
        rule_id: "R-1".to_string(),
        message: "m".to_string(),
        timestamp: "t".to_string(),
        evidence: vec![],
    };
    let a = emit_delivery_confirmation(&alert);
    let b = emit_delivery_confirmation(&alert);
    assert!(a.starts_with("kittu-confirm-"));
    assert_ne!(a, b);
    assert_eq!(confirm_id_for(255), "kittu-confirm-ff");
    assert_eq!(confirm_id_for(0), "kittu-confirm-0");
}

#[test]
fn stub_poll_returns_empty() {
    assert!(poll_pending_alerts("192.168.122.107:7001").is_empty());
}

#[test]
fn a2_6_seal_roundtrip_and_spoof_rejection() {
    let sk = ed25519_dalek::SigningKey::generate(&mut rand::rngs::OsRng);
    let sk_bytes = sk.to_bytes();
    let vk = sk.verifying_key().to_bytes();
    let b = card_bytes(47, &None, "MOVE NORTHEAST -> S3", "2026-W32");
    let sig = seal(&sk_bytes, &b);
    assert!(verify(&vk, &b, &sig));
    let spoof = card_bytes(47, &None, "MOVE SOUTHWEST -> S1", "2026-W32");
    assert!(!verify(&vk, &spoof, &sig), "a spoofed order must fail the seal");
}

#[test]
fn card_bytes_text() {
    assert_eq!(card_bytes(7, &Some("S2".to_string()), "HOLD", "E1"), b"KIDINNU|7|S2|HOLD|E1".to_vec());
    assert_eq!(card_bytes(0, &None, "GO", "E"), b"KIDINNU|0|NO-SIREN|GO|E".to_vec());
}

#[test]
fn grid_blocks_cells() {
    let mut g = Grid::new(4, 3);
    assert!(!g.is_blocked(2, 1));
    g.set_blocked(2, 1);
    assert!(g.is_blocked(2, 1));
    assert!(!g.is_blocked(1, 2));
    assert_eq!(g.blocked.iter().filter(|b| **b).count(), 1);
    assert!(g.blocked[1 * 4 + 2]);
}

#[test]
fn dimensions_and_health_classes() {
    for (i, d) in HeptaDimension::ALL.iter().enumerate() {
        assert_eq!(d.index(), i);
    }
    assert_eq!(HeptaDimension::URU.name(), "URU");
    assert!(HealthClassification::Warning.is_warning());
    assert!(!HealthClassification::Warning.is_critical());
    assert!(HealthClassification::Sovereign.is_sovereign());
}

fn walled_mask(w: usize, h: usize, wall_x: usize, gap_y: Option<usize>) -> Vec<bool> {
    let mut m = vec![true; w * h];
    for y in 0..h {
        if Some(y) != gap_y {
            m[y * w + wall_x] = false;
        }
    }
    m
}

#[test]
fn gap_in_a_wall_connects_and_closing_it_severs() {
    let grid = Grid::new(10, 3);
    let open_gap = walled_mask(10, 3, 5, Some(1));
    assert!(connected_where_walkable(&grid, &open_gap, (0, 1), (9, 1)));
    assert!(connected_where_walkable(&grid, &open_gap, (0, 0), (9, 2)));
    let closed = walled_mask(10, 3, 5, None);
    assert!(!connected_where_walkable(&grid, &closed, (0, 1), (9, 1)));
    assert!(connected_where_walkable(&grid, &closed, (0, 0), (4, 2)));
}

#[test]
fn an_unwalkable_cell_is_never_connected() {
    let grid = Grid::new(5, 5);
    let mut m = vec![true; 25];
    m[2 * 5 + 2] = false;
    assert!(!connected_where_walkable(&grid, &m, (2, 2), (2, 2)));
    assert!(connected_where_walkable(&grid, &m, (1, 2), (3, 2)));
    assert!(connected_where_walkable(&grid, &m, (0, 0), (0, 0)));
}

#[test]
fn fewer_walkable_cells_never_reconnect() {
    let grid = Grid::new(6, 4);
    // Shrink the walkable set cell by cell; once severed, it stays severed.
    let mut m = vec![true; 24];
    let mut severed = false;
    for y in 0..4 {
        m[y * 6 + 3] = false;
        let c = connected_where_walkable(&grid, &m, (0, 0), (5, 3));
        if severed {
            assert!(!c);
        }
        if !c {
            severed = true;
        }
    }
    assert!(severed);
}

#[test]
fn one_by_n_strip_is_connected_end_to_end() {
    let grid = Grid::new(1, 7);
    let m = vec![true; 7];
    assert!(connected_where_walkable(&grid, &m, (0, 0), (0, 6)));
    let grid = Grid::new(7, 1);
    let mut m = vec![true; 7];
    m[3] = false;
    assert!(!connected_where_walkable(&grid, &m, (0, 0), (6, 0)));
}

#[test]
fn door_ledger_refuses_overfilling() {
    let mut ledger = DoorLedger::new(vec![10, 3]);
    assert_eq!(ledger.refuges(), 2);
    assert!(ledger.has_room(0, 10));
    assert!(!ledger.has_room(0, 11));
    ledger.send(0, 7);
    assert_eq!(ledger.load(0), 7);
    assert!(ledger.has_room(0, 3));
    assert!(!ledger.has_room(0, 4));
    assert!(ledger.has_room(1, 3));
    ledger.send(1, 3);
    assert!(!ledger.has_room(1, 1));
    assert!(ledger.has_room(1, 0));
    assert_eq!(ledger.load(1), 3);
}

#[test]
fn judging_needs_every_template_sealed() {
    assert_eq!(check_judging(&vec![true, true], None), Ok(()));
    assert_eq!(check_judging(&vec![], Some(true)), Ok(()));
    assert_eq!(check_judging(&vec![true, false, true], None), Err(JudgeRefusal::UnsealedTemplate));
    assert_eq!(check_judging(&vec![false], Some(false)), Err(JudgeRefusal::UnsealedTemplate));
    assert_eq!(check_judging(&vec![true], Some(false)), Err(JudgeRefusal::UnsealedSiren));
    assert_eq!(
        JudgeRefusal::UnsealedTemplate.message(),
        "F5: unsealed template in S — drafts may rehearse, never judge"
    );
    assert_eq!(JudgeRefusal::UnsealedSiren.message(), "F5: declared siren references an unsealed template");
}
