use bahyway::heptascript::engine::{
    abort_scan_cap, apply_op_i64, apply_op_ord, apply_op_text, entry_passes,
    epoch_filter_from_when, lane_str, why_combinator, EpochFilter, QueryPlan,
};
use bahyway::heptascript::indexed::{nairu_range_from_when, when_is_current};
use bahyway::heptascript::modular_index::{
    bucket_histogram, checksum_bytes, chord_weight, dominant_weight, sigma1, weight_chord, HeptaChordType,
    ModularNaviIndex,
};
use bahyway::heptascript::parser::ParseError;
use bahyway::heptascript::query::{
    AcrossClause, Combinator, DbTarget, EpochRef, LaneValue, Op, SatamuClause, WhenClause,
    WhyCondition,
};
use bahyway::heptascript::sumuukin::{RoutingTarget, SumuUkinContext};

#[test]
fn sigma1_of_1_is_1() {
    assert_eq!(sigma1(1), 1);
}

#[test]
fn sigma1_of_6_is_12() {
    assert_eq!(sigma1(6), 1 + 2 + 3 + 6);
}

#[test]
fn sigma1_of_prime_is_p_plus_1() {
    assert_eq!(sigma1(7), 1 + 7);
    assert_eq!(sigma1(11), 1 + 11);
}

#[test]
fn sigma1_of_4_is_7() {
    assert_eq!(sigma1(4), 1 + 2 + 4);
}

#[test]
fn db_target_port_numbers() {
    assert_eq!(DbTarget::EnkiDb.port(), Some(7001));
    assert_eq!(DbTarget::EnkiDw.port(), Some(7002));
    assert_eq!(DbTarget::EnkiMdb.port(), Some(7006));
    assert_eq!(DbTarget::EnkiDdb.port(), Some(7007));
    assert_eq!(DbTarget::Narudu.port(), None);
    assert_eq!(DbTarget::All.port(), None);
}

// ── Additional checks ──────────────────────────────────────────────────────

fn index(weight: i8, level: u32, coeffs: Vec<u32>, checksum: u16) -> ModularNaviIndex {
    ModularNaviIndex { weight, level, coeffs, checksum }
}

#[test]
fn modular_index_queries() {
    let m = index(-1, 7, vec![0, 0, 0, 0, 24], 0x1234);
    assert_eq!(m.total_mass(), 24);
    assert_eq!(m.spectral_peak_bucket(), 4);
    assert_eq!(m.spectral_width(), 1);
    assert_eq!(m.coeff_at_bucket(4), 24);
    assert_eq!(m.coeff_at_bucket(99), 0);
    assert_eq!(m.fourier_repr(), "θ{w=-1 L=7 a(4)=24}");
    assert_eq!(m.dominant_chord(), HeptaChordType::Spoke);
    assert_eq!(m.signature(), (127u64 << 48) | (7u64 << 16) | 0x1234);
    let two = index(2, 3, vec![5, 0, 5, 1], 9);
    assert_eq!(two.spectral_peak_bucket(), 2);
    assert_eq!(two.spectral_width(), 3);
    assert_eq!(two.fourier_repr(), "θ{w=2 L=3 a(0)=5 a(2)=5 a(3)=1}");
    assert_eq!(index(0, 0, vec![], 0).spectral_peak_bucket(), 0);
}

#[test]
fn modular_index_equivalence() {
    let a = index(1, 7, vec![1, 2], 77);
    let b = index(1, 7, vec![2, 1], 77);
    assert!(a.is_equivalent(&b));
    assert!(!a.coeffs_match(&b));
    assert!(a.coeffs_match(&a.clone()));
    let c = index(1, 8, vec![1, 2], 77);
    assert!(!a.is_equivalent(&c));
    assert_ne!(a.signature(), c.signature());
}

#[test]
fn chord_weights_round_trip() {
    for c in [HeptaChordType::Spoke, HeptaChordType::Rim, HeptaChordType::Local, HeptaChordType::Diagonal] {
        assert_eq!(weight_chord(chord_weight(c)), c);
    }
    assert_eq!(chord_weight(HeptaChordType::Diagonal), 2);
    assert_eq!(weight_chord(42), HeptaChordType::Diagonal);
}

#[test]
fn plan_flags() {
    let mut p = QueryPlan::new();
    assert!(!p.is_federated());
    assert!(!p.satamu_required());
    p.across = Some(AcrossClause::All);
    assert!(p.is_federated());
    p.satamu = Some(SatamuClause::Bypass("audit".into()));
    assert!(!p.satamu_required());
    p.satamu = Some(SatamuClause::Required);
    assert!(p.satamu_required());
    let mut q = QueryPlan::new();
    q.node_targets.push(DbTarget::EnkiDb);
    assert!(q.is_federated());
}

#[test]
fn abort_scan_and_epochs() {
    assert_eq!(abort_scan_cap(Some(3), 10), (3, true));
    assert_eq!(abort_scan_cap(Some(10), 10), (10, false));
    assert_eq!(abort_scan_cap(None, 4), (4, false));
    assert_eq!(epoch_filter_from_when(Some(&WhenClause::AtEpoch(EpochRef::Now))), None);
    assert_eq!(epoch_filter_from_when(None), None);
    let f = epoch_filter_from_when(Some(&WhenClause::BeforeEpoch(5))).unwrap();
    assert_eq!(f, EpochFilter::Before(5));
    assert!(entry_passes(4, &f));
    assert!(!entry_passes(5, &f));
    assert!(entry_passes(5, &EpochFilter::AtOrBefore(5)));
    assert!(entry_passes(6, &EpochFilter::After(5)));
    assert_eq!(nairu_range_from_when(&WhenClause::BeforeEpoch(0)), Some((0, 0)));
    assert_eq!(nairu_range_from_when(&WhenClause::AfterEpoch(9)), Some((10, u32::MAX as u64)));
    assert_eq!(nairu_range_from_when(&WhenClause::AtEpoch(EpochRef::Abs(4))), Some((0, 4)));
    assert_eq!(nairu_range_from_when(&WhenClause::AtEpoch(EpochRef::Now)), None);
    assert!(when_is_current(&None));
    assert!(when_is_current(&Some(WhenClause::AtEpoch(EpochRef::Now))));
    assert!(!when_is_current(&Some(WhenClause::AfterEpoch(1))));
}

#[test]
fn operators_and_lanes() {
    assert!(apply_op_i64(&Op::Lt, 1975, 1990));
    assert!(!apply_op_ord(&Op::Gt, 1, 1));
    assert!(apply_op_ord(&Op::Gte, 1, 1));
    assert!(apply_op_text(&Op::Lt, "Baghdad", "Najaf"));
    assert!(apply_op_text(&Op::Eq, "Gold", lane_str(&LaneValue::Gold)));
    assert!(apply_op_text(&Op::Neq, "Red", lane_str(&LaneValue::Black)));
    assert!(apply_op_text(&Op::Lte, "ab", "abc"));
    assert!(!apply_op_text(&Op::Gt, "ab", "abc"));
    let c = WhyCondition::QualityByte { combinator: Combinator::Or, op: Op::Gt, val: 150 };
    assert_eq!(*why_combinator(&c), Combinator::Or);
    assert_eq!(ParseError("boom".into()).to_string(), "HeptaScript parse error: boom");
}

fn make_targets() -> Vec<RoutingTarget> {
    vec![
        RoutingTarget { session_id: "s1".into(), host: "10.0.0.1".into(), port: 7001, tribe_id: 1 },
        RoutingTarget { session_id: "s2".into(), host: "10.0.0.2".into(), port: 7002, tribe_id: 2 },
        RoutingTarget { session_id: "s3".into(), host: "10.0.0.3".into(), port: 7003, tribe_id: 3 },
    ]
}

#[test]
fn empty_tribes_routes_to_all() {
    let ctx = SumuUkinContext::new(make_targets());
    let resolved = ctx.resolve(&vec![]);
    assert_eq!(resolved.len(), 3);
    assert_eq!(ctx.target_count(), 3);
}

#[test]
fn tribe_filter_routes_to_subset() {
    let ctx = SumuUkinContext::new(make_targets());
    let resolved = ctx.resolve(&vec!["1".into(), "3".into()]);
    assert_eq!(resolved.len(), 2);
    assert!(resolved.iter().any(|t| t.tribe_id == 1));
    assert!(resolved.iter().any(|t| t.tribe_id == 3));
}

#[test]
fn chord_weight_spoke_is_neg_one() {
    assert_eq!(chord_weight(HeptaChordType::Spoke), -1);
}

#[test]
fn chord_weight_diagonal_is_two() {
    assert_eq!(chord_weight(HeptaChordType::Diagonal), 2);
}

#[test]
fn weight_chord_roundtrip() {
    for &w in &[-1i8, 0, 1, 2] {
        assert_eq!(chord_weight(weight_chord(w)), w);
    }
}

#[test]
fn dominant_chord_ties_go_to_the_lowest_weight() {
    let (s, r, l, d) = (HeptaChordType::Spoke, HeptaChordType::Rim, HeptaChordType::Local, HeptaChordType::Diagonal);
    assert_eq!(dominant_weight(&vec![s, r, s, r, l]), -1);
    assert_eq!(dominant_weight(&vec![]), -1);
    assert_eq!(dominant_weight(&vec![d, l, l]), 1);
    assert_eq!(dominant_weight(&vec![d, r, d]), 2);
}

#[test]
fn histogram_clamps_to_the_last_bucket_and_trims_trailing_zeros() {
    assert_eq!(bucket_histogram(&vec![Some(0), Some(2), None, Some(9)], 4), vec![1, 0, 1, 1]);
    assert_eq!(bucket_histogram(&vec![Some(0)], 3), vec![1]);
    assert_eq!(bucket_histogram(&vec![None], 2), vec![0]);
    assert_eq!(bucket_histogram(&vec![], 1), vec![0]);
    assert_eq!(bucket_histogram(&vec![Some(4), Some(4), Some(1)], 6), vec![0, 1, 0, 0, 2]);
}

#[test]
fn checksum_covers_weight_level_and_coefficients() {
    assert_eq!(checksum_bytes(-1, 7, &vec![24]), vec![0xFF, 7, 0, 0, 0, 24, 0, 0, 0]);
    assert_eq!(checksum_bytes(2, 0x0102_0304, &vec![]), vec![2, 4, 3, 2, 1]);
}
