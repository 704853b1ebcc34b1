use bahyway::heptascript::indexed::indexable_condition;
use bahyway::heptascript::engine::QueryPlan;
use bahyway::heptascript::engine::combine_outcomes;
use bahyway::heptascript::engine::early_limit;
use bahyway::heptascript::engine::effective_where;
use bahyway::heptascript::engine::orbital_range_from_query;
use bahyway::heptascript::engine::passes_orbital;
use bahyway::heptascript::query::Combinator::{And, Or};
use bahyway::heptascript::operations::Operation;
use bahyway::heptascript::parser::parse_query;
use bahyway::heptascript::query::FilterStage;
use bahyway::heptascript::query::{
    AcrossClause, ConditionTest, DbTarget, EpochRef, GateTarget, GravityMode, HeptaValue, HowMuchClause,
    LaneValue, LifecycleState, LineageClause, MeasureClause, NashClause, Op, OrbitalClause, PatternCondition,
    PatternKind, SatamuClause, SortDir, StorageTier, WhenClause, WhyCondition,
};

fn decimal(text: &str) -> f64 {
    text.parse::<f64>().unwrap()
}

#[test]
fn parse_minimal_who() {
    let q = parse_query("WHO Citizens.E").unwrap();
    assert_eq!(q.who.primary.tribe, "Citizens");
    assert_eq!(q.who.primary.var, "E");
    assert!(q.who.bound_to.is_empty());
    assert!(q.node.is_none());
    assert_eq!(q.verb, Operation::Orbit, "no verb keyword must default to ORBIT");
}

#[test]
fn parse_sovereign_verbs_lead_the_query() {
    assert_eq!(parse_query("ORBIT\nWHO T.E").unwrap().verb, Operation::Orbit);
    assert_eq!(parse_query("EMIT\nWHO T.E").unwrap().verb, Operation::Emit);
    assert_eq!(parse_query("PROVE\nWHO T.E").unwrap().verb, Operation::Prove);
    assert_eq!(parse_query("SYNC\nWHO T.E").unwrap().verb, Operation::Sync);
    assert_eq!(parse_query("WITNESS\nWHO T.E").unwrap().verb, Operation::Witness);
}

#[test]
fn verb_precedes_node_and_across() {
    let q = parse_query("PROVE\nNODE EnkiDDB\nWHO T.E").unwrap();
    assert_eq!(q.verb, Operation::Prove);
    assert_eq!(q.node.unwrap().targets, vec![DbTarget::EnkiDdb]);
}

#[test]
fn parse_who_bound_to() {
    let q = parse_query("WHO Graves.G BOUND_TO Citizens.C").unwrap();
    assert_eq!(q.who.primary.var, "G");
    assert_eq!(q.who.bound_to.len(), 1);
    assert_eq!(q.who.bound_to[0].tribe, "Citizens");
}

#[test]
fn parse_what_specific_attrs() {
    let q = parse_query("WHO T.E\nWHAT E[name.given, birth.year]").unwrap();
    let what = q.what.unwrap();
    assert_eq!(what.projections[0].attrs, vec!["name.given", "birth.year"]);
}

#[test]
fn parse_what_star() {
    let q = parse_query("WHO T.E\nWHAT E[*]").unwrap();
    assert!(q.what.unwrap().projections[0].attrs.is_empty());
}

#[test]
fn parse_where_string_eq() {
    let q = parse_query("WHO T.E\nWHERE E[city.name] = \"Najaf\"").unwrap();
    let cond = &q.where_conditions[0];
    assert_eq!(cond.attr, "city.name");
    assert_eq!(cond.test, ConditionTest::Cmp { op: Op::Eq, val: HeptaValue::Text("Najaf".into()) });
}

#[test]
fn parse_where_exists() {
    let q = parse_query("WHO T.E\nWHERE E[phone] EXISTS").unwrap();
    assert_eq!(q.where_conditions[0].test, ConditionTest::Exists);
}

#[test]
fn parse_where_not_exists() {
    let q = parse_query("WHO T.E\nWHERE E[phone] NOT EXISTS").unwrap();
    assert_eq!(q.where_conditions[0].test, ConditionTest::NotExists);
}

#[test]
fn parse_when_at_epoch_now() {
    let q = parse_query("WHO T.E\nWHEN AT EPOCH NOW").unwrap();
    assert_eq!(q.when, Some(WhenClause::AtEpoch(EpochRef::Now)));
}

#[test]
fn parse_when_before_epoch() {
    let q = parse_query("WHO T.E\nWHEN BEFORE EPOCH 1680000000").unwrap();
    assert_eq!(q.when, Some(WhenClause::BeforeEpoch(1_680_000_000)));
}

#[test]
fn parse_why_quality_byte() {
    let q = parse_query("WHO T.E\nWHY QUALITY_BYTE < 100").unwrap();
    match &q.why[0] {
        WhyCondition::QualityByte { op, val, .. } => {
            assert_eq!(*op, Op::Lt);
            assert_eq!(*val, 100u8);
        },
        other => panic!("unexpected: {other:?}"),
    }
}

#[test]
fn parse_why_lane() {
    let q = parse_query("WHO T.E\nWHY LANE != Black").unwrap();
    match &q.why[0] {
        WhyCondition::Lane { op, val, .. } => {
            assert_eq!(*op, Op::Neq);
            assert_eq!(*val, LaneValue::Black);
        },
        other => panic!("unexpected: {other:?}"),
    }
}

#[test]
fn parse_how_by_desc() {
    let q = parse_query("WHO T.E\nHOW BY E[score] DESC").unwrap();
    let how = q.how.unwrap();
    assert_eq!(how.attr, "score");
    assert_eq!(how.dir, SortDir::Desc);
}

#[test]
fn parse_how_much_limit() {
    let q = parse_query("WHO T.E\nHOW_MUCH LIMIT 100").unwrap();
    assert_eq!(q.how_much, Some(HowMuchClause::Limit(100)));
}

#[test]
fn parse_how_much_top() {
    let q = parse_query("WHO T.E\nHOW_MUCH TOP 5 BY E[score] DESC").unwrap();
    match q.how_much.unwrap() {
        HowMuchClause::Top { n, attr, dir, .. } => {
            assert_eq!(n, 5);
            assert_eq!(attr, "score");
            assert_eq!(dir, SortDir::Desc);
        },
        other => panic!("unexpected: {other:?}"),
    }
}

#[test]
fn parse_measure_dense() {
    let q = parse_query("WHO T.E\nMEASURE DENSE").unwrap();
    assert_eq!(q.measure, Some(MeasureClause::Dense));
}

#[test]
fn parse_measure_flux() {
    let q = parse_query("WHO T.E\nMEASURE FLUX E[pressure]").unwrap();
    match q.measure.unwrap() {
        MeasureClause::Flux { var, attr } => {
            assert_eq!(var, "E");
            assert_eq!(attr, "pressure");
        },
        other => panic!("unexpected: {other:?}"),
    }
}

#[test]
fn parse_measure_rotor_mean() {
    let q = parse_query("WHO T.E\nMEASURE ROTOR_MEAN E[orientation]").unwrap();
    match q.measure.unwrap() {
        MeasureClause::RotorMean { var, attr } => {
            assert_eq!(var, "E");
            assert_eq!(attr, "orientation");
        },
        other => panic!("unexpected: {other:?}"),
    }
}

#[test]
fn parse_gravity_band() {
    let q = parse_query("WHO T.E\nGRAVITY E[pressure] BAND 5.0").unwrap();
    let g = q.gravity.unwrap();
    assert_eq!(g.attr, "pressure");
    match g.mode {
        GravityMode::Band(width) => assert_eq!(decimal(&width), 5.0),
        other => panic!("unexpected: {other:?}"),
    }
}

#[test]
fn parse_gravity_max_groups() {
    let q = parse_query("WHO T.E\nGRAVITY E[station] MAX_GROUPS 1000").unwrap();
    let g = q.gravity.unwrap();
    assert_eq!(g.attr, "station");
    assert_eq!(g.mode, GravityMode::ExactMatchCapped(1000));
}

#[test]
fn parse_gravity_without_bound_is_refused() {
    let err = parse_query("WHO T.E\nGRAVITY E[station]").unwrap_err();
    assert!(err.0.contains("BAND"), "{}", err.0);
    assert!(err.0.contains("MAX_GROUPS"), "{}", err.0);
}

#[test]
fn parse_gravity_band_rejects_nonpositive_width() {
    let err = parse_query("WHO T.E\nGRAVITY E[pressure] BAND 0").unwrap_err();
    assert!(err.0.contains("positive"), "{}", err.0);
}

#[test]
fn parse_measure_and_gravity_combine() {
    let q = parse_query("WHO T.E\nGRAVITY E[station] MAX_GROUPS 1000\nMEASURE DENSE").unwrap();
    assert!(q.gravity.is_some());
    assert_eq!(q.measure, Some(MeasureClause::Dense));
}

#[test]
fn parse_node_single() {
    let q = parse_query("NODE EnkiMDB\nWHO T.E").unwrap();
    let node = q.node.unwrap();
    assert_eq!(node.targets, vec![DbTarget::EnkiMdb]);
}

#[test]
fn parse_node_all() {
    let q = parse_query("NODE ALL\nWHO T.E").unwrap();
    assert_eq!(q.node.unwrap().targets, vec![DbTarget::All]);
}

#[test]
fn parse_node_multi_pipe() {
    let q = parse_query("NODE EnkiDB | EnkiDW | NARUDU\nWHO T.E").unwrap();
    let targets = q.node.unwrap().targets;
    assert_eq!(targets.len(), 3);
    assert_eq!(targets[0], DbTarget::EnkiDb);
    assert_eq!(targets[1], DbTarget::EnkiDw);
    assert_eq!(targets[2], DbTarget::Narudu);
}

#[test]
fn parse_across_bigring() {
    let q = parse_query("ACROSS BIGRING ClientAlpha\nWHO T.E").unwrap();
    assert_eq!(q.across, Some(AcrossClause::Bigring("ClientAlpha".into())));
}

#[test]
fn parse_across_all() {
    let q = parse_query("ACROSS ALL\nWHO T.E").unwrap();
    assert_eq!(q.across, Some(AcrossClause::All));
}

#[test]
fn parse_tier_single() {
    let q = parse_query("WHO T.E\nTIER HOT").unwrap();
    assert_eq!(q.tier.unwrap().tiers, vec![StorageTier::Hot]);
}

#[test]
fn parse_tier_multi() {
    let q = parse_query("WHO T.E\nTIER HOT | WARM | COLD").unwrap();
    let tiers = q.tier.unwrap().tiers;
    assert_eq!(tiers, vec![StorageTier::Hot, StorageTier::Warm, StorageTier::Cold]);
}

#[test]
fn parse_state_canonical() {
    let q = parse_query("WHO T.E\nSTATE CANONICAL").unwrap();
    assert_eq!(q.state.unwrap().states, vec![LifecycleState::Canonical]);
}

#[test]
fn parse_state_multi() {
    let q = parse_query("WHO T.E\nSTATE EMERGING | STABLE").unwrap();
    let states = q.state.unwrap().states;
    assert_eq!(states, vec![LifecycleState::Emerging, LifecycleState::Stable]);
}

#[test]
fn parse_nash_score() {
    let q = parse_query("WHO T.E\nNASH SCORE < 0.20").unwrap();
    match q.nash.unwrap() {
        NashClause::Score { op, threshold } => {
            assert_eq!(op, Op::Lt);
            assert!((decimal(&threshold) - 0.20).abs() < 1e-9);
        },
        other => panic!("unexpected: {other:?}"),
    }
}

#[test]
fn parse_nash_breaking() {
    let q = parse_query("WHO T.E\nNASH BREAKING").unwrap();
    assert_eq!(q.nash, Some(NashClause::Breaking));
}

#[test]
fn parse_pattern_type() {
    let q = parse_query("WHO T.E\nPATTERN TYPE CrowdFlow").unwrap();
    assert_eq!(q.pattern.len(), 1);
    assert_eq!(q.pattern[0], PatternCondition::Type(PatternKind::CrowdFlow));
}

#[test]
fn parse_pattern_confidence() {
    let q = parse_query("WHO T.E\nPATTERN CONFIDENCE >= 0.85").unwrap();
    match &q.pattern[0] {
        PatternCondition::Confidence { op, value } => {
            assert_eq!(*op, Op::Gte);
            assert!((decimal(value) - 0.85).abs() < 1e-9);
        },
        other => panic!("unexpected: {other:?}"),
    }
}

#[test]
fn parse_pattern_multi_conditions() {
    let src = "WHO T.E\nPATTERN TYPE IndoorRoom\nPATTERN CONFIDENCE >= 0.60\nPATTERN MAX_CONSTITUENTS <= 126";
    let q = parse_query(src).unwrap();
    assert_eq!(q.pattern.len(), 3);
    assert_eq!(q.pattern[0], PatternCondition::Type(PatternKind::IndoorRoom));
}

#[test]
fn parse_lineage_depth() {
    let q = parse_query("WHO T.E\nLINEAGE DEPTH 5").unwrap();
    assert_eq!(q.lineage, Some(LineageClause::Depth(5)));
}

#[test]
fn parse_lineage_full() {
    let q = parse_query("WHO T.E\nLINEAGE FULL").unwrap();
    assert_eq!(q.lineage, Some(LineageClause::Full));
}

#[test]
fn parse_gate_named() {
    let q = parse_query("WHO T.E\nGATE DataSteward").unwrap();
    assert_eq!(q.gate.unwrap().gates, vec![GateTarget::Named("DataSteward".into())]);
}

#[test]
fn parse_gate_multi_named() {
    let q = parse_query("WHO T.E\nGATE DataSteward, DataCleansing").unwrap();
    let gates = q.gate.unwrap().gates;
    assert_eq!(gates.len(), 2);
    assert_eq!(gates[0], GateTarget::Named("DataSteward".into()));
    assert_eq!(gates[1], GateTarget::Named("DataCleansing".into()));
}

#[test]
fn parse_gate_all() {
    let q = parse_query("WHO T.E\nGATE ALL").unwrap();
    assert_eq!(q.gate.unwrap().gates, vec![GateTarget::All]);
}

#[test]
fn parse_satamu_required() {
    let q = parse_query("WHO T.E\nSATAMU REQUIRED").unwrap();
    assert_eq!(q.satamu, Some(SatamuClause::Required));
}

#[test]
fn parse_satamu_bypass() {
    let q = parse_query("WHO T.E\nSATAMU BYPASS \"AI Council unanimous approval 2026-06-30\"").unwrap();
    match q.satamu.unwrap() {
        SatamuClause::Bypass(reason) => {
            assert!(reason.contains("AI Council"));
        },
        other => panic!("unexpected: {other:?}"),
    }
}

#[test]
fn parse_orbital_range() {
    let q = parse_query("WHO T.E\nORBITAL 100 .. 500").unwrap();
    assert_eq!(q.orbital, Some(OrbitalClause::Range { start: 100, end: 500 }));
}

#[test]
fn parse_orbital_now() {
    let q = parse_query("WHO T.E\nORBITAL NOW").unwrap();
    assert_eq!(q.orbital, Some(OrbitalClause::Now));
}

#[test]
fn parse_full_v2_query() {
    let src = "NODE EnkiMDB | ENKI_PATTERN\n\
               ACROSS BIGRING ClientAlpha\n\
               WHO Tribes.E\n\
               WHAT E[event.type, location.zone]\n\
               WHERE E[event.type] = \"entry\"\n\
               WHEN AFTER EPOCH 1680000000\n\
               ORBITAL 100 .. 500\n\
               WHY LANE != Black\n\
               TIER HOT | WARM\n\
               STATE CANONICAL\n\
               NASH SCORE < 0.20\n\
               PATTERN TYPE CrowdFlow\n\
               PATTERN CONFIDENCE >= 0.85\n\
               LINEAGE DEPTH 3\n\
               GATE DataSteward, DataCleansing\n\
               SATAMU REQUIRED\n\
               HOW BY E[location.zone] ASC\n\
               HOW_MUCH LIMIT 1000";
    let q = parse_query(src).unwrap();

    assert_eq!(q.node.as_ref().unwrap().targets.len(), 2);
    assert_eq!(q.across, Some(AcrossClause::Bigring("ClientAlpha".into())));
    assert_eq!(q.tier.as_ref().unwrap().tiers.len(), 2);
    assert_eq!(q.state.as_ref().unwrap().states, vec![LifecycleState::Canonical]);
    match q.nash.as_ref().unwrap() {
        NashClause::Score { op, threshold } => {
            assert_eq!(*op, Op::Lt);
            assert_eq!(decimal(threshold), 0.20);
        },
        other => panic!("unexpected: {other:?}"),
    }
    assert_eq!(q.pattern.len(), 2);
    assert_eq!(q.lineage, Some(LineageClause::Depth(3)));
    assert_eq!(q.gate.as_ref().unwrap().gates.len(), 2);
    assert_eq!(q.satamu, Some(SatamuClause::Required));
    assert_eq!(q.orbital, Some(OrbitalClause::Range { start: 100, end: 500 }));

    assert_eq!(q.who.primary.tribe, "Tribes");
    assert!(q.what.is_some());
    assert_eq!(q.where_conditions.len(), 1);
    assert_eq!(q.how_much, Some(HowMuchClause::Limit(1000)));
}

// ── Further cases of the grammar ───────────────────────────────────────────

#[test]
fn missing_who_is_reported_with_the_token_found() {
    let err = parse_query("WHAT E[*]").unwrap_err();
    assert_eq!(err.0, "expected Who, got What");
}

#[test]
fn lexer_errors_pass_through() {
    let err = parse_query("WHO T.E ?").unwrap_err();
    assert!(err.0.starts_with("Unexpected character"), "{}", err.0);
}

#[test]
fn where_conditions_chain_with_and_or_and_juxtaposition() {
    let q = parse_query("WHO T.E\nWHERE E[a] = 1 OR E[b] EXISTS E[c] != null").unwrap();
    assert_eq!(q.where_conditions.len(), 3);
    assert_eq!(q.where_conditions[1].combinator, bahyway::heptascript::query::Combinator::Or);
    assert_eq!(q.where_conditions[2].test, ConditionTest::Cmp { op: Op::Neq, val: HeptaValue::Null });
}

#[test]
fn keywords_serve_as_attribute_names() {
    let q = parse_query("WHO T.E\nWHAT E[state, nash.score]").unwrap();
    assert_eq!(q.what.unwrap().projections[0].attrs, vec!["state", "nash.score"]);
}

#[test]
fn unknown_lane_is_reported_in_lower_case() {
    let err = parse_query("WHO T.E\nWHY LANE = Purple").unwrap_err();
    assert_eq!(err.0, "unknown lane value: purple");
}

#[test]
fn gravity_band_error_shows_the_width_as_written() {
    let err = parse_query("WHO T.E\nGRAVITY E[p] BAND 0.000").unwrap_err();
    assert_eq!(err.0, "GRAVITY BAND width must be positive, got 0.000");
}

#[test]
fn execution_hints_parse_after_the_clauses() {
    let q = parse_query(
        "WHO T.E\nANCHOR E7_FIRST\nSTREAM\nDERIVE_STATION \"north\"\nABORT_SCAN 50\nFILTER_ORDER LANE_FILTER, EAV_ATTR",
    )
    .unwrap();
    assert_eq!(q.anchor, bahyway::heptascript::query::AnchorStrategy::E7First);
    assert!(q.stream);
    assert_eq!(q.derive_station.as_deref(), Some("north"));
    assert_eq!(q.abort_scan, Some(50));
    assert_eq!(q.filter_order.len(), 2);
}

#[test]
fn empty_filter_order_is_refused() {
    let err = parse_query("WHO T.E\nFILTER_ORDER").unwrap_err();
    assert_eq!(err.0, "FILTER_ORDER requires at least one stage");
}

#[test]
fn plan_carries_the_v2_directives() {
    let q = parse_query(
        "NODE EnkiDB | EnkiDW\nWHO T.E\nTIER COLD\nPATTERN TYPE WaterFlow\nGATE ALL\nSATAMU REQUIRED\nABORT_SCAN 9",
    )
    .unwrap();
    let p = QueryPlan::from_query(&q);
    assert_eq!(p.node_targets, vec![DbTarget::EnkiDb, DbTarget::EnkiDw]);
    assert!(p.is_federated());
    assert!(p.satamu_required());
    assert_eq!(p.tiers, vec![StorageTier::Cold]);
    assert!(p.states.is_empty());
    assert_eq!(p.pattern, vec![PatternCondition::Type(PatternKind::WaterFlow)]);
    assert_eq!(p.gates, vec![GateTarget::All]);
    assert_eq!(p.abort_scan, Some(9));
    let local = QueryPlan::from_query(&parse_query("WHO T.E").unwrap());
    assert!(!local.is_federated());
    assert!(!local.satamu_required());
}

#[test]
fn orbital_range_follows_the_orbital_clause() {
    let range = parse_query("WHO T.E\nORBITAL 100 .. 500").unwrap();
    assert_eq!(orbital_range_from_query(&range), Some((100, 500)));
    let now = parse_query("WHO T.E\nORBITAL NOW").unwrap();
    assert_eq!(orbital_range_from_query(&now), Some((0, 5)));
    let none = parse_query("WHO T.E").unwrap();
    assert_eq!(orbital_range_from_query(&none), None);
}

#[test]
fn emit_adds_the_birth_condition_on_the_who_variable() {
    let q = parse_query("EMIT\nWHO T.P\nWHERE P[kind] = \"doc\"").unwrap();
    let w = effective_where(&q);
    assert_eq!(w.len(), 2);
    assert_eq!(w[1].var, "P");
    assert_eq!(w[1].attr, "hist.event");
    assert_eq!(w[1].test, ConditionTest::Cmp { op: Op::Eq, val: HeptaValue::Text("BIRTH".into()) });
    let orbit = parse_query("WHO T.P\nWHERE P[kind] = \"doc\"").unwrap();
    assert_eq!(effective_where(&orbit).len(), 1);
}

#[test]
fn early_limit_only_for_a_plain_limit() {
    assert_eq!(early_limit(&parse_query("WHO T.E\nHOW_MUCH LIMIT 7").unwrap()), 7);
    assert_eq!(early_limit(&parse_query("WHO T.E\nHOW BY E[x]\nHOW_MUCH LIMIT 7").unwrap()), usize::MAX);
    assert_eq!(early_limit(&parse_query("WHO T.E\nHOW_MUCH TOP 3 BY E[x]").unwrap()), usize::MAX);
    assert_eq!(early_limit(&parse_query("WHO T.E\nHOW_MUCH LIMIT 7\nMEASURE DENSE").unwrap()), usize::MAX);
    assert_eq!(early_limit(&parse_query("WHO T.E").unwrap()), usize::MAX);
}

#[test]
fn outcomes_combine_left_to_right() {
    assert!(combine_outcomes(&vec![], &vec![]));
    assert!(!combine_outcomes(&vec![Or], &vec![false]));
    // (false OR true) AND false == false ; false OR (true AND false) would also be false,
    // but (true AND false) OR true shows the left-to-right reading.
    assert!(combine_outcomes(&vec![And, And, Or], &vec![true, false, true]));
    assert!(!combine_outcomes(&vec![And, Or, And], &vec![false, true, false]));
}

#[test]
fn orbital_range_needs_one_entry_inside() {
    assert!(passes_orbital(&vec![3, 40, 900], Some((100, 500))) == false);
    assert!(passes_orbital(&vec![3, 400], Some((100, 500))));
    assert!(passes_orbital(&vec![500], Some((100, 500))));
    assert!(passes_orbital(&vec![], None));
    assert!(!passes_orbital(&vec![], Some((0, 5))));
}

#[test]
fn only_a_leading_equality_without_or_is_indexable() {
    let q = parse_query("WHO T.E\nWHERE E[city] = \"Najaf\" AND E[age] > 3").unwrap();
    let (attr, val) = indexable_condition(&q.where_conditions).unwrap();
    assert_eq!(attr, "city");
    assert_eq!(*val, HeptaValue::Text("Najaf".into()));
    let or = parse_query("WHO T.E\nWHERE E[city] = \"Najaf\" OR E[age] > 3").unwrap();
    assert!(indexable_condition(&or.where_conditions).is_none());
    let gt = parse_query("WHO T.E\nWHERE E[age] > 3").unwrap();
    assert!(indexable_condition(&gt.where_conditions).is_none());
    assert!(indexable_condition(&Vec::new()).is_none());
}

#[test]
fn explicit_orbit_reads_like_no_verb() {
    let body = "WHO T.E\nWHAT E[name]\nWHERE E[age] >= 18 OR E[guardian] EXISTS\nTIER HOT\nHOW_MUCH LIMIT 10";
    let plain = parse_query(body).unwrap();
    let explicit = parse_query(&format!("ORBIT\n{body}")).unwrap();
    assert_eq!(format!("{plain:?}"), format!("{explicit:?}"));
    let bad = "WHO T.E\nWHERE E[age] >=";
    assert_eq!(parse_query(bad).unwrap_err().0, parse_query(&format!("ORBIT {bad}")).unwrap_err().0);
}

#[test]
fn pushing_a_filter_stage_appends_it_and_keeps_the_rest() {
    let mut q = parse_query("WHO T.E\nWHAT E[x]\nFILTER_ORDER LANE_FILTER, EAV_ATTR").unwrap();
    assert_eq!(q.filter_order, vec![FilterStage::Lane, FilterStage::EavAttr]);
    q.push_filter_stage(FilterStage::State);
    assert_eq!(q.filter_order, vec![FilterStage::Lane, FilterStage::EavAttr, FilterStage::State]);
    assert_eq!(q.verb, Operation::Orbit);
}
