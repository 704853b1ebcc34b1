use bahyway::heptascript::token::{tokenize, Keyword, Token};

// ── v1 clause tests (regression) ─────────────────────────────────────────

#[test]
fn tokenize_who_clause() {
    let toks = tokenize("WHO Citizens.E").unwrap();
    assert_eq!(toks[0], Token::Kw(Keyword::Who));
    assert_eq!(toks[1], Token::Ident("Citizens".into()));
    assert_eq!(toks[2], Token::Kw(Keyword::Dot));
    assert_eq!(toks[3], Token::Ident("E".into()));
}

#[test]
fn tokenize_what_clause() {
    let toks = tokenize("WHAT E[name.given, birth.year]").unwrap();
    assert_eq!(toks[0], Token::Kw(Keyword::What));
    assert_eq!(toks[1], Token::Ident("E".into()));
    assert_eq!(toks[2], Token::Kw(Keyword::LBracket));
    assert_eq!(toks[3], Token::Ident("name".into()));
    assert_eq!(toks[4], Token::Kw(Keyword::Dot));
    assert_eq!(toks[5], Token::Ident("given".into()));
    assert_eq!(toks[6], Token::Kw(Keyword::Comma));
}

#[test]
fn tokenize_where_clause_with_string() {
    let toks = tokenize(r#"WHERE E[city.name] = "Najaf""#).unwrap();
    assert_eq!(toks[0], Token::Kw(Keyword::Where));
    assert_eq!(toks[7], Token::Kw(Keyword::Eq));
    assert_eq!(toks[8], Token::Str("Najaf".into()));
}

#[test]
fn tokenize_where_clause_with_int() {
    let toks = tokenize("WHERE E[birth.year] < 1990").unwrap();
    assert_eq!(toks[7], Token::Kw(Keyword::Lt));
    assert_eq!(toks[8], Token::Int(1990));
}

#[test]
fn tokenize_when_at_epoch_now() {
    let toks = tokenize("WHEN AT EPOCH NOW").unwrap();
    assert_eq!(toks[0], Token::Kw(Keyword::When));
    assert_eq!(toks[1], Token::Kw(Keyword::At));
    assert_eq!(toks[2], Token::Kw(Keyword::Epoch));
    assert_eq!(toks[3], Token::Kw(Keyword::Now));
}

#[test]
fn tokenize_when_before_epoch() {
    let toks = tokenize("WHEN BEFORE EPOCH 1680000000").unwrap();
    assert_eq!(toks[1], Token::Kw(Keyword::Before));
    assert_eq!(toks[3], Token::Int(1680000000));
}

#[test]
fn tokenize_why_quality_byte() {
    let toks = tokenize("WHY QUALITY_BYTE < 100").unwrap();
    assert_eq!(toks[0], Token::Kw(Keyword::Why));
    assert_eq!(toks[1], Token::Kw(Keyword::QualityByte));
    assert_eq!(toks[2], Token::Kw(Keyword::Lt));
    assert_eq!(toks[3], Token::Int(100));
}

#[test]
fn tokenize_why_lane() {
    let toks = tokenize("WHY LANE != Black").unwrap();
    assert_eq!(toks[1], Token::Kw(Keyword::Lane));
    assert_eq!(toks[2], Token::Kw(Keyword::Neq));
    assert_eq!(toks[3], Token::Ident("Black".into()));
}

#[test]
fn tokenize_how_clause() {
    let toks = tokenize("HOW BY E[birth.year] DESC").unwrap();
    assert_eq!(toks[0], Token::Kw(Keyword::How));
    assert_eq!(toks[1], Token::Kw(Keyword::By));
    assert_eq!(toks[8], Token::Kw(Keyword::Desc));
}

#[test]
fn tokenize_how_much_limit() {
    let toks = tokenize("HOW_MUCH LIMIT 100").unwrap();
    assert_eq!(toks[0], Token::Kw(Keyword::HowMuch));
    assert_eq!(toks[1], Token::Kw(Keyword::Limit));
    assert_eq!(toks[2], Token::Int(100));
}

#[test]
fn tokenize_how_much_top() {
    let toks = tokenize("HOW_MUCH TOP 10 BY E[score] ASC").unwrap();
    assert_eq!(toks[0], Token::Kw(Keyword::HowMuch));
    assert_eq!(toks[1], Token::Kw(Keyword::Top));
    assert_eq!(toks[2], Token::Int(10));
    assert_eq!(toks[8], Token::Kw(Keyword::Asc));
}

#[test]
fn tokenize_bound_to() {
    let toks = tokenize("WHO Graves.G BOUND_TO Citizens.C").unwrap();
    assert_eq!(toks[4], Token::Kw(Keyword::BoundTo));
}

#[test]
fn tokenize_exists_keyword() {
    let toks = tokenize("WHERE E[leak.reported] EXISTS").unwrap();
    assert_eq!(toks[7], Token::Kw(Keyword::Exists));
}

#[test]
fn tokenize_not_exists() {
    let toks = tokenize("WHERE E[leak.reported] NOT EXISTS").unwrap();
    assert_eq!(toks[7], Token::Kw(Keyword::Not));
    assert_eq!(toks[8], Token::Kw(Keyword::Exists));
}

#[test]
fn tokenize_star_projection() {
    let toks = tokenize("WHAT E[*]").unwrap();
    assert_eq!(toks[2], Token::Kw(Keyword::LBracket));
    assert_eq!(toks[3], Token::Kw(Keyword::Star));
    assert_eq!(toks[4], Token::Kw(Keyword::RBracket));
}

#[test]
fn tokenize_negative_int() {
    let toks = tokenize("-42").unwrap();
    assert_eq!(toks[0], Token::Int(-42));
}

#[test]
fn tokenize_float() {
    let toks = tokenize("0.8").unwrap();
    assert_eq!(toks[0], Token::Float("0.8".into()));
}

#[test]
fn tokenize_comment_skipped() {
    let toks = tokenize("WHO -- this is a comment\nCitizens.E").unwrap();
    assert_eq!(toks[0], Token::Kw(Keyword::Who));
    assert_eq!(toks[1], Token::Ident("Citizens".into()));
}

#[test]
fn tokenize_and_or_operators() {
    let toks = tokenize("AND OR").unwrap();
    assert_eq!(toks[0], Token::Kw(Keyword::And));
    assert_eq!(toks[1], Token::Kw(Keyword::Or));
}

#[test]
fn tokenize_quoted_string_with_escaped_quote() {
    let toks = tokenize(r#""She said ""hello"""#).unwrap();
    assert_eq!(toks[0], Token::Str("She said \"hello\"".into()));
}

#[test]
fn tokenize_route_query() {
    let toks =
        tokenize("ROUTE NaviLattice7 WHERE index.weight = -1 AND index.level = 7").unwrap();
    assert_eq!(toks[0], Token::Kw(Keyword::Route));
    assert_eq!(toks[5], Token::Kw(Keyword::AttrWeight));
}

#[test]
fn tokenize_full_w5h2_query() {
    let src =
        "WHO Citizens.E\nWHAT E[name.given]\nWHERE E[city.name] = \"Najaf\"\nHOW_MUCH LIMIT 10";
    let toks = tokenize(src).unwrap();
    assert_eq!(toks[0], Token::Kw(Keyword::Who));
    assert_eq!(*toks.last().unwrap(), Token::Eof);
}

// ── v2.0 new clause tests ─────────────────────────────────────────────────

#[test]
fn tokenize_node_single() {
    let toks = tokenize("NODE EnkiMDB").unwrap();
    assert_eq!(toks[0], Token::Kw(Keyword::Node));
    assert_eq!(toks[1], Token::Kw(Keyword::DbEnkiMdb));
}

#[test]
fn tokenize_node_multi_pipe() {
    // NODE EnkiDB | EnkiDW | NARUDU
    let toks = tokenize("NODE EnkiDB | EnkiDW | NARUDU").unwrap();
    assert_eq!(toks[0], Token::Kw(Keyword::Node));
    assert_eq!(toks[1], Token::Kw(Keyword::DbEnkiDb));
    assert_eq!(toks[2], Token::Kw(Keyword::Pipe));
    assert_eq!(toks[3], Token::Kw(Keyword::DbEnkiDw));
    assert_eq!(toks[4], Token::Kw(Keyword::Pipe));
    assert_eq!(toks[5], Token::Kw(Keyword::DbNarudu));
}

#[test]
fn tokenize_node_all() {
    let toks = tokenize("NODE ALL").unwrap();
    assert_eq!(toks[0], Token::Kw(Keyword::Node));
    assert_eq!(toks[1], Token::Kw(Keyword::NodeAll));
}

#[test]
fn tokenize_across_bigring() {
    let toks = tokenize("ACROSS BIGRING ClientAlpha").unwrap();
    assert_eq!(toks[0], Token::Kw(Keyword::Across));
    assert_eq!(toks[1], Token::Kw(Keyword::Bigring));
    assert_eq!(toks[2], Token::Ident("ClientAlpha".into()));
}

#[test]
fn tokenize_across_all() {
    let toks = tokenize("ACROSS ALL").unwrap();
    assert_eq!(toks[0], Token::Kw(Keyword::Across));
    assert_eq!(toks[1], Token::Kw(Keyword::NodeAll));
}

#[test]
fn tokenize_tier_hot() {
    let toks = tokenize("TIER HOT").unwrap();
    assert_eq!(toks[0], Token::Kw(Keyword::Tier));
    assert_eq!(toks[1], Token::Kw(Keyword::TierHot));
}

#[test]
fn tokenize_tier_multi() {
    // TIER HOT | WARM
    let toks = tokenize("TIER HOT | WARM").unwrap();
    assert_eq!(toks[1], Token::Kw(Keyword::TierHot));
    assert_eq!(toks[2], Token::Kw(Keyword::Pipe));
    assert_eq!(toks[3], Token::Kw(Keyword::TierWarm));
}

#[test]
fn tokenize_state_canonical() {
    let toks = tokenize("STATE CANONICAL").unwrap();
    assert_eq!(toks[0], Token::Kw(Keyword::State));
    assert_eq!(toks[1], Token::Kw(Keyword::StateCanonical));
}

#[test]
fn tokenize_nash_score() {
    let toks = tokenize("NASH SCORE < 0.20").unwrap();
    assert_eq!(toks[0], Token::Kw(Keyword::Nash));
    assert_eq!(toks[1], Token::Kw(Keyword::NashScore));
    assert_eq!(toks[2], Token::Kw(Keyword::Lt));
    assert_eq!(toks[3], Token::Float("0.20".into()));
}

#[test]
fn tokenize_nash_breaking() {
    let toks = tokenize("NASH BREAKING").unwrap();
    assert_eq!(toks[0], Token::Kw(Keyword::Nash));
    assert_eq!(toks[1], Token::Kw(Keyword::NashBreaking));
}

#[test]
fn tokenize_pattern_type() {
    let toks = tokenize("PATTERN TYPE CrowdFlow").unwrap();
    assert_eq!(toks[0], Token::Kw(Keyword::Pattern));
    assert_eq!(toks[1], Token::Kw(Keyword::PatternType));
    assert_eq!(toks[2], Token::Kw(Keyword::PtCrowdFlow));
}

#[test]
fn tokenize_pattern_confidence() {
    let toks = tokenize("PATTERN CONFIDENCE >= 0.85").unwrap();
    assert_eq!(toks[0], Token::Kw(Keyword::Pattern));
    assert_eq!(toks[1], Token::Kw(Keyword::PatternConfidence));
    assert_eq!(toks[2], Token::Kw(Keyword::Gte));
    assert_eq!(toks[3], Token::Float("0.85".into()));
}

#[test]
fn tokenize_lineage_depth() {
    let toks = tokenize("LINEAGE DEPTH 5").unwrap();
    assert_eq!(toks[0], Token::Kw(Keyword::Lineage));
    assert_eq!(toks[1], Token::Kw(Keyword::LineageDepth));
    assert_eq!(toks[2], Token::Int(5));
}

#[test]
fn tokenize_lineage_full() {
    let toks = tokenize("LINEAGE FULL").unwrap();
    assert_eq!(toks[0], Token::Kw(Keyword::Lineage));
    assert_eq!(toks[1], Token::Kw(Keyword::LineageFull));
}

#[test]
fn tokenize_gate_station() {
    let toks = tokenize("GATE DataSteward").unwrap();
    assert_eq!(toks[0], Token::Kw(Keyword::Gate));
    assert_eq!(toks[1], Token::Ident("DataSteward".into()));
}

#[test]
fn tokenize_gate_all() {
    let toks = tokenize("GATE ALL").unwrap();
    assert_eq!(toks[0], Token::Kw(Keyword::Gate));
    assert_eq!(toks[1], Token::Kw(Keyword::NodeAll));
}

#[test]
fn tokenize_satamu_required() {
    let toks = tokenize("SATAMU REQUIRED").unwrap();
    assert_eq!(toks[0], Token::Kw(Keyword::Satamu));
    assert_eq!(toks[1], Token::Kw(Keyword::SatamuRequired));
}

#[test]
fn tokenize_satamu_bypass() {
    let toks = tokenize(r#"SATAMU BYPASS "AI Council approved""#).unwrap();
    assert_eq!(toks[0], Token::Kw(Keyword::Satamu));
    assert_eq!(toks[1], Token::Kw(Keyword::SatamuBypass));
    assert_eq!(toks[2], Token::Str("AI Council approved".into()));
}

#[test]
fn tokenize_orbital_range() {
    let toks = tokenize("ORBITAL 100 .. 200").unwrap();
    assert_eq!(toks[0], Token::Kw(Keyword::Orbital));
    assert_eq!(toks[1], Token::Int(100));
    assert_eq!(toks[2], Token::Kw(Keyword::DotDot));
    assert_eq!(toks[3], Token::Int(200));
}

#[test]
fn tokenize_sovereign_verbs() {
    assert_eq!(tokenize("ORBIT").unwrap()[0], Token::Kw(Keyword::VerbOrbit));
    assert_eq!(tokenize("emit").unwrap()[0], Token::Kw(Keyword::VerbEmit));
    assert_eq!(tokenize("PROVE").unwrap()[0], Token::Kw(Keyword::VerbProve));
    assert_eq!(tokenize("sync").unwrap()[0], Token::Kw(Keyword::VerbSync));
    assert_eq!(tokenize("WITNESS").unwrap()[0], Token::Kw(Keyword::VerbWitness));
}

#[test]
fn tokenize_orbital_now() {
    let toks = tokenize("ORBITAL NOW").unwrap();
    assert_eq!(toks[0], Token::Kw(Keyword::Orbital));
    assert_eq!(toks[1], Token::Kw(Keyword::Now));
}

#[test]
fn tokenize_full_v2_query() {
    let src = "NODE EnkiMDB | ENKI_PATTERN\n\
               ACROSS BIGRING ClientAlpha\n\
               WHO Tribes.E\n\
               WHERE E[event.type] = \"entry\"\n\
               TIER HOT | WARM\n\
               STATE CANONICAL\n\
               NASH SCORE < 0.20\n\
               PATTERN TYPE CrowdFlow\n\
               PATTERN CONFIDENCE >= 0.85\n\
               LINEAGE DEPTH 3\n\
               GATE DataSteward\n\
               SATAMU REQUIRED\n\
               ORBITAL 100 .. 500\n\
               HOW_MUCH LIMIT 1000";
    let toks = tokenize(src).unwrap();
    assert_eq!(toks[0], Token::Kw(Keyword::Node));
    assert_eq!(*toks.last().unwrap(), Token::Eof);
    // Should have no error — the full round-trip tokenizes cleanly.
    assert!(toks.len() > 30);
}

#[test]
fn tokenize_enki_pattern_db() {
    let toks = tokenize("NODE ENKI_PATTERN").unwrap();
    assert_eq!(toks[1], Token::Kw(Keyword::DbEnkiPattern));
}

#[test]
fn pipe_separator() {
    let toks = tokenize("a | b").unwrap();
    assert_eq!(toks[1], Token::Kw(Keyword::Pipe));
}

// ── v2.1 MEASURE / GRAVITY clause tests ──────────────────────────────────

#[test]
fn tokenize_measure_dense() {
    let toks = tokenize("MEASURE DENSE").unwrap();
    assert_eq!(toks[0], Token::Kw(Keyword::Measure));
    assert_eq!(toks[1], Token::Kw(Keyword::Dense));
}

#[test]
fn tokenize_measure_flux() {
    let toks = tokenize("MEASURE FLUX E[pressure]").unwrap();
    assert_eq!(toks[0], Token::Kw(Keyword::Measure));
    assert_eq!(toks[1], Token::Kw(Keyword::Flux));
    assert_eq!(toks[2], Token::Ident("E".into()));
}

#[test]
fn tokenize_measure_rotor_mean() {
    let toks = tokenize("MEASURE ROTOR_MEAN E[orientation]").unwrap();
    assert_eq!(toks[0], Token::Kw(Keyword::Measure));
    assert_eq!(toks[1], Token::Kw(Keyword::RotorMean));
}

#[test]
fn tokenize_gravity_band() {
    let toks = tokenize("GRAVITY E[pressure] BAND 5.0").unwrap();
    assert_eq!(toks[0], Token::Kw(Keyword::Gravity));
    assert_eq!(toks[5], Token::Kw(Keyword::Band));
    assert_eq!(toks[6], Token::Float("5.0".into()));
}

#[test]
fn tokenize_gravity_max_groups() {
    let toks = tokenize("GRAVITY E[station] MAX_GROUPS 1000").unwrap();
    assert_eq!(toks[0], Token::Kw(Keyword::Gravity));
    assert_eq!(toks[5], Token::Kw(Keyword::MaxGroups));
    assert_eq!(toks[6], Token::Int(1000));
}
