//! The HeptaScript parser: a token list into a `HeptaQuery`, following the
//! grammar of `grammar.rs` clause by clause.

use vstd::prelude::*;
use crate::heptascript::grammar::{
    tk, is_kw, well_ended, keyword_name, token_debug, got, expect_msg, nonneg_int, pos_int, number_text, nonzero_digit, has_nonzero_digit, number_positive, verb_of, p_verb, db_target_of, p_db_target, p_db_targets_rest, p_node, p_across, p_binding, p_bound_rest, p_who, keyword_attr, attr_word, p_dotted_rest, p_dotted, p_attrs_rest, p_attr_list, p_projection, p_projections_rest, p_what, op_of, p_op, p_value, p_var_attr, p_where_cond, p_where_rest, p_where, p_epoch_number, p_when, p_orbital, lane_of, p_lane_value, byte_int, p_why_cond, p_why_rest, p_why, tier_of, tier_msg, p_tiers_rest, p_tier, state_of, state_msg, p_states_rest, p_state, p_nash, pattern_kind_of, p_pattern_cond, p_patterns_rest, p_lineage, p_gates_rest, p_gate, p_satamu, p_sort_dir, p_how, p_how_much, p_measure, p_gravity_mode, p_gravity, anchor_of, p_anchor, p_stream, p_derive_station, p_abort_scan, stage_of, p_stages, p_filter_order, p_head, p_filters, p_tail, p_query, query_of, Parsed,
};
use crate::heptascript::operations::Operation;
use crate::heptascript::query::{
    AcrossClause, AnchorStrategy, Combinator, ConditionTest, DbTarget, EntityBinding, EpochRef,
    FilterStage, GateClause, GateTarget, GravityClause, GravityMode, HeptaQuery, HeptaValue,
    HowClause, HowMuchClause, LaneValue, LifecycleState, LineageClause, MeasureClause, NashClause,
    NodeClause, Op, OrbitalClause, PatternCondition, PatternKind, Projection, SatamuClause, SortDir,
    StateClause, StorageTier, TierClause, WhatClause, WhenClause, WhereCondition, WhoClause,
    WhyCondition, BindingView, ProjectionView, WhereView, WhyView, PatternView, GateView,
    ValueView, TestView, AcrossView, NashView, SatamuView, HowView, HowMuchView, MeasureView,
    GravityView, GravityModeView, QueryView, WhoView,
};
use crate::heptascript::token::{lex, lex_from, lex_step, token_views, tokenize, Keyword, LexStep, Token, TokenView};
use crate::text::{push_signed_decimal, signed_decimal, str_chars, to_lowercase_string};

verus! {

/// Parse error.
#[derive(Debug, Clone)]
pub struct ParseError(pub String);

impl ParseError {
    /// The display text: "HeptaScript parse error: " and the message.
    pub fn to_string(&self) -> (s: String)
        ensures
            s@ == "HeptaScript parse error: "@ + self.0@,
    {
        let mut s = "HeptaScript parse error: ".to_owned();
        s.append(self.0.as_str());
        s
    }
}

/// The outcome of a parsing step is the grammar's: the same clause (as
/// plain data) and position, or the same message.
pub open spec fn agrees<T: DeepView>(r: Result<(T, usize), ParseError>, p: Parsed<T::V>) -> bool {
    match r {
        Ok((x, j)) => p == Ok::<(T::V, int), Seq<char>>((x.deep_view(), j as int)),
        Err(e) => p == Err::<(T::V, int), Seq<char>>(e.0@),
    }
}

/// A successful step ends at a position in `(i, n)`.
pub open spec fn advances<T>(r: Result<(T, usize), ParseError>, i: usize, n: nat) -> bool {
    match r {
        Ok((_, j)) => i < j < n,
        Err(_) => true,
    }
}

/// A successful step ends at a position in `[i, n)`.
pub open spec fn stays<T>(r: Result<(T, usize), ParseError>, i: usize, n: nat) -> bool {
    match r {
        Ok((_, j)) => i <= j < n,
        Err(_) => true,
    }
}

/// The name of a keyword token (see `keyword_name`).
pub fn keyword_name_str(k: Keyword) -> (s: &'static str)
    ensures
        s@ == keyword_name(k),
{
    match k {
        Keyword::Who => "Who",
        Keyword::What => "What",
        Keyword::Where => "Where",
        Keyword::When => "When",
        Keyword::Why => "Why",
        Keyword::How => "How",
        Keyword::HowMuch => "HowMuch",
        Keyword::VerbOrbit => "VerbOrbit",
        Keyword::VerbEmit => "VerbEmit",
        Keyword::VerbProve => "VerbProve",
        Keyword::VerbSync => "VerbSync",
        Keyword::VerbWitness => "VerbWitness",
        Keyword::Node => "Node",
        Keyword::Across => "Across",
        Keyword::Tier => "Tier",
        Keyword::State => "State",
        Keyword::Nash => "Nash",
        Keyword::Pattern => "Pattern",
        Keyword::Lineage => "Lineage",
        Keyword::Gate => "Gate",
        Keyword::Satamu => "Satamu",
        Keyword::NodeAll => "NodeAll",
        Keyword::DbEnkiDb => "DbEnkiDb",
        Keyword::DbEnkiDw => "DbEnkiDw",
        Keyword::DbEnkiSdb => "DbEnkiSdb",
        Keyword::DbEnkiOdb => "DbEnkiOdb",
        Keyword::DbEnkiQdb => "DbEnkiQdb",
        Keyword::DbEnkiMdb => "DbEnkiMdb",
        Keyword::DbEnkiDdb => "DbEnkiDdb",
        Keyword::DbNarudu => "DbNarudu",
        Keyword::DbEnkiPattern => "DbEnkiPattern",
        Keyword::Pipe => "Pipe",
        Keyword::Bigring => "Bigring",
        Keyword::TierHot => "TierHot",
        Keyword::TierWarm => "TierWarm",
        Keyword::TierCold => "TierCold",
        Keyword::TierCrystallized => "TierCrystallized",
        Keyword::StateEmerging => "StateEmerging",
        Keyword::StateStable => "StateStable",
        Keyword::StateCanonical => "StateCanonical",
        Keyword::StateDeprecated => "StateDeprecated",
        Keyword::NashScore => "NashScore",
        Keyword::NashBreaking => "NashBreaking",
        Keyword::PatternType => "PatternType",
        Keyword::PatternConfidence => "PatternConfidence",
        Keyword::PatternConstituents => "PatternConstituents",
        Keyword::PtCrowdFlow => "PtCrowdFlow",
        Keyword::PtAviationCorridor => "PtAviationCorridor",
        Keyword::PtAviationHolding => "PtAviationHolding",
        Keyword::PtIndoorHallway => "PtIndoorHallway",
        Keyword::PtIndoorRoom => "PtIndoorRoom",
        Keyword::PtIndoorTransition => "PtIndoorTransition",
        Keyword::PtWaterFlow => "PtWaterFlow",
        Keyword::PtCustom => "PtCustom",
        Keyword::LineageDepth => "LineageDepth",
        Keyword::LineageFull => "LineageFull",
        Keyword::SatamuRequired => "SatamuRequired",
        Keyword::SatamuBypass => "SatamuBypass",
        Keyword::Orbital => "Orbital",
        Keyword::DotDot => "DotDot",
        Keyword::Anchor => "Anchor",
        Keyword::AnchorAuto => "AnchorAuto",
        Keyword::AnchorSurrogateTime => "AnchorSurrogateTime",
        Keyword::AnchorStateStation => "AnchorStateStation",
        Keyword::AnchorE7First => "AnchorE7First",
        Keyword::AnchorFullScan => "AnchorFullScan",
        Keyword::Stream => "Stream",
        Keyword::DeriveStation => "DeriveStation",
        Keyword::AbortScan => "AbortScan",
        Keyword::FilterOrder => "FilterOrder",
        Keyword::FsSurrogateRange => "FsSurrogateRange",
        Keyword::FsOrbitalRange => "FsOrbitalRange",
        Keyword::FsState => "FsState",
        Keyword::FsDeriveStation => "FsDeriveStation",
        Keyword::FsLane => "FsLane",
        Keyword::FsQualityByte => "FsQualityByte",
        Keyword::FsEavAttr => "FsEavAttr",
        Keyword::FsE7Region => "FsE7Region",
        Keyword::BoundTo => "BoundTo",
        Keyword::At => "At",
        Keyword::Epoch => "Epoch",
        Keyword::Before => "Before",
        Keyword::After => "After",
        Keyword::Now => "Now",
        Keyword::Lane => "Lane",
        Keyword::QualityByte => "QualityByte",
        Keyword::By => "By",
        Keyword::Asc => "Asc",
        Keyword::Desc => "Desc",
        Keyword::Limit => "Limit",
        Keyword::Top => "Top",
        Keyword::Measure => "Measure",
        Keyword::Dense => "Dense",
        Keyword::Flux => "Flux",
        Keyword::RotorMean => "RotorMean",
        Keyword::Gravity => "Gravity",
        Keyword::Band => "Band",
        Keyword::MaxGroups => "MaxGroups",
        Keyword::And => "And",
        Keyword::Or => "Or",
        Keyword::Not => "Not",
        Keyword::Exists => "Exists",
        Keyword::Eq => "Eq",
        Keyword::Neq => "Neq",
        Keyword::Gt => "Gt",
        Keyword::Lt => "Lt",
        Keyword::Gte => "Gte",
        Keyword::Lte => "Lte",
        Keyword::Dot => "Dot",
        Keyword::Comma => "Comma",
        Keyword::Star => "Star",
        Keyword::LBracket => "LBracket",
        Keyword::RBracket => "RBracket",
        Keyword::Route => "Route",
        Keyword::Index => "Index",
        Keyword::Modular => "Modular",
        Keyword::AttrWeight => "AttrWeight",
        Keyword::AttrLevel => "AttrLevel",
        Keyword::AttrSignature => "AttrSignature",
        Keyword::AttrTotalMass => "AttrTotalMass",
        Keyword::AttrPeakCost => "AttrPeakCost",
    }
}
/// Appends how a token is shown in an error message.
fn push_token_debug(out: &mut String, t: &Token)
    ensures
        final(out)@ == old(out)@ + token_debug(t@),
{
    let ghost start = out@;
    match t {
        Token::Kw(k) => {
            out.append(keyword_name_str(*k));
        },
        Token::Ident(s) => {
            out.append("Ident(\"");
            out.append(s.as_str());
            out.append("\")");
            assert(out@ =~= start + token_debug(t@));
        },
        Token::Str(s) => {
            out.append("Str(\"");
            out.append(s.as_str());
            out.append("\")");
            assert(out@ =~= start + token_debug(t@));
        },
        Token::Int(n) => {
            out.append("Int(");
            push_signed_decimal(out, *n);
            out.append(")");
            assert(out@ =~= start + token_debug(t@));
        },
        Token::Float(f) => {
            out.append("Float(");
            out.append(f.as_str());
            out.append(")");
            assert(out@ =~= start + token_debug(t@));
        },
        Token::Eof => {
            out.append("Eof");
        },
    }
}

/// The error `prefix` followed by how the token at `i` is shown.
fn err_got(prefix: &str, toks: &Vec<Token>, i: usize) -> (e: ParseError)
    requires
        i < toks@.len(),
    ensures
        e.0@ == got(prefix@, token_views(toks@), i as int),
{
    let mut s = prefix.to_owned();
    push_token_debug(&mut s, &toks[i]);
    ParseError(s)
}

/// The error for a missing keyword `k` at `i`.
fn err_expect(k: Keyword, toks: &Vec<Token>, i: usize) -> (e: ParseError)
    requires
        i < toks@.len(),
    ensures
        e.0@ == expect_msg(k, token_views(toks@), i as int),
{
    let mut s = "expected ".to_owned();
    s.append(keyword_name_str(k));
    s.append(", got ");
    push_token_debug(&mut s, &toks[i]);
    ParseError(s)
}

/// In a token list that ends with `Eof`, a token other than `Eof` has a
/// successor.
proof fn lemma_ended(toks: Seq<Token>)
    requires
        well_ended(token_views(toks)),
    ensures
        forall|k: int| 0 <= k < toks.len() && (#[trigger] toks[k])@ != TokenView::Eof ==> k + 1 < toks.len(),
        forall|k: int| 0 <= k < toks.len() ==> tk(token_views(toks), k) == (#[trigger] toks[k])@,
        token_views(toks).len() == toks.len(),
{
    assert forall|k: int| 0 <= k < toks.len() && (#[trigger] toks[k])@ != TokenView::Eof implies k + 1 < toks.len() by {
        assert(token_views(toks)[k] == toks[k]@);
        assert(token_views(toks)[toks.len() - 1] == TokenView::Eof);
    }
}

/// Whether the token at `i` is the keyword `k`.
fn kw_at(toks: &Vec<Token>, i: usize, k: Keyword) -> (b: bool)
    requires
        well_ended(token_views(toks@)),
        i < toks@.len(),
    ensures
        b == is_kw(token_views(toks@), i as int, k),
        b ==> i + 1 < toks@.len(),
        toks@.len() <= usize::MAX,
{
    proof {
        lemma_ended(toks@);
    }
    let _n = toks.len();
    match &toks[i] {
        Token::Kw(x) => *x == k,
        _ => false,
    }
}

/// Whether `s` spells exactly `lit`.
fn string_is(s: &String, lit: &str) -> (b: bool)
    ensures
        b == (s@ == lit@),
{
    *s == lit.to_owned()
}

// ── Verb, NODE, ACROSS ─────────────────────────────────────────────────────

fn parse_verb(toks: &Vec<Token>, i: usize) -> (r: (Operation, usize))
    requires
        well_ended(token_views(toks@)),
        i < toks@.len(),
    ensures
        (r.0, r.1 as int) == p_verb(token_views(toks@), i as int),
        i <= r.1 < toks@.len(),
{
    proof {
        lemma_ended(toks@);
    }
    let _n = toks.len();
    let v = match &toks[i] {
        Token::Kw(Keyword::VerbOrbit) => Operation::Orbit,
        Token::Kw(Keyword::VerbEmit) => Operation::Emit,
        Token::Kw(Keyword::VerbProve) => Operation::Prove,
        Token::Kw(Keyword::VerbSync) => Operation::Sync,
        Token::Kw(Keyword::VerbWitness) => Operation::Witness,
        _ => {
            return (Operation::Orbit, i);
        },
    };
    (v, i + 1)
}

fn db_target_at(toks: &Vec<Token>, i: usize) -> (d: Option<DbTarget>)
    requires
        well_ended(token_views(toks@)),
        i < toks@.len(),
    ensures
        d == db_target_of(tk(token_views(toks@), i as int)),
        d is Some ==> i + 1 < toks@.len(),
        toks@.len() <= usize::MAX,
{
    proof {
        lemma_ended(toks@);
    }
    let _n = toks.len();
    match &toks[i] {
        Token::Kw(Keyword::NodeAll) => Some(DbTarget::All),
        Token::Kw(Keyword::DbEnkiDb) => Some(DbTarget::EnkiDb),
        Token::Kw(Keyword::DbEnkiDw) => Some(DbTarget::EnkiDw),
        Token::Kw(Keyword::DbEnkiSdb) => Some(DbTarget::EnkiSdb),
        Token::Kw(Keyword::DbEnkiOdb) => Some(DbTarget::EnkiOdb),
        Token::Kw(Keyword::DbEnkiQdb) => Some(DbTarget::EnkiQdb),
        Token::Kw(Keyword::DbEnkiMdb) => Some(DbTarget::EnkiMdb),
        Token::Kw(Keyword::DbEnkiDdb) => Some(DbTarget::EnkiDdb),
        Token::Kw(Keyword::DbNarudu) => Some(DbTarget::Narudu),
        Token::Kw(Keyword::DbEnkiPattern) => Some(DbTarget::EnkiPattern),
        _ => None,
    }
}

fn parse_node(toks: &Vec<Token>, i: usize) -> (r: Result<(Option<NodeClause>, usize), ParseError>)
    requires
        well_ended(token_views(toks@)),
        i < toks@.len(),
    ensures
        agrees(r, p_node(token_views(toks@), i as int)),
        stays(r, i, toks@.len()),
{
    let ghost ts = token_views(toks@);
    proof {
        lemma_ended(toks@);
    }
    if !kw_at(toks, i, Keyword::Node) {
        return Ok((None, i));
    }
    let first = match db_target_at(toks, i + 1) {
        Some(d) => d,
        None => {
            return Err(err_got("expected a database target (EnkiDB/EnkiMDB/NARUDU/ALL/…), got ", toks, i + 1));
        },
    };
    let mut targets: Vec<DbTarget> = Vec::new();
    targets.push(first);
    let mut j: usize = i + 2;
    assert(targets.deep_view() =~= seq![first]);
    while kw_at(toks, j, Keyword::Pipe)
        invariant
            ts == token_views(toks@),
            well_ended(ts),
            i < j < toks@.len(),
            is_kw(ts, i as int, Keyword::Node),
            db_target_of(tk(ts, i + 1)) == Some(first),
            p_db_targets_rest(ts, (i + 2) as int, seq![first]) == p_db_targets_rest(ts, j as int, targets.deep_view()),
        decreases toks@.len() - j,
    {
        match db_target_at(toks, j + 1) {
            Some(d) => {
                let ghost before = targets.deep_view();
                targets.push(d);
                assert(targets.deep_view() =~= before.push(d));
                j = j + 2;
            },
            None => {
                return Err(err_got("expected a database target (EnkiDB/EnkiMDB/NARUDU/ALL/…), got ", toks, j + 1));
            },
        }
    }
    Ok((Some(NodeClause { targets }), j))
}

fn parse_across(toks: &Vec<Token>, i: usize) -> (r: Result<(Option<AcrossClause>, usize), ParseError>)
    requires
        well_ended(token_views(toks@)),
        i < toks@.len(),
    ensures
        agrees(r, p_across(token_views(toks@), i as int)),
        stays(r, i, toks@.len()),
{
    proof {
        lemma_ended(toks@);
    }
    if !kw_at(toks, i, Keyword::Across) {
        return Ok((None, i));
    }
    if kw_at(toks, i + 1, Keyword::Bigring) {
        match &toks[i + 2] {
            Token::Ident(s) => Ok((Some(AcrossClause::Bigring(s.clone())), i + 3)),
            _ => Err(err_got("expected client name after BIGRING, got ", toks, i + 2)),
        }
    } else if kw_at(toks, i + 1, Keyword::NodeAll) {
        Ok((Some(AcrossClause::All), i + 2))
    } else {
        Err(err_got("expected BIGRING or ALL after ACROSS, got ", toks, i + 1))
    }
}


// ── WHO ─────────────────────────────────────────────────────────────────────

fn parse_binding(toks: &Vec<Token>, i: usize) -> (r: Result<(EntityBinding, usize), ParseError>)
    requires
        well_ended(token_views(toks@)),
        i < toks@.len(),
    ensures
        agrees(r, p_binding(token_views(toks@), i as int)),
        advances(r, i, toks@.len()),
{
    proof {
        lemma_ended(toks@);
    }
    let _n = toks.len();
    let tribe = match &toks[i] {
        Token::Ident(s) => s.clone(),
        _ => {
            return Err(err_got("expected tribe name (Ident), got ", toks, i));
        },
    };
    if !kw_at(toks, i + 1, Keyword::Dot) {
        return Err(err_expect(Keyword::Dot, toks, i + 1));
    }
    let var = match &toks[i + 2] {
        Token::Ident(s) => s.clone(),
        _ => {
            return Err(err_got("expected variable name (Ident), got ", toks, i + 2));
        },
    };
    Ok((EntityBinding { tribe, var }, i + 3))
}

fn parse_who(toks: &Vec<Token>, i: usize) -> (r: Result<(WhoClause, usize), ParseError>)
    requires
        well_ended(token_views(toks@)),
        i < toks@.len(),
    ensures
        agrees(r, p_who(token_views(toks@), i as int)),
        advances(r, i, toks@.len()),
{
    let ghost ts = token_views(toks@);
    if !kw_at(toks, i, Keyword::Who) {
        return Err(err_expect(Keyword::Who, toks, i));
    }
    let (primary, j0) = match parse_binding(toks, i + 1) {
        Ok(p) => p,
        Err(e) => {
            return Err(e);
        },
    };
    let mut bound_to: Vec<EntityBinding> = Vec::new();
    assert(bound_to.deep_view() =~= Seq::<BindingView>::empty());
    let mut j = j0;
    while kw_at(toks, j, Keyword::BoundTo)
        invariant
            ts == token_views(toks@),
            well_ended(ts),
            i < j < toks@.len(),
            is_kw(ts, i as int, Keyword::Who),
            p_binding(ts, i + 1) == Ok::<(BindingView, int), Seq<char>>((primary.deep_view(), j0 as int)),
            p_bound_rest(ts, j0 as int, Seq::empty()) == p_bound_rest(ts, j as int, bound_to.deep_view()),
        decreases toks@.len() - j,
    {
        match parse_binding(toks, j + 1) {
            Ok((b, k)) => {
                let ghost bv = b.deep_view();
                let ghost before = bound_to.deep_view();
                bound_to.push(b);
                assert(bound_to.deep_view() =~= before.push(bv));
                j = k;
            },
            Err(e) => {
                return Err(e);
            },
        }
    }
    Ok((WhoClause { primary, bound_to }, j))
}

// ── Attribute names, WHAT ──────────────────────────────────────────────────

fn keyword_attr_str(k: Keyword) -> (r: Option<&'static str>)
    ensures
        match r {
            Some(w) => keyword_attr(k) == Some(w@),
            None => keyword_attr(k) is None,
        },
{
    match k {
        Keyword::NashScore => Some("score"),
        Keyword::LineageFull => Some("full"),
        Keyword::PatternType => Some("type"),
        Keyword::LineageDepth => Some("depth"),
        Keyword::NashBreaking => Some("breaking"),
        Keyword::SatamuRequired => Some("required"),
        Keyword::SatamuBypass => Some("bypass"),
        Keyword::TierHot => Some("hot"),
        Keyword::TierWarm => Some("warm"),
        Keyword::TierCold => Some("cold"),
        Keyword::TierCrystallized => Some("crystallized"),
        Keyword::StateEmerging => Some("emerging"),
        Keyword::StateStable => Some("stable"),
        Keyword::StateCanonical => Some("canonical"),
        Keyword::StateDeprecated => Some("deprecated"),
        Keyword::PatternConfidence => Some("confidence"),
        Keyword::PatternConstituents => Some("max_constituents"),
        Keyword::Tier => Some("tier"),
        Keyword::State => Some("state"),
        Keyword::Nash => Some("nash"),
        Keyword::Pattern => Some("pattern"),
        Keyword::Lineage => Some("lineage"),
        Keyword::Gate => Some("gate"),
        Keyword::Satamu => Some("satamu"),
        Keyword::Node => Some("node"),
        Keyword::Across => Some("across"),
        Keyword::Orbital => Some("orbital"),
        Keyword::VerbOrbit => Some("orbit"),
        Keyword::VerbEmit => Some("emit"),
        Keyword::VerbProve => Some("prove"),
        Keyword::VerbSync => Some("sync"),
        Keyword::VerbWitness => Some("witness"),
        Keyword::Lane => Some("lane"),
        Keyword::By => Some("by"),
        Keyword::Top => Some("top"),
        Keyword::Asc => Some("asc"),
        Keyword::Desc => Some("desc"),
        _ => None,
    }
}

fn attr_word_at(toks: &Vec<Token>, i: usize) -> (r: Option<String>)
    requires
        well_ended(token_views(toks@)),
        i < toks@.len(),
    ensures
        match r {
            Some(w) => attr_word(tk(token_views(toks@), i as int)) == Some(w@) && i + 1 < toks@.len(),
            None => attr_word(tk(token_views(toks@), i as int)) is None,
        },
        toks@.len() <= usize::MAX,
{
    proof {
        lemma_ended(toks@);
    }
    let _n = toks.len();
    match &toks[i] {
        Token::Ident(s) => Some(s.clone()),
        Token::Kw(k) => match keyword_attr_str(*k) {
            Some(w) => Some(w.to_owned()),
            None => None,
        },
        _ => None,
    }
}

fn parse_dotted(toks: &Vec<Token>, i: usize) -> (r: Result<(String, usize), ParseError>)
    requires
        well_ended(token_views(toks@)),
        i < toks@.len(),
    ensures
        agrees(r, p_dotted(token_views(toks@), i as int)),
        advances(r, i, toks@.len()),
{
    let ghost ts = token_views(toks@);
    let mut name = match attr_word_at(toks, i) {
        Some(w) => w,
        None => {
            return Err(err_got("expected attribute name, got ", toks, i));
        },
    };
    let ghost first = name@;
    let mut j: usize = i + 1;
    while kw_at(toks, j, Keyword::Dot)
        invariant
            ts == token_views(toks@),
            well_ended(ts),
            i < j < toks@.len(),
            attr_word(tk(ts, i as int)) == Some(first),
            p_dotted_rest(ts, i + 1, first) == p_dotted_rest(ts, j as int, name@),
        decreases toks@.len() - j,
    {
        match attr_word_at(toks, j + 1) {
            Some(part) => {
                let ghost before = name@;
                name.append(".");
                name.append(part.as_str());
                assert(name@ =~= before + "."@ + part@);
                j = j + 2;
            },
            None => {
                return Err(err_got("expected attribute name, got ", toks, j + 1));
            },
        }
    }
    Ok((name, j))
}

fn parse_attr_list(toks: &Vec<Token>, i: usize) -> (r: Result<(Vec<String>, usize), ParseError>)
    requires
        well_ended(token_views(toks@)),
        i < toks@.len(),
    ensures
        agrees(r, p_attr_list(token_views(toks@), i as int)),
        advances(r, i, toks@.len()),
{
    let ghost ts = token_views(toks@);
    if kw_at(toks, i, Keyword::Star) {
        let none: Vec<String> = Vec::new();
        assert(none.deep_view() =~= Seq::<Seq<char>>::empty());
        return Ok((none, i + 1));
    }
    let (first, j0) = match parse_dotted(toks, i) {
        Ok(p) => p,
        Err(e) => {
            return Err(e);
        },
    };
    let ghost fv = first@;
    let mut attrs: Vec<String> = Vec::new();
    attrs.push(first);
    assert(attrs.deep_view() =~= seq![fv]);
    let mut j = j0;
    while kw_at(toks, j, Keyword::Comma)
        invariant
            ts == token_views(toks@),
            well_ended(ts),
            i < j < toks@.len(),
            !is_kw(ts, i as int, Keyword::Star),
            p_dotted(ts, i as int) == Ok::<(Seq<char>, int), Seq<char>>((fv, j0 as int)),
            p_attrs_rest(ts, j0 as int, seq![fv]) == p_attrs_rest(ts, j as int, attrs.deep_view()),
        decreases toks@.len() - j,
    {
        match parse_dotted(toks, j + 1) {
            Ok((a, k)) => {
                let ghost av = a@;
                let ghost before = attrs.deep_view();
                attrs.push(a);
                assert(attrs.deep_view() =~= before.push(av));
                j = k;
            },
            Err(e) => {
                return Err(e);
            },
        }
    }
    Ok((attrs, j))
}

fn parse_projection(toks: &Vec<Token>, i: usize) -> (r: Result<(Projection, usize), ParseError>)
    requires
        well_ended(token_views(toks@)),
        i < toks@.len(),
    ensures
        agrees(r, p_projection(token_views(toks@), i as int)),
        advances(r, i, toks@.len()),
{
    proof {
        lemma_ended(toks@);
    }
    let _n = toks.len();
    let var = match &toks[i] {
        Token::Ident(s) => s.clone(),
        _ => {
            return Err(err_got("expected variable in projection, got ", toks, i));
        },
    };
    if !kw_at(toks, i + 1, Keyword::LBracket) {
        return Err(err_expect(Keyword::LBracket, toks, i + 1));
    }
    let (attrs, j) = match parse_attr_list(toks, i + 2) {
        Ok(p) => p,
        Err(e) => {
            return Err(e);
        },
    };
    if !kw_at(toks, j, Keyword::RBracket) {
        return Err(err_expect(Keyword::RBracket, toks, j));
    }
    Ok((Projection { var, attrs }, j + 1))
}

fn parse_what(toks: &Vec<Token>, i: usize) -> (r: Result<(Option<WhatClause>, usize), ParseError>)
    requires
        well_ended(token_views(toks@)),
        i < toks@.len(),
    ensures
        agrees(r, p_what(token_views(toks@), i as int)),
        stays(r, i, toks@.len()),
{
    let ghost ts = token_views(toks@);
    if !kw_at(toks, i, Keyword::What) {
        return Ok((None, i));
    }
    let (first, j0) = match parse_projection(toks, i + 1) {
        Ok(p) => p,
        Err(e) => {
            return Err(e);
        },
    };
    let ghost fv = first.deep_view();
    let mut projections: Vec<Projection> = Vec::new();
    projections.push(first);
    assert(projections.deep_view() =~= seq![fv]);
    let mut j = j0;
    while kw_at(toks, j, Keyword::Comma)
        invariant
            ts == token_views(toks@),
            well_ended(ts),
            i < j < toks@.len(),
            is_kw(ts, i as int, Keyword::What),
            p_projection(ts, i + 1) == Ok::<(ProjectionView, int), Seq<char>>((fv, j0 as int)),
            p_projections_rest(ts, j0 as int, seq![fv]) == p_projections_rest(ts, j as int, projections.deep_view()),
        decreases toks@.len() - j,
    {
        match parse_projection(toks, j + 1) {
            Ok((p, k)) => {
                let ghost pv = p.deep_view();
                let ghost before = projections.deep_view();
                projections.push(p);
                assert(projections.deep_view() =~= before.push(pv));
                j = k;
            },
            Err(e) => {
                return Err(e);
            },
        }
    }
    Ok((Some(WhatClause { projections }), j))
}

// ── Operators, values, `Var[attr]` ─────────────────────────────────────────

fn parse_op(toks: &Vec<Token>, i: usize) -> (r: Result<(Op, usize), ParseError>)
    requires
        well_ended(token_views(toks@)),
        i < toks@.len(),
    ensures
        agrees(r, p_op(token_views(toks@), i as int)),
        advances(r, i, toks@.len()),
{
    proof {
        lemma_ended(toks@);
    }
    let _n = toks.len();
    let o = match &toks[i] {
        Token::Kw(Keyword::Eq) => Op::Eq,
        Token::Kw(Keyword::Neq) => Op::Neq,
        Token::Kw(Keyword::Gt) => Op::Gt,
        Token::Kw(Keyword::Lt) => Op::Lt,
        Token::Kw(Keyword::Gte) => Op::Gte,
        Token::Kw(Keyword::Lte) => Op::Lte,
        _ => {
            return Err(err_got("expected comparison operator (=, !=, >, …), got ", toks, i));
        },
    };
    Ok((o, i + 1))
}

fn parse_value(toks: &Vec<Token>, i: usize) -> (r: Result<(HeptaValue, usize), ParseError>)
    requires
        well_ended(token_views(toks@)),
        i < toks@.len(),
    ensures
        agrees(r, p_value(token_views(toks@), i as int)),
        advances(r, i, toks@.len()),
{
    proof {
        lemma_ended(toks@);
    }
    let _n = toks.len();
    match &toks[i] {
        Token::Str(s) => Ok((HeptaValue::Text(s.clone()), i + 1)),
        Token::Int(n) => Ok((HeptaValue::Int(*n), i + 1)),
        Token::Float(f) => Ok((HeptaValue::Float(f.clone()), i + 1)),
        Token::Ident(s) => {
            let low = to_lowercase_string(s.as_str());
            if string_is(&low, "true") {
                Ok((HeptaValue::Bool(true), i + 1))
            } else if string_is(&low, "false") {
                Ok((HeptaValue::Bool(false), i + 1))
            } else if string_is(&low, "null") {
                Ok((HeptaValue::Null, i + 1))
            } else {
                let mut m = "unknown value identifier: ".to_owned();
                m.append(s.as_str());
                Err(ParseError(m))
            }
        },
        _ => Err(err_got("expected value literal (string/int/float/bool), got ", toks, i)),
    }
}

fn parse_var_attr(toks: &Vec<Token>, i: usize, missing: &str) -> (r: Result<((String, String), usize), ParseError>)
    requires
        well_ended(token_views(toks@)),
        i < toks@.len(),
    ensures
        agrees(r, p_var_attr(token_views(toks@), i as int, missing@)),
        advances(r, i, toks@.len()),
{
    proof {
        lemma_ended(toks@);
    }
    let _n = toks.len();
    let var = match &toks[i] {
        Token::Ident(s) => s.clone(),
        _ => {
            return Err(err_got(missing, toks, i));
        },
    };
    if !kw_at(toks, i + 1, Keyword::LBracket) {
        return Err(err_expect(Keyword::LBracket, toks, i + 1));
    }
    let (attr, j) = match parse_dotted(toks, i + 2) {
        Ok(p) => p,
        Err(e) => {
            return Err(e);
        },
    };
    if !kw_at(toks, j, Keyword::RBracket) {
        return Err(err_expect(Keyword::RBracket, toks, j));
    }
    Ok(((var, attr), j + 1))
}

// ── WHERE ───────────────────────────────────────────────────────────────────

fn parse_where_cond(toks: &Vec<Token>, i: usize, c: Combinator) -> (r: Result<(WhereCondition, usize), ParseError>)
    requires
        well_ended(token_views(toks@)),
        i < toks@.len(),
    ensures
        agrees(r, p_where_cond(token_views(toks@), i as int, c)),
        advances(r, i, toks@.len()),
{
    let ((var, attr), j) = match parse_var_attr(toks, i, "expected variable in WHERE condition, got ") {
        Ok(p) => p,
        Err(e) => {
            return Err(e);
        },
    };
    if kw_at(toks, j, Keyword::Exists) {
        return Ok((WhereCondition { combinator: c, var, attr, test: ConditionTest::Exists }, j + 1));
    }
    if kw_at(toks, j, Keyword::Not) {
        if kw_at(toks, j + 1, Keyword::Exists) {
            return Ok((WhereCondition { combinator: c, var, attr, test: ConditionTest::NotExists }, j + 2));
        } else {
            return Err(err_expect(Keyword::Exists, toks, j + 1));
        }
    }
    let (op, k) = match parse_op(toks, j) {
        Ok(p) => p,
        Err(e) => {
            return Err(e);
        },
    };
    let (val, m) = match parse_value(toks, k) {
        Ok(p) => p,
        Err(e) => {
            return Err(e);
        },
    };
    Ok((WhereCondition { combinator: c, var, attr, test: ConditionTest::Cmp { op, val } }, m))
}

fn parse_where(toks: &Vec<Token>, i: usize) -> (r: Result<(Vec<WhereCondition>, usize), ParseError>)
    requires
        well_ended(token_views(toks@)),
        i < toks@.len(),
    ensures
        agrees(r, p_where(token_views(toks@), i as int)),
        stays(r, i, toks@.len()),
{
    let ghost ts = token_views(toks@);
    if !kw_at(toks, i, Keyword::Where) {
        let none: Vec<WhereCondition> = Vec::new();
        assert(none.deep_view() =~= Seq::<WhereView>::empty());
        return Ok((none, i));
    }
    let (first, j0) = match parse_where_cond(toks, i + 1, Combinator::And) {
        Ok(p) => p,
        Err(e) => {
            return Err(e);
        },
    };
    let ghost fv = first.deep_view();
    let mut conds: Vec<WhereCondition> = Vec::new();
    conds.push(first);
    assert(conds.deep_view() =~= seq![fv]);
    let mut j = j0;
    loop
        invariant
            ts == token_views(toks@),
            well_ended(ts),
            i < j < toks@.len(),
            toks@.len() <= usize::MAX,
            is_kw(ts, i as int, Keyword::Where),
            p_where_cond(ts, i + 1, Combinator::And) == Ok::<(WhereView, int), Seq<char>>((fv, j0 as int)),
            p_where_rest(ts, j0 as int, seq![fv]) == p_where_rest(ts, j as int, conds.deep_view()),
        ensures
            i < j < toks@.len(),
            p_where_rest(ts, j0 as int, seq![fv]) == Ok::<(Seq<WhereView>, int), Seq<char>>((conds.deep_view(), j as int)),
        decreases toks@.len() - j,
    {
        proof {
            lemma_ended(toks@);
        }
        let step = match &toks[j] {
            Token::Kw(Keyword::And) => parse_where_cond(toks, j + 1, Combinator::And),
            Token::Kw(Keyword::Or) => parse_where_cond(toks, j + 1, Combinator::Or),
            Token::Ident(_) => parse_where_cond(toks, j, Combinator::And),
            _ => {
                break;
            },
        };
        match step {
            Ok((w, k)) => {
                let ghost wv = w.deep_view();
                let ghost before = conds.deep_view();
                conds.push(w);
                assert(conds.deep_view() =~= before.push(wv));
                j = k;
            },
            Err(e) => {
                return Err(e);
            },
        }
    }
    Ok((conds, j))
}


// ── Literals ────────────────────────────────────────────────────────────────

fn nonneg_int_at(toks: &Vec<Token>, i: usize) -> (r: Option<i64>)
    requires
        well_ended(token_views(toks@)),
        i < toks@.len(),
    ensures
        r == nonneg_int(tk(token_views(toks@), i as int)),
        r is Some ==> i + 1 < toks@.len(),
        toks@.len() <= usize::MAX,
{
    proof {
        lemma_ended(toks@);
    }
    let _n = toks.len();
    match &toks[i] {
        Token::Int(n) => if *n >= 0 {
            Some(*n)
        } else {
            None
        },
        _ => None,
    }
}

fn pos_int_at(toks: &Vec<Token>, i: usize) -> (r: Option<i64>)
    requires
        well_ended(token_views(toks@)),
        i < toks@.len(),
    ensures
        r == pos_int(tk(token_views(toks@), i as int)),
        r is Some ==> i + 1 < toks@.len(),
        toks@.len() <= usize::MAX,
{
    proof {
        lemma_ended(toks@);
    }
    let _n = toks.len();
    match &toks[i] {
        Token::Int(n) => if *n > 0 {
            Some(*n)
        } else {
            None
        },
        _ => None,
    }
}

fn number_text_at(toks: &Vec<Token>, i: usize) -> (r: Option<String>)
    requires
        well_ended(token_views(toks@)),
        i < toks@.len(),
    ensures
        match r {
            Some(x) => number_text(tk(token_views(toks@), i as int)) == Some(x@) && i + 1 < toks@.len(),
            None => number_text(tk(token_views(toks@), i as int)) is None,
        },
        toks@.len() <= usize::MAX,
{
    proof {
        lemma_ended(toks@);
    }
    let _n = toks.len();
    match &toks[i] {
        Token::Float(f) => Some(f.clone()),
        Token::Int(n) => {
            let mut x = String::new();
            push_signed_decimal(&mut x, *n);
            assert(x@ =~= signed_decimal(*n as int));
            Some(x)
        },
        _ => None,
    }
}

fn number_positive_at(toks: &Vec<Token>, i: usize) -> (b: bool)
    requires
        i < toks@.len(),
    ensures
        b == number_positive(tk(token_views(toks@), i as int)),
{
    match &toks[i] {
        Token::Int(n) => *n > 0,
        Token::Float(f) => {
            let c = str_chars(f.as_str());
            let mut k: usize = 0;
            while k < c.len()
                invariant
                    0 <= k <= c@.len(),
                    c@ == f@,
                    tk(token_views(toks@), i as int) == TokenView::Float(f@),
                    forall|m: int| 0 <= m < k ==> !nonzero_digit(#[trigger] c@[m]),
                decreases c@.len() - k,
            {
                if '1' <= c[k] && c[k] <= '9' {
                    assert(nonzero_digit(f@[k as int]));
                    return true;
                }
                k = k + 1;
            }
            false
        },
        _ => false,
    }
}

// ── WHEN, ORBITAL ──────────────────────────────────────────────────────────

fn parse_epoch_number(toks: &Vec<Token>, i: usize) -> (r: Result<(u64, usize), ParseError>)
    requires
        well_ended(token_views(toks@)),
        i < toks@.len(),
    ensures
        agrees(r, p_epoch_number(token_views(toks@), i as int)),
        advances(r, i, toks@.len()),
{
    if !kw_at(toks, i, Keyword::Epoch) {
        return Err(err_expect(Keyword::Epoch, toks, i));
    }
    match nonneg_int_at(toks, i + 1) {
        Some(n) => Ok((n as u64, i + 2)),
        None => Err(err_got("expected epoch integer, got ", toks, i + 1)),
    }
}

fn parse_when(toks: &Vec<Token>, i: usize) -> (r: Result<(Option<WhenClause>, usize), ParseError>)
    requires
        well_ended(token_views(toks@)),
        i < toks@.len(),
    ensures
        agrees(r, p_when(token_views(toks@), i as int)),
        stays(r, i, toks@.len()),
{
    if !kw_at(toks, i, Keyword::When) {
        return Ok((None, i));
    }
    if kw_at(toks, i + 1, Keyword::At) {
        if !kw_at(toks, i + 2, Keyword::Epoch) {
            return Err(err_expect(Keyword::Epoch, toks, i + 2));
        }
        if kw_at(toks, i + 3, Keyword::Now) {
            return Ok((Some(WhenClause::AtEpoch(EpochRef::Now)), i + 4));
        }
        match nonneg_int_at(toks, i + 3) {
            Some(n) => Ok((Some(WhenClause::AtEpoch(EpochRef::Abs(n as u64))), i + 4)),
            None => Err(err_got("expected epoch integer or NOW, got ", toks, i + 3)),
        }
    } else if kw_at(toks, i + 1, Keyword::Before) {
        match parse_epoch_number(toks, i + 2) {
            Ok((n, j)) => Ok((Some(WhenClause::BeforeEpoch(n)), j)),
            Err(e) => Err(e),
        }
    } else if kw_at(toks, i + 1, Keyword::After) {
        match parse_epoch_number(toks, i + 2) {
            Ok((n, j)) => Ok((Some(WhenClause::AfterEpoch(n)), j)),
            Err(e) => Err(e),
        }
    } else {
        Err(err_got("expected AT/BEFORE/AFTER in WHEN clause, got ", toks, i + 1))
    }
}

fn parse_orbital(toks: &Vec<Token>, i: usize) -> (r: Result<(Option<OrbitalClause>, usize), ParseError>)
    requires
        well_ended(token_views(toks@)),
        i < toks@.len(),
    ensures
        agrees(r, p_orbital(token_views(toks@), i as int)),
        stays(r, i, toks@.len()),
{
    if !kw_at(toks, i, Keyword::Orbital) {
        return Ok((None, i));
    }
    if kw_at(toks, i + 1, Keyword::Now) {
        return Ok((Some(OrbitalClause::Now), i + 2));
    }
    match nonneg_int_at(toks, i + 1) {
        Some(start) => {
            if !kw_at(toks, i + 2, Keyword::DotDot) {
                return Err(err_expect(Keyword::DotDot, toks, i + 2));
            }
            match nonneg_int_at(toks, i + 3) {
                Some(end) => Ok((Some(OrbitalClause::Range { start: start as u64, end: end as u64 }), i + 4)),
                None => Err(err_got("expected end orbital (integer), got ", toks, i + 3)),
            }
        },
        None => Err(err_got("expected NOW or integer after ORBITAL, got ", toks, i + 1)),
    }
}

// ── WHY ─────────────────────────────────────────────────────────────────────

fn lane_named(w: &String) -> (l: Option<LaneValue>)
    ensures
        l == lane_of(w@),
{
    if string_is(w, "gold") {
        Some(LaneValue::Gold)
    } else if string_is(w, "silver") {
        Some(LaneValue::Silver)
    } else if string_is(w, "white") {
        Some(LaneValue::White)
    } else if string_is(w, "gray") {
        Some(LaneValue::Gray)
    } else if string_is(w, "red") {
        Some(LaneValue::Red)
    } else if string_is(w, "black") {
        Some(LaneValue::Black)
    } else {
        None
    }
}

fn parse_lane_value(toks: &Vec<Token>, i: usize) -> (r: Result<(LaneValue, usize), ParseError>)
    requires
        well_ended(token_views(toks@)),
        i < toks@.len(),
    ensures
        agrees(r, p_lane_value(token_views(toks@), i as int)),
        advances(r, i, toks@.len()),
{
    proof {
        lemma_ended(toks@);
    }
    let _n = toks.len();
    match &toks[i] {
        Token::Ident(s) => {
            let low = to_lowercase_string(s.as_str());
            match lane_named(&low) {
                Some(l) => Ok((l, i + 1)),
                None => {
                    let mut m = "unknown lane value: ".to_owned();
                    m.append(low.as_str());
                    Err(ParseError(m))
                },
            }
        },
        _ => Err(err_got("expected lane value (Gold/Silver/…), got ", toks, i)),
    }
}

fn byte_int_at(toks: &Vec<Token>, i: usize) -> (r: Option<u8>)
    requires
        well_ended(token_views(toks@)),
        i < toks@.len(),
    ensures
        r == byte_int(tk(token_views(toks@), i as int)),
        r is Some ==> i + 1 < toks@.len(),
        toks@.len() <= usize::MAX,
{
    proof {
        lemma_ended(toks@);
    }
    let _n = toks.len();
    match &toks[i] {
        Token::Int(n) => if 0 <= *n && *n <= 255 {
            Some(*n as u8)
        } else {
            None
        },
        _ => None,
    }
}

fn parse_why_cond(toks: &Vec<Token>, i: usize, c: Combinator) -> (r: Result<(WhyCondition, usize), ParseError>)
    requires
        well_ended(token_views(toks@)),
        i < toks@.len(),
    ensures
        agrees(r, p_why_cond(token_views(toks@), i as int, c)),
        advances(r, i, toks@.len()),
{
    proof {
        lemma_ended(toks@);
    }
    let _n = toks.len();
    match &toks[i] {
        Token::Kw(Keyword::Lane) => {
            let (op, j) = match parse_op(toks, i + 1) {
                Ok(p) => p,
                Err(e) => {
                    return Err(e);
                },
            };
            match parse_lane_value(toks, j) {
                Ok((val, k)) => Ok((WhyCondition::Lane { combinator: c, op, val }, k)),
                Err(e) => Err(e),
            }
        },
        Token::Kw(Keyword::QualityByte) => {
            let (op, j) = match parse_op(toks, i + 1) {
                Ok(p) => p,
                Err(e) => {
                    return Err(e);
                },
            };
            match byte_int_at(toks, j) {
                Some(val) => Ok((WhyCondition::QualityByte { combinator: c, op, val }, j + 1)),
                None => Err(err_got("expected quality_byte 0–255, got ", toks, j)),
            }
        },
        Token::Ident(s) => {
            let var = s.clone();
            if !kw_at(toks, i + 1, Keyword::LBracket) {
                return Err(err_expect(Keyword::LBracket, toks, i + 1));
            }
            let (attr, j) = match parse_dotted(toks, i + 2) {
                Ok(p) => p,
                Err(e) => {
                    return Err(e);
                },
            };
            if !kw_at(toks, j, Keyword::RBracket) {
                return Err(err_expect(Keyword::RBracket, toks, j));
            }
            if kw_at(toks, j + 1, Keyword::Not) {
                if kw_at(toks, j + 2, Keyword::Exists) {
                    Ok((WhyCondition::AttrNotExists { combinator: c, var, attr }, j + 3))
                } else {
                    Err(err_expect(Keyword::Exists, toks, j + 2))
                }
            } else if kw_at(toks, j + 1, Keyword::Exists) {
                Ok((WhyCondition::AttrExists { combinator: c, var, attr }, j + 2))
            } else {
                Err(err_expect(Keyword::Exists, toks, j + 1))
            }
        },
        _ => Err(err_got("expected WHY condition (LANE/QUALITY_BYTE/VarName), got ", toks, i)),
    }
}

fn parse_why(toks: &Vec<Token>, i: usize) -> (r: Result<(Vec<WhyCondition>, usize), ParseError>)
    requires
        well_ended(token_views(toks@)),
        i < toks@.len(),
    ensures
        agrees(r, p_why(token_views(toks@), i as int)),
        stays(r, i, toks@.len()),
{
    let ghost ts = token_views(toks@);
    if !kw_at(toks, i, Keyword::Why) {
        let none: Vec<WhyCondition> = Vec::new();
        assert(none.deep_view() =~= Seq::<WhyView>::empty());
        return Ok((none, i));
    }
    let (first, j0) = match parse_why_cond(toks, i + 1, Combinator::And) {
        Ok(p) => p,
        Err(e) => {
            return Err(e);
        },
    };
    let ghost fv = first.deep_view();
    let mut conds: Vec<WhyCondition> = Vec::new();
    conds.push(first);
    assert(conds.deep_view() =~= seq![fv]);
    let mut j = j0;
    loop
        invariant
            ts == token_views(toks@),
            well_ended(ts),
            i < j < toks@.len(),
            toks@.len() <= usize::MAX,
            is_kw(ts, i as int, Keyword::Why),
            p_why_cond(ts, i + 1, Combinator::And) == Ok::<(WhyView, int), Seq<char>>((fv, j0 as int)),
            p_why_rest(ts, j0 as int, seq![fv]) == p_why_rest(ts, j as int, conds.deep_view()),
        ensures
            i < j < toks@.len(),
            p_why_rest(ts, j0 as int, seq![fv]) == Ok::<(Seq<WhyView>, int), Seq<char>>((conds.deep_view(), j as int)),
        decreases toks@.len() - j,
    {
        proof {
            lemma_ended(toks@);
        }
        let step = match &toks[j] {
            Token::Kw(Keyword::And) => parse_why_cond(toks, j + 1, Combinator::And),
            Token::Kw(Keyword::Or) => parse_why_cond(toks, j + 1, Combinator::Or),
            Token::Kw(Keyword::Lane) => parse_why_cond(toks, j, Combinator::And),
            Token::Kw(Keyword::QualityByte) => parse_why_cond(toks, j, Combinator::And),
            _ => {
                break;
            },
        };
        match step {
            Ok((w, k)) => {
                let ghost wv = w.deep_view();
                let ghost before = conds.deep_view();
                conds.push(w);
                assert(conds.deep_view() =~= before.push(wv));
                j = k;
            },
            Err(e) => {
                return Err(e);
            },
        }
    }
    Ok((conds, j))
}

// ── TIER, STATE ────────────────────────────────────────────────────────────

fn tier_at(toks: &Vec<Token>, i: usize) -> (t: Option<StorageTier>)
    requires
        well_ended(token_views(toks@)),
        i < toks@.len(),
    ensures
        t == tier_of(tk(token_views(toks@), i as int)),
        t is Some ==> i + 1 < toks@.len(),
        toks@.len() <= usize::MAX,
{
    proof {
        lemma_ended(toks@);
    }
    let _n = toks.len();
    match &toks[i] {
        Token::Kw(Keyword::TierHot) => Some(StorageTier::Hot),
        Token::Kw(Keyword::TierWarm) => Some(StorageTier::Warm),
        Token::Kw(Keyword::TierCold) => Some(StorageTier::Cold),
        Token::Kw(Keyword::TierCrystallized) => Some(StorageTier::Crystallized),
        _ => None,
    }
}

fn parse_tier(toks: &Vec<Token>, i: usize) -> (r: Result<(Option<TierClause>, usize), ParseError>)
    requires
        well_ended(token_views(toks@)),
        i < toks@.len(),
    ensures
        agrees(r, p_tier(token_views(toks@), i as int)),
        stays(r, i, toks@.len()),
{
    let ghost ts = token_views(toks@);
    if !kw_at(toks, i, Keyword::Tier) {
        return Ok((None, i));
    }
    let first = match tier_at(toks, i + 1) {
        Some(t) => t,
        None => {
            return Err(err_got("expected tier value (HOT/WARM/COLD/CRYSTALLIZED), got ", toks, i + 1));
        },
    };
    let mut tiers: Vec<StorageTier> = Vec::new();
    tiers.push(first);
    assert(tiers.deep_view() =~= seq![first]);
    let mut j: usize = i + 2;
    while kw_at(toks, j, Keyword::Pipe)
        invariant
            ts == token_views(toks@),
            well_ended(ts),
            i < j < toks@.len(),
            is_kw(ts, i as int, Keyword::Tier),
            tier_of(tk(ts, i + 1)) == Some(first),
            p_tiers_rest(ts, (i + 2) as int, seq![first]) == p_tiers_rest(ts, j as int, tiers.deep_view()),
        decreases toks@.len() - j,
    {
        match tier_at(toks, j + 1) {
            Some(t) => {
                let ghost before = tiers.deep_view();
                tiers.push(t);
                assert(tiers.deep_view() =~= before.push(t));
                j = j + 2;
            },
            None => {
                return Err(err_got("expected tier value (HOT/WARM/COLD/CRYSTALLIZED), got ", toks, j + 1));
            },
        }
    }
    Ok((Some(TierClause { tiers }), j))
}

fn state_at(toks: &Vec<Token>, i: usize) -> (s: Option<LifecycleState>)
    requires
        well_ended(token_views(toks@)),
        i < toks@.len(),
    ensures
        s == state_of(tk(token_views(toks@), i as int)),
        s is Some ==> i + 1 < toks@.len(),
        toks@.len() <= usize::MAX,
{
    proof {
        lemma_ended(toks@);
    }
    let _n = toks.len();
    match &toks[i] {
        Token::Kw(Keyword::StateEmerging) => Some(LifecycleState::Emerging),
        Token::Kw(Keyword::StateStable) => Some(LifecycleState::Stable),
        Token::Kw(Keyword::StateCanonical) => Some(LifecycleState::Canonical),
        Token::Kw(Keyword::StateDeprecated) => Some(LifecycleState::Deprecated),
        _ => None,
    }
}

fn parse_state(toks: &Vec<Token>, i: usize) -> (r: Result<(Option<StateClause>, usize), ParseError>)
    requires
        well_ended(token_views(toks@)),
        i < toks@.len(),
    ensures
        agrees(r, p_state(token_views(toks@), i as int)),
        stays(r, i, toks@.len()),
{
    let ghost ts = token_views(toks@);
    if !kw_at(toks, i, Keyword::State) {
        return Ok((None, i));
    }
    let first = match state_at(toks, i + 1) {
        Some(t) => t,
        None => {
            return Err(
                err_got("expected lifecycle state (EMERGING/STABLE/CANONICAL/DEPRECATED), got ", toks, i + 1),
            );
        },
    };
    let mut states: Vec<LifecycleState> = Vec::new();
    states.push(first);
    assert(states.deep_view() =~= seq![first]);
    let mut j: usize = i + 2;
    while kw_at(toks, j, Keyword::Pipe)
        invariant
            ts == token_views(toks@),
            well_ended(ts),
            i < j < toks@.len(),
            is_kw(ts, i as int, Keyword::State),
            state_of(tk(ts, i + 1)) == Some(first),
            p_states_rest(ts, (i + 2) as int, seq![first]) == p_states_rest(ts, j as int, states.deep_view()),
        decreases toks@.len() - j,
    {
        match state_at(toks, j + 1) {
            Some(t) => {
                let ghost before = states.deep_view();
                states.push(t);
                assert(states.deep_view() =~= before.push(t));
                j = j + 2;
            },
            None => {
                return Err(
                    err_got("expected lifecycle state (EMERGING/STABLE/CANONICAL/DEPRECATED), got ", toks, j + 1),
                );
            },
        }
    }
    Ok((Some(StateClause { states }), j))
}


// ── NASH, PATTERN, LINEAGE, GATE, SATAMU ───────────────────────────────────

fn parse_nash(toks: &Vec<Token>, i: usize) -> (r: Result<(Option<NashClause>, usize), ParseError>)
    requires
        well_ended(token_views(toks@)),
        i < toks@.len(),
    ensures
        agrees(r, p_nash(token_views(toks@), i as int)),
        stays(r, i, toks@.len()),
{
    if !kw_at(toks, i, Keyword::Nash) {
        return Ok((None, i));
    }
    if kw_at(toks, i + 1, Keyword::NashBreaking) {
        return Ok((Some(NashClause::Breaking), i + 2));
    }
    if !kw_at(toks, i + 1, Keyword::NashScore) {
        return Err(err_got("expected SCORE or BREAKING after NASH, got ", toks, i + 1));
    }
    let (op, j) = match parse_op(toks, i + 2) {
        Ok(p) => p,
        Err(e) => {
            return Err(e);
        },
    };
    match number_text_at(toks, j) {
        Some(x) => Ok((Some(NashClause::Score { op, threshold: x }), j + 1)),
        None => Err(err_got("expected float threshold after NASH SCORE, got ", toks, j)),
    }
}

fn pattern_kind_at(toks: &Vec<Token>, i: usize) -> (k: Option<PatternKind>)
    requires
        well_ended(token_views(toks@)),
        i < toks@.len(),
    ensures
        k == pattern_kind_of(tk(token_views(toks@), i as int)),
        k is Some ==> i + 1 < toks@.len(),
        toks@.len() <= usize::MAX,
{
    proof {
        lemma_ended(toks@);
    }
    let _n = toks.len();
    match &toks[i] {
        Token::Kw(Keyword::PtCrowdFlow) => Some(PatternKind::CrowdFlow),
        Token::Kw(Keyword::PtAviationCorridor) => Some(PatternKind::AviationCorridor),
        Token::Kw(Keyword::PtAviationHolding) => Some(PatternKind::AviationHolding),
        Token::Kw(Keyword::PtIndoorHallway) => Some(PatternKind::IndoorHallway),
        Token::Kw(Keyword::PtIndoorRoom) => Some(PatternKind::IndoorRoom),
        Token::Kw(Keyword::PtIndoorTransition) => Some(PatternKind::IndoorTransition),
        Token::Kw(Keyword::PtWaterFlow) => Some(PatternKind::WaterFlow),
        Token::Kw(Keyword::PtCustom) => Some(PatternKind::Custom),
        _ => None,
    }
}

fn parse_pattern_cond(toks: &Vec<Token>, i: usize) -> (r: Result<(PatternCondition, usize), ParseError>)
    requires
        well_ended(token_views(toks@)),
        i < toks@.len(),
    ensures
        agrees(r, p_pattern_cond(token_views(toks@), i as int)),
        advances(r, i, toks@.len()),
{
    proof {
        lemma_ended(toks@);
    }
    let _n = toks.len();
    match &toks[i] {
        Token::Kw(Keyword::PatternType) => match pattern_kind_at(toks, i + 1) {
            Some(k) => Ok((PatternCondition::Type(k), i + 2)),
            None => Err(err_got("expected pattern type name (CrowdFlow/…), got ", toks, i + 1)),
        },
        Token::Kw(Keyword::PatternConfidence) => {
            let (op, j) = match parse_op(toks, i + 1) {
                Ok(p) => p,
                Err(e) => {
                    return Err(e);
                },
            };
            match number_text_at(toks, j) {
                Some(x) => Ok((PatternCondition::Confidence { op, value: x }, j + 1)),
                None => Err(err_got("expected float after PATTERN CONFIDENCE, got ", toks, j)),
            }
        },
        Token::Kw(Keyword::PatternConstituents) => {
            let (op, j) = match parse_op(toks, i + 1) {
                Ok(p) => p,
                Err(e) => {
                    return Err(e);
                },
            };
            match nonneg_int_at(toks, j) {
                Some(n) => Ok((PatternCondition::MaxConstituents { op, value: n as u32 }, j + 1)),
                None => Err(err_got("expected integer after PATTERN MAX_CONSTITUENTS, got ", toks, j)),
            }
        },
        _ => Err(err_got("expected TYPE/CONFIDENCE/MAX_CONSTITUENTS after PATTERN, got ", toks, i)),
    }
}

fn parse_patterns(toks: &Vec<Token>, i: usize) -> (r: Result<(Vec<PatternCondition>, usize), ParseError>)
    requires
        well_ended(token_views(toks@)),
        i < toks@.len(),
    ensures
        agrees(r, p_patterns_rest(token_views(toks@), i as int, Seq::empty())),
        stays(r, i, toks@.len()),
{
    let ghost ts = token_views(toks@);
    let mut conds: Vec<PatternCondition> = Vec::new();
    assert(conds.deep_view() =~= Seq::<PatternView>::empty());
    let mut j = i;
    while kw_at(toks, j, Keyword::Pattern)
        invariant
            ts == token_views(toks@),
            well_ended(ts),
            i <= j < toks@.len(),
            p_patterns_rest(ts, i as int, Seq::empty()) == p_patterns_rest(ts, j as int, conds.deep_view()),
        decreases toks@.len() - j,
    {
        match parse_pattern_cond(toks, j + 1) {
            Ok((c, k)) => {
                let ghost cv = c.deep_view();
                let ghost before = conds.deep_view();
                conds.push(c);
                assert(conds.deep_view() =~= before.push(cv));
                j = k;
            },
            Err(e) => {
                return Err(e);
            },
        }
    }
    Ok((conds, j))
}

fn parse_lineage(toks: &Vec<Token>, i: usize) -> (r: Result<(Option<LineageClause>, usize), ParseError>)
    requires
        well_ended(token_views(toks@)),
        i < toks@.len(),
    ensures
        agrees(r, p_lineage(token_views(toks@), i as int)),
        stays(r, i, toks@.len()),
{
    if !kw_at(toks, i, Keyword::Lineage) {
        return Ok((None, i));
    }
    if kw_at(toks, i + 1, Keyword::LineageFull) {
        return Ok((Some(LineageClause::Full), i + 2));
    }
    if !kw_at(toks, i + 1, Keyword::LineageDepth) {
        return Err(err_got("expected DEPTH or FULL after LINEAGE, got ", toks, i + 1));
    }
    match pos_int_at(toks, i + 2) {
        Some(n) => Ok((Some(LineageClause::Depth(n as u32)), i + 3)),
        None => Err(err_got("expected depth integer after LINEAGE DEPTH, got ", toks, i + 2)),
    }
}

fn parse_gate(toks: &Vec<Token>, i: usize) -> (r: Result<(Option<GateClause>, usize), ParseError>)
    requires
        well_ended(token_views(toks@)),
        i < toks@.len(),
    ensures
        agrees(r, p_gate(token_views(toks@), i as int)),
        stays(r, i, toks@.len()),
{
    let ghost ts = token_views(toks@);
    proof {
        lemma_ended(toks@);
    }
    if !kw_at(toks, i, Keyword::Gate) {
        return Ok((None, i));
    }
    if kw_at(toks, i + 1, Keyword::NodeAll) {
        let mut all: Vec<GateTarget> = Vec::new();
        all.push(GateTarget::All);
        assert(all.deep_view() =~= seq![GateView::All]);
        return Ok((Some(GateClause { gates: all }), i + 2));
    }
    let first = match &toks[i + 1] {
        Token::Ident(s) => s.clone(),
        _ => {
            return Err(err_got("expected gate name or ALL after GATE, got ", toks, i + 1));
        },
    };
    let ghost fv = first@;
    let mut gates: Vec<GateTarget> = Vec::new();
    gates.push(GateTarget::Named(first));
    assert(gates.deep_view() =~= seq![GateView::Named(fv)]);
    let mut j: usize = i + 2;
    while kw_at(toks, j, Keyword::Comma)
        invariant
            ts == token_views(toks@),
            well_ended(ts),
            i < j < toks@.len(),
            is_kw(ts, i as int, Keyword::Gate),
            !is_kw(ts, i + 1, Keyword::NodeAll),
            tk(ts, i + 1) == TokenView::Ident(fv),
            j == i + 2 || i + 2 < j,
            p_gates_rest(ts, (i + 2) as int, seq![GateView::Named(fv)]) == p_gates_rest(ts, j as int, gates.deep_view()),
        decreases toks@.len() - j,
    {
        proof {
            lemma_ended(toks@);
        }
        match &toks[j + 1] {
            Token::Ident(s) => {
                let ghost sv = s@;
                let ghost before = gates.deep_view();
                gates.push(GateTarget::Named(s.clone()));
                assert(gates.deep_view() =~= before.push(GateView::Named(sv)));
                j = j + 2;
            },
            _ => {
                return Err(err_got("expected gate name, got ", toks, j + 1));
            },
        }
    }
    Ok((Some(GateClause { gates }), j))
}

fn parse_satamu(toks: &Vec<Token>, i: usize) -> (r: Result<(Option<SatamuClause>, usize), ParseError>)
    requires
        well_ended(token_views(toks@)),
        i < toks@.len(),
    ensures
        agrees(r, p_satamu(token_views(toks@), i as int)),
        stays(r, i, toks@.len()),
{
    proof {
        lemma_ended(toks@);
    }
    if !kw_at(toks, i, Keyword::Satamu) {
        return Ok((None, i));
    }
    if kw_at(toks, i + 1, Keyword::SatamuRequired) {
        return Ok((Some(SatamuClause::Required), i + 2));
    }
    if !kw_at(toks, i + 1, Keyword::SatamuBypass) {
        return Err(err_got("expected REQUIRED or BYPASS after SATAMU, got ", toks, i + 1));
    }
    match &toks[i + 2] {
        Token::Str(s) => Ok((Some(SatamuClause::Bypass(s.clone())), i + 3)),
        _ => Err(err_got("expected string reason after SATAMU BYPASS, got ", toks, i + 2)),
    }
}

// ── HOW, HOW_MUCH, GRAVITY, MEASURE ────────────────────────────────────────

fn parse_sort_dir(toks: &Vec<Token>, i: usize) -> (r: (SortDir, usize))
    requires
        well_ended(token_views(toks@)),
        i < toks@.len(),
    ensures
        (r.0, r.1 as int) == p_sort_dir(token_views(toks@), i as int),
        i <= r.1 < toks@.len(),
{
    if kw_at(toks, i, Keyword::Desc) {
        (SortDir::Desc, i + 1)
    } else if kw_at(toks, i, Keyword::Asc) {
        (SortDir::Asc, i + 1)
    } else {
        (SortDir::Asc, i)
    }
}

fn parse_how(toks: &Vec<Token>, i: usize) -> (r: Result<(Option<HowClause>, usize), ParseError>)
    requires
        well_ended(token_views(toks@)),
        i < toks@.len(),
    ensures
        agrees(r, p_how(token_views(toks@), i as int)),
        stays(r, i, toks@.len()),
{
    if !kw_at(toks, i, Keyword::How) {
        return Ok((None, i));
    }
    if !kw_at(toks, i + 1, Keyword::By) {
        return Err(err_expect(Keyword::By, toks, i + 1));
    }
    let ((var, attr), j) = match parse_var_attr(toks, i + 2, "expected variable in HOW BY, got ") {
        Ok(p) => p,
        Err(e) => {
            return Err(e);
        },
    };
    let (dir, k) = parse_sort_dir(toks, j);
    Ok((Some(HowClause { var, attr, dir }), k))
}

fn parse_how_much(toks: &Vec<Token>, i: usize) -> (r: Result<(Option<HowMuchClause>, usize), ParseError>)
    requires
        well_ended(token_views(toks@)),
        i < toks@.len(),
    ensures
        agrees(r, p_how_much(token_views(toks@), i as int)),
        stays(r, i, toks@.len()),
{
    if !kw_at(toks, i, Keyword::HowMuch) {
        return Ok((None, i));
    }
    if kw_at(toks, i + 1, Keyword::Limit) {
        return match pos_int_at(toks, i + 2) {
            Some(n) => Ok((Some(HowMuchClause::Limit(n as usize)), i + 3)),
            None => Err(err_got("expected positive integer for LIMIT, got ", toks, i + 2)),
        };
    }
    if !kw_at(toks, i + 1, Keyword::Top) {
        return Err(err_got("expected LIMIT or TOP after HOW_MUCH, got ", toks, i + 1));
    }
    let n = match pos_int_at(toks, i + 2) {
        Some(n) => n,
        None => {
            return Err(err_got("expected positive integer for TOP, got ", toks, i + 2));
        },
    };
    if !kw_at(toks, i + 3, Keyword::By) {
        return Err(err_expect(Keyword::By, toks, i + 3));
    }
    let ((var, attr), j) = match parse_var_attr(toks, i + 4, "expected variable in TOP BY, got ") {
        Ok(p) => p,
        Err(e) => {
            return Err(e);
        },
    };
    let (dir, k) = parse_sort_dir(toks, j);
    Ok((Some(HowMuchClause::Top { n: n as usize, var, attr, dir }), k))
}

fn parse_measure(toks: &Vec<Token>, i: usize) -> (r: Result<(Option<MeasureClause>, usize), ParseError>)
    requires
        well_ended(token_views(toks@)),
        i < toks@.len(),
    ensures
        agrees(r, p_measure(token_views(toks@), i as int)),
        stays(r, i, toks@.len()),
{
    if !kw_at(toks, i, Keyword::Measure) {
        return Ok((None, i));
    }
    if kw_at(toks, i + 1, Keyword::Dense) {
        return Ok((Some(MeasureClause::Dense), i + 2));
    }
    let flux = kw_at(toks, i + 1, Keyword::Flux);
    if !flux && !kw_at(toks, i + 1, Keyword::RotorMean) {
        return Err(err_got("expected DENSE, FLUX, or ROTOR_MEAN after MEASURE, got ", toks, i + 1));
    }
    let ((var, attr), j) = match parse_var_attr(toks, i + 2, "expected variable name, got ") {
        Ok(p) => p,
        Err(e) => {
            return Err(e);
        },
    };
    if flux {
        Ok((Some(MeasureClause::Flux { var, attr }), j))
    } else {
        Ok((Some(MeasureClause::RotorMean { var, attr }), j))
    }
}

fn parse_gravity(toks: &Vec<Token>, i: usize) -> (r: Result<(Option<GravityClause>, usize), ParseError>)
    requires
        well_ended(token_views(toks@)),
        i < toks@.len(),
    ensures
        agrees(r, p_gravity(token_views(toks@), i as int)),
        stays(r, i, toks@.len()),
{
    if !kw_at(toks, i, Keyword::Gravity) {
        return Ok((None, i));
    }
    let ((var, attr), j) = match parse_var_attr(toks, i + 1, "expected variable name, got ") {
        Ok(p) => p,
        Err(e) => {
            return Err(e);
        },
    };
    let mode = if kw_at(toks, j, Keyword::Band) {
        match number_text_at(toks, j + 1) {
            Some(w) => {
                if !number_positive_at(toks, j + 1) {
                    let mut m = "GRAVITY BAND width must be positive, got ".to_owned();
                    m.append(w.as_str());
                    return Err(ParseError(m));
                }
                GravityMode::Band(w)
            },
            None => {
                return Err(err_got("expected numeric width after GRAVITY ... BAND, got ", toks, j + 1));
            },
        }
    } else if kw_at(toks, j, Keyword::MaxGroups) {
        match pos_int_at(toks, j + 1) {
            Some(n) => GravityMode::ExactMatchCapped(n as usize),
            None => {
                return Err(err_got("expected positive integer for MAX_GROUPS, got ", toks, j + 1));
            },
        }
    } else {
        return Err(
            err_got(
                "GRAVITY requires BAND <width> or MAX_GROUPS <n> -- exact-match grouping with no cap can grow its grouping structure toward O(N) memory on a high-cardinality attribute. got ",
                toks,
                j,
            ),
        );
    };
    Ok((Some(GravityClause { var, attr, mode }), j + 2))
}

// ── Execution hints ────────────────────────────────────────────────────────

fn parse_anchor(toks: &Vec<Token>, i: usize) -> (r: Result<(AnchorStrategy, usize), ParseError>)
    requires
        well_ended(token_views(toks@)),
        i < toks@.len(),
    ensures
        agrees(r, p_anchor(token_views(toks@), i as int)),
        stays(r, i, toks@.len()),
{
    proof {
        lemma_ended(toks@);
    }
    if !kw_at(toks, i, Keyword::Anchor) {
        return Ok((AnchorStrategy::Auto, i));
    }
    let a = match &toks[i + 1] {
        Token::Kw(Keyword::AnchorAuto) => AnchorStrategy::Auto,
        Token::Kw(Keyword::AnchorSurrogateTime) => AnchorStrategy::SurrogateTime,
        Token::Kw(Keyword::AnchorStateStation) => AnchorStrategy::StateStation,
        Token::Kw(Keyword::AnchorE7First) => AnchorStrategy::E7First,
        Token::Kw(Keyword::AnchorFullScan) => AnchorStrategy::FullScan,
        _ => {
            return Err(
                err_got(
                    "expected anchor strategy (AUTO/SURROGATE_TIME/STATE_STATION/E7_FIRST/FULL_SCAN), got ",
                    toks,
                    i + 1,
                ),
            );
        },
    };
    Ok((a, i + 2))
}

fn parse_stream(toks: &Vec<Token>, i: usize) -> (r: (bool, usize))
    requires
        well_ended(token_views(toks@)),
        i < toks@.len(),
    ensures
        (r.0, r.1 as int) == p_stream(token_views(toks@), i as int),
        i <= r.1 < toks@.len(),
{
    if kw_at(toks, i, Keyword::Stream) {
        (true, i + 1)
    } else {
        (false, i)
    }
}

fn parse_derive_station(toks: &Vec<Token>, i: usize) -> (r: Result<(Option<String>, usize), ParseError>)
    requires
        well_ended(token_views(toks@)),
        i < toks@.len(),
    ensures
        agrees(r, p_derive_station(token_views(toks@), i as int)),
        stays(r, i, toks@.len()),
{
    proof {
        lemma_ended(toks@);
    }
    if !kw_at(toks, i, Keyword::DeriveStation) {
        return Ok((None, i));
    }
    match &toks[i + 1] {
        Token::Ident(s) => Ok((Some(s.clone()), i + 2)),
        Token::Str(s) => Ok((Some(s.clone()), i + 2)),
        _ => Err(err_got("expected station name after DERIVE_STATION, got ", toks, i + 1)),
    }
}

fn parse_abort_scan(toks: &Vec<Token>, i: usize) -> (r: Result<(Option<u64>, usize), ParseError>)
    requires
        well_ended(token_views(toks@)),
        i < toks@.len(),
    ensures
        agrees(r, p_abort_scan(token_views(toks@), i as int)),
        stays(r, i, toks@.len()),
{
    if !kw_at(toks, i, Keyword::AbortScan) {
        return Ok((None, i));
    }
    match pos_int_at(toks, i + 1) {
        Some(n) => Ok((Some(n as u64), i + 2)),
        None => Err(err_got("expected positive integer for ABORT_SCAN, got ", toks, i + 1)),
    }
}

fn stage_at(toks: &Vec<Token>, i: usize) -> (s: Option<FilterStage>)
    requires
        well_ended(token_views(toks@)),
        i < toks@.len(),
    ensures
        s == stage_of(tk(token_views(toks@), i as int)),
        s is Some ==> i + 1 < toks@.len(),
        toks@.len() <= usize::MAX,
{
    proof {
        lemma_ended(toks@);
    }
    let _n = toks.len();
    match &toks[i] {
        Token::Kw(Keyword::FsSurrogateRange) => Some(FilterStage::SurrogateRange),
        Token::Kw(Keyword::FsOrbitalRange) => Some(FilterStage::OrbitalRange),
        Token::Kw(Keyword::FsState) => Some(FilterStage::State),
        Token::Kw(Keyword::FsDeriveStation) => Some(FilterStage::DeriveStation),
        Token::Kw(Keyword::FsLane) => Some(FilterStage::Lane),
        Token::Kw(Keyword::FsQualityByte) => Some(FilterStage::QualityByte),
        Token::Kw(Keyword::FsEavAttr) => Some(FilterStage::EavAttr),
        Token::Kw(Keyword::FsE7Region) => Some(FilterStage::E7Region),
        _ => None,
    }
}

fn parse_filter_order(toks: &Vec<Token>, i: usize) -> (r: Result<(Vec<FilterStage>, usize), ParseError>)
    requires
        well_ended(token_views(toks@)),
        i < toks@.len(),
    ensures
        agrees(r, p_filter_order(token_views(toks@), i as int)),
        stays(r, i, toks@.len()),
{
    let ghost ts = token_views(toks@);
    let mut stages: Vec<FilterStage> = Vec::new();
    assert(stages.deep_view() =~= Seq::<FilterStage>::empty());
    if !kw_at(toks, i, Keyword::FilterOrder) {
        return Ok((stages, i));
    }
    let mut j: usize = i + 1;
    loop
        invariant
            ts == token_views(toks@),
            well_ended(ts),
            i < j < toks@.len(),
            is_kw(ts, i as int, Keyword::FilterOrder),
            p_stages(ts, i + 1, Seq::empty()) == p_stages(ts, j as int, stages.deep_view()),
        ensures
            i < j < toks@.len(),
            p_stages(ts, i + 1, Seq::empty()) == (stages.deep_view(), j as int),
        decreases toks@.len() - j,
    {
        match stage_at(toks, j) {
            Some(s) => {
                let ghost before = stages.deep_view();
                stages.push(s);
                assert(stages.deep_view() =~= before.push(s));
                if kw_at(toks, j + 1, Keyword::Comma) {
                    j = j + 2;
                } else {
                    j = j + 1;
                }
            },
            None => {
                break;
            },
        }
    }
    if stages.len() == 0 {
        return Err(ParseError("FILTER_ORDER requires at least one stage".to_owned()));
    }
    Ok((stages, j))
}


// ── The query ───────────────────────────────────────────────────────────────

/// Every token list the lexer produces ends with `Eof`.
proof fn lemma_lex_ends(c: Seq<char>, i: int)
    requires
        lex_from(c, i) is Ok,
    ensures
        well_ended(lex_from(c, i)->Ok_0),
    decreases c.len() - i,
{
    if 0 <= i < c.len() {
        match lex_step(c, i) {
            LexStep::Skip(j) => {
                if i < j <= c.len() {
                    lemma_lex_ends(c, j);
                }
            },
            LexStep::Emit(t, j) => {
                if i < j <= c.len() {
                    lemma_lex_ends(c, j);
                }
            },
            LexStep::Fail(_) => {},
        }
    }
}

fn parse_head(toks: &Vec<Token>) -> (r: Result<
    (
        (
            Operation,
            Option<NodeClause>,
            Option<AcrossClause>,
            WhoClause,
            Option<WhatClause>,
            Vec<WhereCondition>,
            Option<WhenClause>,
            Option<OrbitalClause>,
            Vec<WhyCondition>,
        ),
        usize,
    ),
    ParseError,
>)
    requires
        well_ended(token_views(toks@)),
    ensures
        agrees(r, p_head(token_views(toks@))),
        stays(r, 0, toks@.len()),
{
    let (verb, i1) = parse_verb(toks, 0);
    let (node, i2) = match parse_node(toks, i1) {
        Ok(p) => p,
        Err(e) => {
            return Err(e);
        },
    };
    let (across, i3) = match parse_across(toks, i2) {
        Ok(p) => p,
        Err(e) => {
            return Err(e);
        },
    };
    let (who, i4) = match parse_who(toks, i3) {
        Ok(p) => p,
        Err(e) => {
            return Err(e);
        },
    };
    let (what, i5) = match parse_what(toks, i4) {
        Ok(p) => p,
        Err(e) => {
            return Err(e);
        },
    };
    let (wh, i6) = match parse_where(toks, i5) {
        Ok(p) => p,
        Err(e) => {
            return Err(e);
        },
    };
    let (when, i7) = match parse_when(toks, i6) {
        Ok(p) => p,
        Err(e) => {
            return Err(e);
        },
    };
    let (orbital, i8) = match parse_orbital(toks, i7) {
        Ok(p) => p,
        Err(e) => {
            return Err(e);
        },
    };
    let (why, i9) = match parse_why(toks, i8) {
        Ok(p) => p,
        Err(e) => {
            return Err(e);
        },
    };
    Ok(((verb, node, across, who, what, wh, when, orbital, why), i9))
}

fn parse_filters(toks: &Vec<Token>, i: usize) -> (r: Result<
    (
        (
            Option<TierClause>,
            Option<StateClause>,
            Option<NashClause>,
            Vec<PatternCondition>,
            Option<LineageClause>,
            Option<GateClause>,
            Option<SatamuClause>,
        ),
        usize,
    ),
    ParseError,
>)
    requires
        well_ended(token_views(toks@)),
        i < toks@.len(),
    ensures
        agrees(r, p_filters(token_views(toks@), i as int)),
        stays(r, i, toks@.len()),
{
    let (tier, i1) = match parse_tier(toks, i) {
        Ok(p) => p,
        Err(e) => {
            return Err(e);
        },
    };
    let (state, i2) = match parse_state(toks, i1) {
        Ok(p) => p,
        Err(e) => {
            return Err(e);
        },
    };
    let (nash, i3) = match parse_nash(toks, i2) {
        Ok(p) => p,
        Err(e) => {
            return Err(e);
        },
    };
    let (pattern, i4) = match parse_patterns(toks, i3) {
        Ok(p) => p,
        Err(e) => {
            return Err(e);
        },
    };
    let (lineage, i5) = match parse_lineage(toks, i4) {
        Ok(p) => p,
        Err(e) => {
            return Err(e);
        },
    };
    let (gate, i6) = match parse_gate(toks, i5) {
        Ok(p) => p,
        Err(e) => {
            return Err(e);
        },
    };
    let (satamu, i7) = match parse_satamu(toks, i6) {
        Ok(p) => p,
        Err(e) => {
            return Err(e);
        },
    };
    Ok(((tier, state, nash, pattern, lineage, gate, satamu), i7))
}

fn parse_tail(toks: &Vec<Token>, i: usize) -> (r: Result<
    (
        (
            Option<HowClause>,
            Option<HowMuchClause>,
            Option<GravityClause>,
            Option<MeasureClause>,
            AnchorStrategy,
            bool,
            Option<String>,
            Option<u64>,
            Vec<FilterStage>,
        ),
        usize,
    ),
    ParseError,
>)
    requires
        well_ended(token_views(toks@)),
        i < toks@.len(),
    ensures
        agrees(r, p_tail(token_views(toks@), i as int)),
        stays(r, i, toks@.len()),
{
    let (how, i1) = match parse_how(toks, i) {
        Ok(p) => p,
        Err(e) => {
            return Err(e);
        },
    };
    let (how_much, i2) = match parse_how_much(toks, i1) {
        Ok(p) => p,
        Err(e) => {
            return Err(e);
        },
    };
    let (gravity, i3) = match parse_gravity(toks, i2) {
        Ok(p) => p,
        Err(e) => {
            return Err(e);
        },
    };
    let (measure, i4) = match parse_measure(toks, i3) {
        Ok(p) => p,
        Err(e) => {
            return Err(e);
        },
    };
    let (anchor, i5) = match parse_anchor(toks, i4) {
        Ok(p) => p,
        Err(e) => {
            return Err(e);
        },
    };
    let (stream, i6) = parse_stream(toks, i5);
    let (derive_station, i7) = match parse_derive_station(toks, i6) {
        Ok(p) => p,
        Err(e) => {
            return Err(e);
        },
    };
    let (abort_scan, i8) = match parse_abort_scan(toks, i7) {
        Ok(p) => p,
        Err(e) => {
            return Err(e);
        },
    };
    let (filter_order, i9) = match parse_filter_order(toks, i8) {
        Ok(p) => p,
        Err(e) => {
            return Err(e);
        },
    };
    Ok(((how, how_much, gravity, measure, anchor, stream, derive_station, abort_scan, filter_order), i9))
}

/// Parses a token list that ends with `Eof` into a query (see `p_query`).
pub fn parse_tokens(toks: &Vec<Token>) -> (r: Result<HeptaQuery, ParseError>)
    requires
        well_ended(token_views(toks@)),
    ensures
        match r {
            Ok(q) => p_query(token_views(toks@)) == Ok::<QueryView, Seq<char>>(q.deep_view()),
            Err(e) => p_query(token_views(toks@)) == Err::<QueryView, Seq<char>>(e.0@),
        },
{
    let (h, i) = match parse_head(toks) {
        Ok(p) => p,
        Err(e) => {
            return Err(e);
        },
    };
    let (f, j) = match parse_filters(toks, i) {
        Ok(p) => p,
        Err(e) => {
            return Err(e);
        },
    };
    let (t, _k) = match parse_tail(toks, j) {
        Ok(p) => p,
        Err(e) => {
            return Err(e);
        },
    };
    let (verb, node, across, who, what, where_conditions, when, orbital, why) = h;
    let (tier, state, nash, pattern, lineage, gate, satamu) = f;
    let (how, how_much, gravity, measure, anchor, stream, derive_station, abort_scan, filter_order) = t;
    let tribes: Vec<String> = Vec::new();
    assert(tribes.deep_view() =~= Seq::<Seq<char>>::empty());
    Ok(
        HeptaQuery {
            verb,
            node,
            across,
            who,
            what,
            where_conditions,
            when,
            why,
            how,
            how_much,
            tier,
            state,
            nash,
            pattern,
            lineage,
            gate,
            satamu,
            orbital,
            measure,
            gravity,
            tribes,
            anchor,
            stream,
            derive_station,
            abort_scan,
            filter_order,
        },
    )
}

/// Parses a HeptaScript source text into a `HeptaQuery`: the lexer's
/// error, or the grammar's query or first error (see `query_of`).
pub fn parse_query(source: &str) -> (r: Result<HeptaQuery, ParseError>)
    ensures
        match r {
            Ok(q) => query_of(source@) == Ok::<QueryView, Seq<char>>(q.deep_view()),
            Err(e) => query_of(source@) == Err::<QueryView, Seq<char>>(e.0@),
        },
{
    let toks = match tokenize(source) {
        Ok(t) => t,
        Err(m) => {
            return Err(ParseError(m));
        },
    };
    proof {
        lemma_lex_ends(source@, 0);
    }
    parse_tokens(&toks)
}

} // verus!
