//! The grammar of HeptaScript v2.0 W5H2 queries, as functions from a token
//! list and a position to the clause read there and the position after it,
//! or the message of the first error. The parser follows it exactly.
//!
//! ```text
//! query     := verb? node? across? who what? where? when? orbital? why?
//!              tier? state? nash? pattern* lineage? gate? satamu?
//!              how? how_much? gravity? measure?
//!              anchor? STREAM? derive_station? abort_scan? filter_order?
//! node      := NODE db_target (| db_target)*
//! across    := ACROSS (BIGRING Ident | ALL)
//! who       := WHO Tribe.Var (BOUND_TO Tribe.Var)*
//! what      := WHAT Var[attrs] (, Var[attrs])*
//! where     := WHERE cond ((AND|OR)? cond)*
//! when      := WHEN (AT EPOCH (N|NOW) | BEFORE EPOCH N | AFTER EPOCH N)
//! orbital   := ORBITAL (N .. N | NOW)
//! why       := WHY why_cond ((AND|OR)? why_cond)*
//! tier      := TIER tier_val (| tier_val)*
//! state     := STATE state_val (| state_val)*
//! nash      := NASH (SCORE op number | BREAKING)
//! pattern   := PATTERN (TYPE kind | CONFIDENCE op number | MAX_CONSTITUENTS op N)
//! lineage   := LINEAGE (DEPTH N | FULL)
//! gate      := GATE (Ident (, Ident)* | ALL)
//! satamu    := SATAMU (REQUIRED | BYPASS Str)
//! how       := HOW BY Var[attr] (ASC|DESC)?
//! how_much  := HOW_MUCH (LIMIT N | TOP N BY Var[attr] (ASC|DESC)?)
//! gravity   := GRAVITY Var[attr] (BAND number | MAX_GROUPS N)
//! measure   := MEASURE (DENSE | FLUX Var[attr] | ROTOR_MEAN Var[attr])
//! ```

use vstd::prelude::*;
use crate::heptascript::operations::Operation;
use crate::heptascript::query::{
    AcrossView, AnchorStrategy, BindingView, Combinator, DbTarget, EpochRef, FilterStage, GateView,
    GravityModeView, GravityView, HowMuchView, HowView, LaneValue, LifecycleState, LineageClause,
    MeasureView, NashView, Op, OrbitalClause, PatternKind, PatternView, ProjectionView, QueryView,
    SatamuView, SortDir, StorageTier, TestView, ValueView, WhenClause, WhereView, WhoView, WhyView,
};
use crate::heptascript::token::{lex, Keyword, TokenView};
use crate::text::{lowercase_of, signed_decimal};

verus! {

/// A clause read at a position and the position after it, or an error
/// message.
pub type Parsed<T> = Result<(T, int), Seq<char>>;

/// The token at `i`; past either end, `Eof`.
pub open spec fn tk(ts: Seq<TokenView>, i: int) -> TokenView {
    if 0 <= i < ts.len() {
        ts[i]
    } else {
        TokenView::Eof
    }
}

/// Whether the token at `i` is the keyword `k`.
pub open spec fn is_kw(ts: Seq<TokenView>, i: int, k: Keyword) -> bool {
    tk(ts, i) == TokenView::Kw(k)
}

/// A token list as the lexer leaves it: not empty, ending with `Eof`.
pub open spec fn well_ended(ts: Seq<TokenView>) -> bool {
    ts.len() > 0 && ts.last() == TokenView::Eof
}

/// The name of a keyword token as the lexer's token list spells it.
pub open spec fn keyword_name(k: Keyword) -> Seq<char> {
    match k {
        Keyword::Who => "Who"@,
        Keyword::What => "What"@,
        Keyword::Where => "Where"@,
        Keyword::When => "When"@,
        Keyword::Why => "Why"@,
        Keyword::How => "How"@,
        Keyword::HowMuch => "HowMuch"@,
        Keyword::VerbOrbit => "VerbOrbit"@,
        Keyword::VerbEmit => "VerbEmit"@,
        Keyword::VerbProve => "VerbProve"@,
        Keyword::VerbSync => "VerbSync"@,
        Keyword::VerbWitness => "VerbWitness"@,
        Keyword::Node => "Node"@,
        Keyword::Across => "Across"@,
        Keyword::Tier => "Tier"@,
        Keyword::State => "State"@,
        Keyword::Nash => "Nash"@,
        Keyword::Pattern => "Pattern"@,
        Keyword::Lineage => "Lineage"@,
        Keyword::Gate => "Gate"@,
        Keyword::Satamu => "Satamu"@,
        Keyword::NodeAll => "NodeAll"@,
        Keyword::DbEnkiDb => "DbEnkiDb"@,
        Keyword::DbEnkiDw => "DbEnkiDw"@,
        Keyword::DbEnkiSdb => "DbEnkiSdb"@,
        Keyword::DbEnkiOdb => "DbEnkiOdb"@,
        Keyword::DbEnkiQdb => "DbEnkiQdb"@,
        Keyword::DbEnkiMdb => "DbEnkiMdb"@,
        Keyword::DbEnkiDdb => "DbEnkiDdb"@,
        Keyword::DbNarudu => "DbNarudu"@,
        Keyword::DbEnkiPattern => "DbEnkiPattern"@,
        Keyword::Pipe => "Pipe"@,
        Keyword::Bigring => "Bigring"@,
        Keyword::TierHot => "TierHot"@,
        Keyword::TierWarm => "TierWarm"@,
        Keyword::TierCold => "TierCold"@,
        Keyword::TierCrystallized => "TierCrystallized"@,
        Keyword::StateEmerging => "StateEmerging"@,
        Keyword::StateStable => "StateStable"@,
        Keyword::StateCanonical => "StateCanonical"@,
        Keyword::StateDeprecated => "StateDeprecated"@,
        Keyword::NashScore => "NashScore"@,
        Keyword::NashBreaking => "NashBreaking"@,
        Keyword::PatternType => "PatternType"@,
        Keyword::PatternConfidence => "PatternConfidence"@,
        Keyword::PatternConstituents => "PatternConstituents"@,
        Keyword::PtCrowdFlow => "PtCrowdFlow"@,
        Keyword::PtAviationCorridor => "PtAviationCorridor"@,
        Keyword::PtAviationHolding => "PtAviationHolding"@,
        Keyword::PtIndoorHallway => "PtIndoorHallway"@,
        Keyword::PtIndoorRoom => "PtIndoorRoom"@,
        Keyword::PtIndoorTransition => "PtIndoorTransition"@,
        Keyword::PtWaterFlow => "PtWaterFlow"@,
        Keyword::PtCustom => "PtCustom"@,
        Keyword::LineageDepth => "LineageDepth"@,
        Keyword::LineageFull => "LineageFull"@,
        Keyword::SatamuRequired => "SatamuRequired"@,
        Keyword::SatamuBypass => "SatamuBypass"@,
        Keyword::Orbital => "Orbital"@,
        Keyword::DotDot => "DotDot"@,
        Keyword::Anchor => "Anchor"@,
        Keyword::AnchorAuto => "AnchorAuto"@,
        Keyword::AnchorSurrogateTime => "AnchorSurrogateTime"@,
        Keyword::AnchorStateStation => "AnchorStateStation"@,
        Keyword::AnchorE7First => "AnchorE7First"@,
        Keyword::AnchorFullScan => "AnchorFullScan"@,
        Keyword::Stream => "Stream"@,
        Keyword::DeriveStation => "DeriveStation"@,
        Keyword::AbortScan => "AbortScan"@,
        Keyword::FilterOrder => "FilterOrder"@,
        Keyword::FsSurrogateRange => "FsSurrogateRange"@,
        Keyword::FsOrbitalRange => "FsOrbitalRange"@,
        Keyword::FsState => "FsState"@,
        Keyword::FsDeriveStation => "FsDeriveStation"@,
        Keyword::FsLane => "FsLane"@,
        Keyword::FsQualityByte => "FsQualityByte"@,
        Keyword::FsEavAttr => "FsEavAttr"@,
        Keyword::FsE7Region => "FsE7Region"@,
        Keyword::BoundTo => "BoundTo"@,
        Keyword::At => "At"@,
        Keyword::Epoch => "Epoch"@,
        Keyword::Before => "Before"@,
        Keyword::After => "After"@,
        Keyword::Now => "Now"@,
        Keyword::Lane => "Lane"@,
        Keyword::QualityByte => "QualityByte"@,
        Keyword::By => "By"@,
        Keyword::Asc => "Asc"@,
        Keyword::Desc => "Desc"@,
        Keyword::Limit => "Limit"@,
        Keyword::Top => "Top"@,
        Keyword::Measure => "Measure"@,
        Keyword::Dense => "Dense"@,
        Keyword::Flux => "Flux"@,
        Keyword::RotorMean => "RotorMean"@,
        Keyword::Gravity => "Gravity"@,
        Keyword::Band => "Band"@,
        Keyword::MaxGroups => "MaxGroups"@,
        Keyword::And => "And"@,
        Keyword::Or => "Or"@,
        Keyword::Not => "Not"@,
        Keyword::Exists => "Exists"@,
        Keyword::Eq => "Eq"@,
        Keyword::Neq => "Neq"@,
        Keyword::Gt => "Gt"@,
        Keyword::Lt => "Lt"@,
        Keyword::Gte => "Gte"@,
        Keyword::Lte => "Lte"@,
        Keyword::Dot => "Dot"@,
        Keyword::Comma => "Comma"@,
        Keyword::Star => "Star"@,
        Keyword::LBracket => "LBracket"@,
        Keyword::RBracket => "RBracket"@,
        Keyword::Route => "Route"@,
        Keyword::Index => "Index"@,
        Keyword::Modular => "Modular"@,
        Keyword::AttrWeight => "AttrWeight"@,
        Keyword::AttrLevel => "AttrLevel"@,
        Keyword::AttrSignature => "AttrSignature"@,
        Keyword::AttrTotalMass => "AttrTotalMass"@,
        Keyword::AttrPeakCost => "AttrPeakCost"@,
    }
}
/// How a token is shown in an error message.
pub open spec fn token_debug(t: TokenView) -> Seq<char> {
    match t {
        TokenView::Kw(k) => keyword_name(k),
        TokenView::Ident(s) => "Ident(\""@ + s + "\")"@,
        TokenView::Str(s) => "Str(\""@ + s + "\")"@,
        TokenView::Int(n) => "Int("@ + signed_decimal(n as int) + ")"@,
        TokenView::Float(f) => "Float("@ + f + ")"@,
        TokenView::Eof => "Eof"@,
    }
}

/// `prefix` followed by how the token at `i` is shown.
pub open spec fn got(prefix: Seq<char>, ts: Seq<TokenView>, i: int) -> Seq<char> {
    prefix + token_debug(tk(ts, i))
}

/// The message when the keyword `k` was expected at `i`.
pub open spec fn expect_msg(k: Keyword, ts: Seq<TokenView>, i: int) -> Seq<char> {
    got("expected "@ + keyword_name(k) + ", got "@, ts, i)
}

/// A non-negative integer literal.
pub open spec fn nonneg_int(t: TokenView) -> Option<i64> {
    match t {
        TokenView::Int(n) => if n >= 0 { Some(n) } else { None },
        _ => None,
    }
}

/// A positive integer literal.
pub open spec fn pos_int(t: TokenView) -> Option<i64> {
    match t {
        TokenView::Int(n) => if n > 0 { Some(n) } else { None },
        _ => None,
    }
}

/// A number literal as decimal text: a decimal as written, an integer in
/// decimal.
pub open spec fn number_text(t: TokenView) -> Option<Seq<char>> {
    match t {
        TokenView::Float(f) => Some(f),
        TokenView::Int(n) => Some(signed_decimal(n as int)),
        _ => None,
    }
}

/// A decimal digit other than `0`.
pub open spec fn nonzero_digit(c: char) -> bool {
    '1' <= c && c <= '9'
}

/// Whether a decimal text has a digit other than `0`.
pub open spec fn has_nonzero_digit(f: Seq<char>) -> bool {
    exists|k: int| 0 <= k < f.len() && #[trigger] nonzero_digit(f[k])
}

/// Whether a number literal is above zero: an integer above zero, or a
/// decimal with a digit other than `0`.
pub open spec fn number_positive(t: TokenView) -> bool {
    match t {
        TokenView::Int(n) => n > 0,
        TokenView::Float(f) => has_nonzero_digit(f),
        _ => false,
    }
}

// ── Verb, NODE, ACROSS ─────────────────────────────────────────────────────

/// The sovereign verb a token names.
pub open spec fn verb_of(t: TokenView) -> Option<Operation> {
    match t {
        TokenView::Kw(Keyword::VerbOrbit) => Some(Operation::Orbit),
        TokenView::Kw(Keyword::VerbEmit) => Some(Operation::Emit),
        TokenView::Kw(Keyword::VerbProve) => Some(Operation::Prove),
        TokenView::Kw(Keyword::VerbSync) => Some(Operation::Sync),
        TokenView::Kw(Keyword::VerbWitness) => Some(Operation::Witness),
        _ => None,
    }
}

/// The optional leading verb; absent means ORBIT.
pub open spec fn p_verb(ts: Seq<TokenView>, i: int) -> (Operation, int) {
    match verb_of(tk(ts, i)) {
        Some(v) => (v, i + 1),
        None => (Operation::Orbit, i),
    }
}

/// The database target a token names.
pub open spec fn db_target_of(t: TokenView) -> Option<DbTarget> {
    match t {
        TokenView::Kw(Keyword::NodeAll) => Some(DbTarget::All),
        TokenView::Kw(Keyword::DbEnkiDb) => Some(DbTarget::EnkiDb),
        TokenView::Kw(Keyword::DbEnkiDw) => Some(DbTarget::EnkiDw),
        TokenView::Kw(Keyword::DbEnkiSdb) => Some(DbTarget::EnkiSdb),
        TokenView::Kw(Keyword::DbEnkiOdb) => Some(DbTarget::EnkiOdb),
        TokenView::Kw(Keyword::DbEnkiQdb) => Some(DbTarget::EnkiQdb),
        TokenView::Kw(Keyword::DbEnkiMdb) => Some(DbTarget::EnkiMdb),
        TokenView::Kw(Keyword::DbEnkiDdb) => Some(DbTarget::EnkiDdb),
        TokenView::Kw(Keyword::DbNarudu) => Some(DbTarget::Narudu),
        TokenView::Kw(Keyword::DbEnkiPattern) => Some(DbTarget::EnkiPattern),
        _ => None,
    }
}

/// One database target.
pub open spec fn p_db_target(ts: Seq<TokenView>, i: int) -> Parsed<DbTarget> {
    match db_target_of(tk(ts, i)) {
        Some(d) => Ok((d, i + 1)),
        None => Err(got("expected a database target (EnkiDB/EnkiMDB/NARUDU/ALL/…), got "@, ts, i)),
    }
}

/// Further `| target`s after `acc`.
pub open spec fn p_db_targets_rest(ts: Seq<TokenView>, i: int, acc: Seq<DbTarget>) -> Parsed<Seq<DbTarget>>
    decreases ts.len() - i,
{
    if is_kw(ts, i, Keyword::Pipe) {
        match db_target_of(tk(ts, i + 1)) {
            Some(d) => p_db_targets_rest(ts, i + 2, acc.push(d)),
            None => Err(got("expected a database target (EnkiDB/EnkiMDB/NARUDU/ALL/…), got "@, ts, i + 1)),
        }
    } else {
        Ok((acc, i))
    }
}

/// The optional NODE clause.
pub open spec fn p_node(ts: Seq<TokenView>, i: int) -> Parsed<Option<Seq<DbTarget>>> {
    if !is_kw(ts, i, Keyword::Node) {
        Ok((None, i))
    } else {
        match p_db_target(ts, i + 1) {
            Ok((d, j)) => match p_db_targets_rest(ts, j, seq![d]) {
                Ok((v, k)) => Ok((Some(v), k)),
                Err(e) => Err(e),
            },
            Err(e) => Err(e),
        }
    }
}

/// The optional ACROSS clause.
pub open spec fn p_across(ts: Seq<TokenView>, i: int) -> Parsed<Option<AcrossView>> {
    if !is_kw(ts, i, Keyword::Across) {
        Ok((None, i))
    } else if is_kw(ts, i + 1, Keyword::Bigring) {
        match tk(ts, i + 2) {
            TokenView::Ident(s) => Ok((Some(AcrossView::Bigring(s)), i + 3)),
            _ => Err(got("expected client name after BIGRING, got "@, ts, i + 2)),
        }
    } else if is_kw(ts, i + 1, Keyword::NodeAll) {
        Ok((Some(AcrossView::All), i + 2))
    } else {
        Err(got("expected BIGRING or ALL after ACROSS, got "@, ts, i + 1))
    }
}

// ── WHO ─────────────────────────────────────────────────────────────────────

/// `Tribe.Var`.
pub open spec fn p_binding(ts: Seq<TokenView>, i: int) -> Parsed<BindingView> {
    match tk(ts, i) {
        TokenView::Ident(tribe) => if !is_kw(ts, i + 1, Keyword::Dot) {
            Err(expect_msg(Keyword::Dot, ts, i + 1))
        } else {
            match tk(ts, i + 2) {
                TokenView::Ident(var) => Ok((BindingView { tribe, var }, i + 3)),
                _ => Err(got("expected variable name (Ident), got "@, ts, i + 2)),
            }
        },
        _ => Err(got("expected tribe name (Ident), got "@, ts, i)),
    }
}

/// Further `BOUND_TO Tribe.Var`s after `acc`.
pub open spec fn p_bound_rest(ts: Seq<TokenView>, i: int, acc: Seq<BindingView>) -> Parsed<Seq<BindingView>>
    decreases ts.len() - i,
{
    if is_kw(ts, i, Keyword::BoundTo) {
        match p_binding(ts, i + 1) {
            Ok((b, j)) => if i < j <= ts.len() {
                p_bound_rest(ts, j, acc.push(b))
            } else {
                Err(Seq::empty())
            },
            Err(e) => Err(e),
        }
    } else {
        Ok((acc, i))
    }
}

/// The WHO clause.
pub open spec fn p_who(ts: Seq<TokenView>, i: int) -> Parsed<WhoView> {
    if !is_kw(ts, i, Keyword::Who) {
        Err(expect_msg(Keyword::Who, ts, i))
    } else {
        match p_binding(ts, i + 1) {
            Ok((p, j)) => match p_bound_rest(ts, j, Seq::empty()) {
                Ok((b, k)) => Ok((WhoView { primary: p, bound_to: b }, k)),
                Err(e) => Err(e),
            },
            Err(e) => Err(e),
        }
    }
}

// ── Attribute names, WHAT ──────────────────────────────────────────────────

/// The attribute name a keyword stands for inside `[...]`.
pub open spec fn keyword_attr(k: Keyword) -> Option<Seq<char>> {
    match k {
        Keyword::NashScore => Some("score"@),
        Keyword::LineageFull => Some("full"@),
        Keyword::PatternType => Some("type"@),
        Keyword::LineageDepth => Some("depth"@),
        Keyword::NashBreaking => Some("breaking"@),
        Keyword::SatamuRequired => Some("required"@),
        Keyword::SatamuBypass => Some("bypass"@),
        Keyword::TierHot => Some("hot"@),
        Keyword::TierWarm => Some("warm"@),
        Keyword::TierCold => Some("cold"@),
        Keyword::TierCrystallized => Some("crystallized"@),
        Keyword::StateEmerging => Some("emerging"@),
        Keyword::StateStable => Some("stable"@),
        Keyword::StateCanonical => Some("canonical"@),
        Keyword::StateDeprecated => Some("deprecated"@),
        Keyword::PatternConfidence => Some("confidence"@),
        Keyword::PatternConstituents => Some("max_constituents"@),
        Keyword::Tier => Some("tier"@),
        Keyword::State => Some("state"@),
        Keyword::Nash => Some("nash"@),
        Keyword::Pattern => Some("pattern"@),
        Keyword::Lineage => Some("lineage"@),
        Keyword::Gate => Some("gate"@),
        Keyword::Satamu => Some("satamu"@),
        Keyword::Node => Some("node"@),
        Keyword::Across => Some("across"@),
        Keyword::Orbital => Some("orbital"@),
        Keyword::VerbOrbit => Some("orbit"@),
        Keyword::VerbEmit => Some("emit"@),
        Keyword::VerbProve => Some("prove"@),
        Keyword::VerbSync => Some("sync"@),
        Keyword::VerbWitness => Some("witness"@),
        Keyword::Lane => Some("lane"@),
        Keyword::By => Some("by"@),
        Keyword::Top => Some("top"@),
        Keyword::Asc => Some("asc"@),
        Keyword::Desc => Some("desc"@),
        _ => None,
    }
}

/// A word-like token as an attribute name: an identifier, or a keyword
/// that commonly names an attribute.
pub open spec fn attr_word(t: TokenView) -> Option<Seq<char>> {
    match t {
        TokenView::Ident(s) => Some(s),
        TokenView::Kw(k) => keyword_attr(k),
        _ => None,
    }
}

/// Further `.part`s of a dotted name after `acc`.
pub open spec fn p_dotted_rest(ts: Seq<TokenView>, i: int, acc: Seq<char>) -> Parsed<Seq<char>>
    decreases ts.len() - i,
{
    if is_kw(ts, i, Keyword::Dot) {
        match attr_word(tk(ts, i + 1)) {
            Some(p) => p_dotted_rest(ts, i + 2, acc + "."@ + p),
            None => Err(got("expected attribute name, got "@, ts, i + 1)),
        }
    } else {
        Ok((acc, i))
    }
}

/// A dotted attribute name `a.b.c`.
pub open spec fn p_dotted(ts: Seq<TokenView>, i: int) -> Parsed<Seq<char>> {
    match attr_word(tk(ts, i)) {
        Some(f) => p_dotted_rest(ts, i + 1, f),
        None => Err(got("expected attribute name, got "@, ts, i)),
    }
}

/// Further `, name`s of an attribute list after `acc`.
pub open spec fn p_attrs_rest(ts: Seq<TokenView>, i: int, acc: Seq<Seq<char>>) -> Parsed<Seq<Seq<char>>>
    decreases ts.len() - i,
{
    if is_kw(ts, i, Keyword::Comma) {
        match p_dotted(ts, i + 1) {
            Ok((a, j)) => if i < j <= ts.len() {
                p_attrs_rest(ts, j, acc.push(a))
            } else {
                Err(Seq::empty())
            },
            Err(e) => Err(e),
        }
    } else {
        Ok((acc, i))
    }
}

/// The inside of a projection's brackets: `*` (every attribute, an empty
/// list) or a list of dotted names.
pub open spec fn p_attr_list(ts: Seq<TokenView>, i: int) -> Parsed<Seq<Seq<char>>> {
    if is_kw(ts, i, Keyword::Star) {
        Ok((Seq::empty(), i + 1))
    } else {
        match p_dotted(ts, i) {
            Ok((a, j)) => p_attrs_rest(ts, j, seq![a]),
            Err(e) => Err(e),
        }
    }
}

/// One projection `Var[attrs]`.
pub open spec fn p_projection(ts: Seq<TokenView>, i: int) -> Parsed<ProjectionView> {
    match tk(ts, i) {
        TokenView::Ident(var) => if !is_kw(ts, i + 1, Keyword::LBracket) {
            Err(expect_msg(Keyword::LBracket, ts, i + 1))
        } else {
            match p_attr_list(ts, i + 2) {
                Ok((attrs, j)) => if is_kw(ts, j, Keyword::RBracket) {
                    Ok((ProjectionView { var, attrs }, j + 1))
                } else {
                    Err(expect_msg(Keyword::RBracket, ts, j))
                },
                Err(e) => Err(e),
            }
        },
        _ => Err(got("expected variable in projection, got "@, ts, i)),
    }
}

/// Further `, Var[attrs]`s after `acc`.
pub open spec fn p_projections_rest(ts: Seq<TokenView>, i: int, acc: Seq<ProjectionView>) -> Parsed<
    Seq<ProjectionView>,
>
    decreases ts.len() - i,
{
    if is_kw(ts, i, Keyword::Comma) {
        match p_projection(ts, i + 1) {
            Ok((p, j)) => if i < j <= ts.len() {
                p_projections_rest(ts, j, acc.push(p))
            } else {
                Err(Seq::empty())
            },
            Err(e) => Err(e),
        }
    } else {
        Ok((acc, i))
    }
}

/// The optional WHAT clause.
pub open spec fn p_what(ts: Seq<TokenView>, i: int) -> Parsed<Option<Seq<ProjectionView>>> {
    if !is_kw(ts, i, Keyword::What) {
        Ok((None, i))
    } else {
        match p_projection(ts, i + 1) {
            Ok((p, j)) => match p_projections_rest(ts, j, seq![p]) {
                Ok((v, k)) => Ok((Some(v), k)),
                Err(e) => Err(e),
            },
            Err(e) => Err(e),
        }
    }
}

// ── Operators, values, `Var[attr]` ─────────────────────────────────────────

/// The comparison operator a token names.
pub open spec fn op_of(t: TokenView) -> Option<Op> {
    match t {
        TokenView::Kw(Keyword::Eq) => Some(Op::Eq),
        TokenView::Kw(Keyword::Neq) => Some(Op::Neq),
        TokenView::Kw(Keyword::Gt) => Some(Op::Gt),
        TokenView::Kw(Keyword::Lt) => Some(Op::Lt),
        TokenView::Kw(Keyword::Gte) => Some(Op::Gte),
        TokenView::Kw(Keyword::Lte) => Some(Op::Lte),
        _ => None,
    }
}

/// A comparison operator.
pub open spec fn p_op(ts: Seq<TokenView>, i: int) -> Parsed<Op> {
    match op_of(tk(ts, i)) {
        Some(o) => Ok((o, i + 1)),
        None => Err(got("expected comparison operator (=, !=, >, …), got "@, ts, i)),
    }
}

/// A literal value: a string, an integer, a decimal, or the words
/// true/false/null in any case.
pub open spec fn p_value(ts: Seq<TokenView>, i: int) -> Parsed<ValueView> {
    match tk(ts, i) {
        TokenView::Str(s) => Ok((ValueView::Text(s), i + 1)),
        TokenView::Int(n) => Ok((ValueView::Int(n), i + 1)),
        TokenView::Float(f) => Ok((ValueView::Float(f), i + 1)),
        TokenView::Ident(s) => if lowercase_of(s) == "true"@ {
            Ok((ValueView::Bool(true), i + 1))
        } else if lowercase_of(s) == "false"@ {
            Ok((ValueView::Bool(false), i + 1))
        } else if lowercase_of(s) == "null"@ {
            Ok((ValueView::Null, i + 1))
        } else {
            Err("unknown value identifier: "@ + s)
        },
        _ => Err(got("expected value literal (string/int/float/bool), got "@, ts, i)),
    }
}

/// `Var[dotted.attr]`; `missing` opens the message when the variable is
/// missing.
pub open spec fn p_var_attr(ts: Seq<TokenView>, i: int, missing: Seq<char>) -> Parsed<(Seq<char>, Seq<char>)> {
    match tk(ts, i) {
        TokenView::Ident(var) => if !is_kw(ts, i + 1, Keyword::LBracket) {
            Err(expect_msg(Keyword::LBracket, ts, i + 1))
        } else {
            match p_dotted(ts, i + 2) {
                Ok((attr, j)) => if is_kw(ts, j, Keyword::RBracket) {
                    Ok(((var, attr), j + 1))
                } else {
                    Err(expect_msg(Keyword::RBracket, ts, j))
                },
                Err(e) => Err(e),
            }
        },
        _ => Err(got(missing, ts, i)),
    }
}

// ── WHERE ───────────────────────────────────────────────────────────────────

/// One WHERE condition `Var[attr] (EXISTS | NOT EXISTS | op value)`.
pub open spec fn p_where_cond(ts: Seq<TokenView>, i: int, c: Combinator) -> Parsed<WhereView> {
    match p_var_attr(ts, i, "expected variable in WHERE condition, got "@) {
        Ok(((var, attr), j)) => if is_kw(ts, j, Keyword::Exists) {
            Ok((WhereView { combinator: c, var, attr, test: TestView::Exists }, j + 1))
        } else if is_kw(ts, j, Keyword::Not) {
            if is_kw(ts, j + 1, Keyword::Exists) {
                Ok((WhereView { combinator: c, var, attr, test: TestView::NotExists }, j + 2))
            } else {
                Err(expect_msg(Keyword::Exists, ts, j + 1))
            }
        } else {
            match p_op(ts, j) {
                Ok((op, k)) => match p_value(ts, k) {
                    Ok((val, m)) => Ok((WhereView { combinator: c, var, attr, test: TestView::Cmp { op, val } }, m)),
                    Err(e) => Err(e),
                },
                Err(e) => Err(e),
            }
        },
        Err(e) => Err(e),
    }
}

/// Further WHERE conditions after `acc`: `AND cond`, `OR cond`, or a
/// condition that starts with a variable (ANDed).
pub open spec fn p_where_rest(ts: Seq<TokenView>, i: int, acc: Seq<WhereView>) -> Parsed<Seq<WhereView>>
    decreases ts.len() - i,
{
    let step = match tk(ts, i) {
        TokenView::Kw(Keyword::And) => Some(p_where_cond(ts, i + 1, Combinator::And)),
        TokenView::Kw(Keyword::Or) => Some(p_where_cond(ts, i + 1, Combinator::Or)),
        TokenView::Ident(_) => Some(p_where_cond(ts, i, Combinator::And)),
        _ => None,
    };
    match step {
        None => Ok((acc, i)),
        Some(Ok((w, j))) => if i < j <= ts.len() {
            p_where_rest(ts, j, acc.push(w))
        } else {
            Err(Seq::empty())
        },
        Some(Err(e)) => Err(e),
    }
}

/// The optional WHERE clause.
pub open spec fn p_where(ts: Seq<TokenView>, i: int) -> Parsed<Seq<WhereView>> {
    if !is_kw(ts, i, Keyword::Where) {
        Ok((Seq::empty(), i))
    } else {
        match p_where_cond(ts, i + 1, Combinator::And) {
            Ok((w, j)) => p_where_rest(ts, j, seq![w]),
            Err(e) => Err(e),
        }
    }
}

// ── WHEN, ORBITAL ──────────────────────────────────────────────────────────

/// `EPOCH N` after BEFORE or AFTER: the epoch.
pub open spec fn p_epoch_number(ts: Seq<TokenView>, i: int) -> Parsed<u64> {
    if !is_kw(ts, i, Keyword::Epoch) {
        Err(expect_msg(Keyword::Epoch, ts, i))
    } else {
        match nonneg_int(tk(ts, i + 1)) {
            Some(n) => Ok((n as u64, i + 2)),
            None => Err(got("expected epoch integer, got "@, ts, i + 1)),
        }
    }
}

/// The optional WHEN clause.
pub open spec fn p_when(ts: Seq<TokenView>, i: int) -> Parsed<Option<WhenClause>> {
    if !is_kw(ts, i, Keyword::When) {
        Ok((None, i))
    } else if is_kw(ts, i + 1, Keyword::At) {
        if !is_kw(ts, i + 2, Keyword::Epoch) {
            Err(expect_msg(Keyword::Epoch, ts, i + 2))
        } else if is_kw(ts, i + 3, Keyword::Now) {
            Ok((Some(WhenClause::AtEpoch(EpochRef::Now)), i + 4))
        } else {
            match nonneg_int(tk(ts, i + 3)) {
                Some(n) => Ok((Some(WhenClause::AtEpoch(EpochRef::Abs(n as u64))), i + 4)),
                None => Err(got("expected epoch integer or NOW, got "@, ts, i + 3)),
            }
        }
    } else if is_kw(ts, i + 1, Keyword::Before) {
        match p_epoch_number(ts, i + 2) {
            Ok((n, j)) => Ok((Some(WhenClause::BeforeEpoch(n)), j)),
            Err(e) => Err(e),
        }
    } else if is_kw(ts, i + 1, Keyword::After) {
        match p_epoch_number(ts, i + 2) {
            Ok((n, j)) => Ok((Some(WhenClause::AfterEpoch(n)), j)),
            Err(e) => Err(e),
        }
    } else {
        Err(got("expected AT/BEFORE/AFTER in WHEN clause, got "@, ts, i + 1))
    }
}

/// The optional ORBITAL clause.
pub open spec fn p_orbital(ts: Seq<TokenView>, i: int) -> Parsed<Option<OrbitalClause>> {
    if !is_kw(ts, i, Keyword::Orbital) {
        Ok((None, i))
    } else if is_kw(ts, i + 1, Keyword::Now) {
        Ok((Some(OrbitalClause::Now), i + 2))
    } else {
        match nonneg_int(tk(ts, i + 1)) {
            Some(s) => if !is_kw(ts, i + 2, Keyword::DotDot) {
                Err(expect_msg(Keyword::DotDot, ts, i + 2))
            } else {
                match nonneg_int(tk(ts, i + 3)) {
                    Some(e) => Ok((Some(OrbitalClause::Range { start: s as u64, end: e as u64 }), i + 4)),
                    None => Err(got("expected end orbital (integer), got "@, ts, i + 3)),
                }
            },
            None => Err(got("expected NOW or integer after ORBITAL, got "@, ts, i + 1)),
        }
    }
}

// ── WHY ─────────────────────────────────────────────────────────────────────

/// The lane a lower-case word names.
pub open spec fn lane_of(w: Seq<char>) -> Option<LaneValue> {
    if w == "gold"@ {
        Some(LaneValue::Gold)
    } else if w == "silver"@ {
        Some(LaneValue::Silver)
    } else if w == "white"@ {
        Some(LaneValue::White)
    } else if w == "gray"@ {
        Some(LaneValue::Gray)
    } else if w == "red"@ {
        Some(LaneValue::Red)
    } else if w == "black"@ {
        Some(LaneValue::Black)
    } else {
        None
    }
}

/// A lane value: an identifier naming a lane in any case.
pub open spec fn p_lane_value(ts: Seq<TokenView>, i: int) -> Parsed<LaneValue> {
    match tk(ts, i) {
        TokenView::Ident(s) => match lane_of(lowercase_of(s)) {
            Some(l) => Ok((l, i + 1)),
            None => Err("unknown lane value: "@ + lowercase_of(s)),
        },
        _ => Err(got("expected lane value (Gold/Silver/…), got "@, ts, i)),
    }
}

/// A quality byte literal: an integer in 0..=255.
pub open spec fn byte_int(t: TokenView) -> Option<u8> {
    match t {
        TokenView::Int(n) => if 0 <= n <= 255 { Some(n as u8) } else { None },
        _ => None,
    }
}

/// One WHY condition.
pub open spec fn p_why_cond(ts: Seq<TokenView>, i: int, c: Combinator) -> Parsed<WhyView> {
    match tk(ts, i) {
        TokenView::Kw(Keyword::Lane) => match p_op(ts, i + 1) {
            Ok((op, j)) => match p_lane_value(ts, j) {
                Ok((val, k)) => Ok((WhyView::Lane { combinator: c, op, val }, k)),
                Err(e) => Err(e),
            },
            Err(e) => Err(e),
        },
        TokenView::Kw(Keyword::QualityByte) => match p_op(ts, i + 1) {
            Ok((op, j)) => match byte_int(tk(ts, j)) {
                Some(val) => Ok((WhyView::QualityByte { combinator: c, op, val }, j + 1)),
                None => Err(got("expected quality_byte 0–255, got "@, ts, j)),
            },
            Err(e) => Err(e),
        },
        TokenView::Ident(var) => if !is_kw(ts, i + 1, Keyword::LBracket) {
            Err(expect_msg(Keyword::LBracket, ts, i + 1))
        } else {
            match p_dotted(ts, i + 2) {
                Ok((attr, j)) => if !is_kw(ts, j, Keyword::RBracket) {
                    Err(expect_msg(Keyword::RBracket, ts, j))
                } else if is_kw(ts, j + 1, Keyword::Not) {
                    if is_kw(ts, j + 2, Keyword::Exists) {
                        Ok((WhyView::AttrNotExists { combinator: c, var, attr }, j + 3))
                    } else {
                        Err(expect_msg(Keyword::Exists, ts, j + 2))
                    }
                } else if is_kw(ts, j + 1, Keyword::Exists) {
                    Ok((WhyView::AttrExists { combinator: c, var, attr }, j + 2))
                } else {
                    Err(expect_msg(Keyword::Exists, ts, j + 1))
                },
                Err(e) => Err(e),
            }
        },
        _ => Err(got("expected WHY condition (LANE/QUALITY_BYTE/VarName), got "@, ts, i)),
    }
}

/// Further WHY conditions after `acc`: `AND cond`, `OR cond`, or a LANE
/// or QUALITY_BYTE condition (ANDed).
pub open spec fn p_why_rest(ts: Seq<TokenView>, i: int, acc: Seq<WhyView>) -> Parsed<Seq<WhyView>>
    decreases ts.len() - i,
{
    let step = match tk(ts, i) {
        TokenView::Kw(Keyword::And) => Some(p_why_cond(ts, i + 1, Combinator::And)),
        TokenView::Kw(Keyword::Or) => Some(p_why_cond(ts, i + 1, Combinator::Or)),
        TokenView::Kw(Keyword::Lane) => Some(p_why_cond(ts, i, Combinator::And)),
        TokenView::Kw(Keyword::QualityByte) => Some(p_why_cond(ts, i, Combinator::And)),
        _ => None,
    };
    match step {
        None => Ok((acc, i)),
        Some(Ok((w, j))) => if i < j <= ts.len() {
            p_why_rest(ts, j, acc.push(w))
        } else {
            Err(Seq::empty())
        },
        Some(Err(e)) => Err(e),
    }
}

/// The optional WHY clause.
pub open spec fn p_why(ts: Seq<TokenView>, i: int) -> Parsed<Seq<WhyView>> {
    if !is_kw(ts, i, Keyword::Why) {
        Ok((Seq::empty(), i))
    } else {
        match p_why_cond(ts, i + 1, Combinator::And) {
            Ok((w, j)) => p_why_rest(ts, j, seq![w]),
            Err(e) => Err(e),
        }
    }
}

// ── TIER, STATE ────────────────────────────────────────────────────────────

/// The storage tier a token names.
pub open spec fn tier_of(t: TokenView) -> Option<StorageTier> {
    match t {
        TokenView::Kw(Keyword::TierHot) => Some(StorageTier::Hot),
        TokenView::Kw(Keyword::TierWarm) => Some(StorageTier::Warm),
        TokenView::Kw(Keyword::TierCold) => Some(StorageTier::Cold),
        TokenView::Kw(Keyword::TierCrystallized) => Some(StorageTier::Crystallized),
        _ => None,
    }
}

/// The message for a missing tier value at `i`.
pub open spec fn tier_msg(ts: Seq<TokenView>, i: int) -> Seq<char> {
    got("expected tier value (HOT/WARM/COLD/CRYSTALLIZED), got "@, ts, i)
}

/// Further `| tier`s after `acc`.
pub open spec fn p_tiers_rest(ts: Seq<TokenView>, i: int, acc: Seq<StorageTier>) -> Parsed<Seq<StorageTier>>
    decreases ts.len() - i,
{
    if is_kw(ts, i, Keyword::Pipe) {
        match tier_of(tk(ts, i + 1)) {
            Some(t) => p_tiers_rest(ts, i + 2, acc.push(t)),
            None => Err(tier_msg(ts, i + 1)),
        }
    } else {
        Ok((acc, i))
    }
}

/// The optional TIER clause.
pub open spec fn p_tier(ts: Seq<TokenView>, i: int) -> Parsed<Option<Seq<StorageTier>>> {
    if !is_kw(ts, i, Keyword::Tier) {
        Ok((None, i))
    } else {
        match tier_of(tk(ts, i + 1)) {
            Some(t) => match p_tiers_rest(ts, i + 2, seq![t]) {
                Ok((v, k)) => Ok((Some(v), k)),
                Err(e) => Err(e),
            },
            None => Err(tier_msg(ts, i + 1)),
        }
    }
}

/// The lifecycle state a token names.
pub open spec fn state_of(t: TokenView) -> Option<LifecycleState> {
    match t {
        TokenView::Kw(Keyword::StateEmerging) => Some(LifecycleState::Emerging),
        TokenView::Kw(Keyword::StateStable) => Some(LifecycleState::Stable),
        TokenView::Kw(Keyword::StateCanonical) => Some(LifecycleState::Canonical),
        TokenView::Kw(Keyword::StateDeprecated) => Some(LifecycleState::Deprecated),
        _ => None,
    }
}

/// The message for a missing lifecycle state at `i`.
pub open spec fn state_msg(ts: Seq<TokenView>, i: int) -> Seq<char> {
    got("expected lifecycle state (EMERGING/STABLE/CANONICAL/DEPRECATED), got "@, ts, i)
}

/// Further `| state`s after `acc`.
pub open spec fn p_states_rest(ts: Seq<TokenView>, i: int, acc: Seq<LifecycleState>) -> Parsed<
    Seq<LifecycleState>,
>
    decreases ts.len() - i,
{
    if is_kw(ts, i, Keyword::Pipe) {
        match state_of(tk(ts, i + 1)) {
            Some(s) => p_states_rest(ts, i + 2, acc.push(s)),
            None => Err(state_msg(ts, i + 1)),
        }
    } else {
        Ok((acc, i))
    }
}

/// The optional STATE clause.
pub open spec fn p_state(ts: Seq<TokenView>, i: int) -> Parsed<Option<Seq<LifecycleState>>> {
    if !is_kw(ts, i, Keyword::State) {
        Ok((None, i))
    } else {
        match state_of(tk(ts, i + 1)) {
            Some(s) => match p_states_rest(ts, i + 2, seq![s]) {
                Ok((v, k)) => Ok((Some(v), k)),
                Err(e) => Err(e),
            },
            None => Err(state_msg(ts, i + 1)),
        }
    }
}

// ── NASH, PATTERN, LINEAGE, GATE, SATAMU ───────────────────────────────────

/// The optional NASH clause.
pub open spec fn p_nash(ts: Seq<TokenView>, i: int) -> Parsed<Option<NashView>> {
    if !is_kw(ts, i, Keyword::Nash) {
        Ok((None, i))
    } else if is_kw(ts, i + 1, Keyword::NashBreaking) {
        Ok((Some(NashView::Breaking), i + 2))
    } else if is_kw(ts, i + 1, Keyword::NashScore) {
        match p_op(ts, i + 2) {
            Ok((op, j)) => match number_text(tk(ts, j)) {
                Some(x) => Ok((Some(NashView::Score { op, threshold: x }), j + 1)),
                None => Err(got("expected float threshold after NASH SCORE, got "@, ts, j)),
            },
            Err(e) => Err(e),
        }
    } else {
        Err(got("expected SCORE or BREAKING after NASH, got "@, ts, i + 1))
    }
}

/// The pattern kind a token names.
pub open spec fn pattern_kind_of(t: TokenView) -> Option<PatternKind> {
    match t {
        TokenView::Kw(Keyword::PtCrowdFlow) => Some(PatternKind::CrowdFlow),
        TokenView::Kw(Keyword::PtAviationCorridor) => Some(PatternKind::AviationCorridor),
        TokenView::Kw(Keyword::PtAviationHolding) => Some(PatternKind::AviationHolding),
        TokenView::Kw(Keyword::PtIndoorHallway) => Some(PatternKind::IndoorHallway),
        TokenView::Kw(Keyword::PtIndoorRoom) => Some(PatternKind::IndoorRoom),
        TokenView::Kw(Keyword::PtIndoorTransition) => Some(PatternKind::IndoorTransition),
        TokenView::Kw(Keyword::PtWaterFlow) => Some(PatternKind::WaterFlow),
        TokenView::Kw(Keyword::PtCustom) => Some(PatternKind::Custom),
        _ => None,
    }
}

/// One PATTERN condition (after the PATTERN keyword).
pub open spec fn p_pattern_cond(ts: Seq<TokenView>, i: int) -> Parsed<PatternView> {
    match tk(ts, i) {
        TokenView::Kw(Keyword::PatternType) => match pattern_kind_of(tk(ts, i + 1)) {
            Some(k) => Ok((PatternView::Type(k), i + 2)),
            None => Err(got("expected pattern type name (CrowdFlow/…), got "@, ts, i + 1)),
        },
        TokenView::Kw(Keyword::PatternConfidence) => match p_op(ts, i + 1) {
            Ok((op, j)) => match number_text(tk(ts, j)) {
                Some(x) => Ok((PatternView::Confidence { op, value: x }, j + 1)),
                None => Err(got("expected float after PATTERN CONFIDENCE, got "@, ts, j)),
            },
            Err(e) => Err(e),
        },
        TokenView::Kw(Keyword::PatternConstituents) => match p_op(ts, i + 1) {
            Ok((op, j)) => match nonneg_int(tk(ts, j)) {
                Some(n) => Ok((PatternView::MaxConstituents { op, value: n as u32 }, j + 1)),
                None => Err(got("expected integer after PATTERN MAX_CONSTITUENTS, got "@, ts, j)),
            },
            Err(e) => Err(e),
        },
        _ => Err(got("expected TYPE/CONFIDENCE/MAX_CONSTITUENTS after PATTERN, got "@, ts, i)),
    }
}

/// Further `PATTERN cond`s after `acc`.
pub open spec fn p_patterns_rest(ts: Seq<TokenView>, i: int, acc: Seq<PatternView>) -> Parsed<Seq<PatternView>>
    decreases ts.len() - i,
{
    if is_kw(ts, i, Keyword::Pattern) {
        match p_pattern_cond(ts, i + 1) {
            Ok((c, j)) => if i < j <= ts.len() {
                p_patterns_rest(ts, j, acc.push(c))
            } else {
                Err(Seq::empty())
            },
            Err(e) => Err(e),
        }
    } else {
        Ok((acc, i))
    }
}

/// The optional LINEAGE clause.
pub open spec fn p_lineage(ts: Seq<TokenView>, i: int) -> Parsed<Option<LineageClause>> {
    if !is_kw(ts, i, Keyword::Lineage) {
        Ok((None, i))
    } else if is_kw(ts, i + 1, Keyword::LineageFull) {
        Ok((Some(LineageClause::Full), i + 2))
    } else if is_kw(ts, i + 1, Keyword::LineageDepth) {
        match pos_int(tk(ts, i + 2)) {
            Some(n) => Ok((Some(LineageClause::Depth(n as u32)), i + 3)),
            None => Err(got("expected depth integer after LINEAGE DEPTH, got "@, ts, i + 2)),
        }
    } else {
        Err(got("expected DEPTH or FULL after LINEAGE, got "@, ts, i + 1))
    }
}

/// Further `, Name`s of a GATE clause after `acc`.
pub open spec fn p_gates_rest(ts: Seq<TokenView>, i: int, acc: Seq<GateView>) -> Parsed<Seq<GateView>>
    decreases ts.len() - i,
{
    if is_kw(ts, i, Keyword::Comma) {
        match tk(ts, i + 1) {
            TokenView::Ident(s) => p_gates_rest(ts, i + 2, acc.push(GateView::Named(s))),
            _ => Err(got("expected gate name, got "@, ts, i + 1)),
        }
    } else {
        Ok((acc, i))
    }
}

/// The optional GATE clause.
pub open spec fn p_gate(ts: Seq<TokenView>, i: int) -> Parsed<Option<Seq<GateView>>> {
    if !is_kw(ts, i, Keyword::Gate) {
        Ok((None, i))
    } else if is_kw(ts, i + 1, Keyword::NodeAll) {
        Ok((Some(seq![GateView::All]), i + 2))
    } else {
        match tk(ts, i + 1) {
            TokenView::Ident(s) => match p_gates_rest(ts, i + 2, seq![GateView::Named(s)]) {
                Ok((v, k)) => Ok((Some(v), k)),
                Err(e) => Err(e),
            },
            _ => Err(got("expected gate name or ALL after GATE, got "@, ts, i + 1)),
        }
    }
}

/// The optional SATAMU clause.
pub open spec fn p_satamu(ts: Seq<TokenView>, i: int) -> Parsed<Option<SatamuView>> {
    if !is_kw(ts, i, Keyword::Satamu) {
        Ok((None, i))
    } else if is_kw(ts, i + 1, Keyword::SatamuRequired) {
        Ok((Some(SatamuView::Required), i + 2))
    } else if is_kw(ts, i + 1, Keyword::SatamuBypass) {
        match tk(ts, i + 2) {
            TokenView::Str(s) => Ok((Some(SatamuView::Bypass(s)), i + 3)),
            _ => Err(got("expected string reason after SATAMU BYPASS, got "@, ts, i + 2)),
        }
    } else {
        Err(got("expected REQUIRED or BYPASS after SATAMU, got "@, ts, i + 1))
    }
}

// ── HOW, HOW_MUCH, GRAVITY, MEASURE ────────────────────────────────────────

/// An optional sort direction; absent means ASC.
pub open spec fn p_sort_dir(ts: Seq<TokenView>, i: int) -> (SortDir, int) {
    if is_kw(ts, i, Keyword::Desc) {
        (SortDir::Desc, i + 1)
    } else if is_kw(ts, i, Keyword::Asc) {
        (SortDir::Asc, i + 1)
    } else {
        (SortDir::Asc, i)
    }
}

/// The optional HOW clause.
pub open spec fn p_how(ts: Seq<TokenView>, i: int) -> Parsed<Option<HowView>> {
    if !is_kw(ts, i, Keyword::How) {
        Ok((None, i))
    } else if !is_kw(ts, i + 1, Keyword::By) {
        Err(expect_msg(Keyword::By, ts, i + 1))
    } else {
        match p_var_attr(ts, i + 2, "expected variable in HOW BY, got "@) {
            Ok(((var, attr), j)) => {
                let (dir, k) = p_sort_dir(ts, j);
                Ok((Some(HowView { var, attr, dir }), k))
            },
            Err(e) => Err(e),
        }
    }
}

/// The optional HOW_MUCH clause.
pub open spec fn p_how_much(ts: Seq<TokenView>, i: int) -> Parsed<Option<HowMuchView>> {
    if !is_kw(ts, i, Keyword::HowMuch) {
        Ok((None, i))
    } else if is_kw(ts, i + 1, Keyword::Limit) {
        match pos_int(tk(ts, i + 2)) {
            Some(n) => Ok((Some(HowMuchView::Limit(n as usize)), i + 3)),
            None => Err(got("expected positive integer for LIMIT, got "@, ts, i + 2)),
        }
    } else if is_kw(ts, i + 1, Keyword::Top) {
        match pos_int(tk(ts, i + 2)) {
            Some(n) => if !is_kw(ts, i + 3, Keyword::By) {
                Err(expect_msg(Keyword::By, ts, i + 3))
            } else {
                match p_var_attr(ts, i + 4, "expected variable in TOP BY, got "@) {
                    Ok(((var, attr), j)) => {
                        let (dir, k) = p_sort_dir(ts, j);
                        Ok((Some(HowMuchView::Top { n: n as usize, var, attr, dir }), k))
                    },
                    Err(e) => Err(e),
                }
            },
            None => Err(got("expected positive integer for TOP, got "@, ts, i + 2)),
        }
    } else {
        Err(got("expected LIMIT or TOP after HOW_MUCH, got "@, ts, i + 1))
    }
}

/// The optional MEASURE clause.
pub open spec fn p_measure(ts: Seq<TokenView>, i: int) -> Parsed<Option<MeasureView>> {
    if !is_kw(ts, i, Keyword::Measure) {
        Ok((None, i))
    } else if is_kw(ts, i + 1, Keyword::Dense) {
        Ok((Some(MeasureView::Dense), i + 2))
    } else if is_kw(ts, i + 1, Keyword::Flux) {
        match p_var_attr(ts, i + 2, "expected variable name, got "@) {
            Ok(((var, attr), j)) => Ok((Some(MeasureView::Flux { var, attr }), j)),
            Err(e) => Err(e),
        }
    } else if is_kw(ts, i + 1, Keyword::RotorMean) {
        match p_var_attr(ts, i + 2, "expected variable name, got "@) {
            Ok(((var, attr), j)) => Ok((Some(MeasureView::RotorMean { var, attr }), j)),
            Err(e) => Err(e),
        }
    } else {
        Err(got("expected DENSE, FLUX, or ROTOR_MEAN after MEASURE, got "@, ts, i + 1))
    }
}

/// How GRAVITY partitions, read at `j` (after its `Var[attr]`). A BAND
/// width must be above zero; a missing mode is refused, since exact-match
/// grouping with no cap can grow without bound.
pub open spec fn p_gravity_mode(ts: Seq<TokenView>, j: int) -> Parsed<GravityModeView> {
    if is_kw(ts, j, Keyword::Band) {
        match number_text(tk(ts, j + 1)) {
            Some(w) => if number_positive(tk(ts, j + 1)) {
                Ok((GravityModeView::Band(w), j + 2))
            } else {
                Err("GRAVITY BAND width must be positive, got "@ + w)
            },
            None => Err(got("expected numeric width after GRAVITY ... BAND, got "@, ts, j + 1)),
        }
    } else if is_kw(ts, j, Keyword::MaxGroups) {
        match pos_int(tk(ts, j + 1)) {
            Some(n) => Ok((GravityModeView::ExactMatchCapped(n as usize), j + 2)),
            None => Err(got("expected positive integer for MAX_GROUPS, got "@, ts, j + 1)),
        }
    } else {
        Err(
            got(
                "GRAVITY requires BAND <width> or MAX_GROUPS <n> -- exact-match grouping with no cap can grow its grouping structure toward O(N) memory on a high-cardinality attribute. got "@,
                ts,
                j,
            ),
        )
    }
}

/// The optional GRAVITY clause.
pub open spec fn p_gravity(ts: Seq<TokenView>, i: int) -> Parsed<Option<GravityView>> {
    if !is_kw(ts, i, Keyword::Gravity) {
        Ok((None, i))
    } else {
        match p_var_attr(ts, i + 1, "expected variable name, got "@) {
            Ok(((var, attr), j)) => match p_gravity_mode(ts, j) {
                Ok((mode, k)) => Ok((Some(GravityView { var, attr, mode }), k)),
                Err(e) => Err(e),
            },
            Err(e) => Err(e),
        }
    }
}

// ── Execution hints ────────────────────────────────────────────────────────

/// The anchor strategy a token names.
pub open spec fn anchor_of(t: TokenView) -> Option<AnchorStrategy> {
    match t {
        TokenView::Kw(Keyword::AnchorAuto) => Some(AnchorStrategy::Auto),
        TokenView::Kw(Keyword::AnchorSurrogateTime) => Some(AnchorStrategy::SurrogateTime),
        TokenView::Kw(Keyword::AnchorStateStation) => Some(AnchorStrategy::StateStation),
        TokenView::Kw(Keyword::AnchorE7First) => Some(AnchorStrategy::E7First),
        TokenView::Kw(Keyword::AnchorFullScan) => Some(AnchorStrategy::FullScan),
        _ => None,
    }
}

/// The optional ANCHOR hint; absent means AUTO.
pub open spec fn p_anchor(ts: Seq<TokenView>, i: int) -> Parsed<AnchorStrategy> {
    if !is_kw(ts, i, Keyword::Anchor) {
        Ok((AnchorStrategy::Auto, i))
    } else {
        match anchor_of(tk(ts, i + 1)) {
            Some(a) => Ok((a, i + 2)),
            None => Err(
                got(
                    "expected anchor strategy (AUTO/SURROGATE_TIME/STATE_STATION/E7_FIRST/FULL_SCAN), got "@,
                    ts,
                    i + 1,
                ),
            ),
        }
    }
}

/// The optional STREAM hint.
pub open spec fn p_stream(ts: Seq<TokenView>, i: int) -> (bool, int) {
    if is_kw(ts, i, Keyword::Stream) {
        (true, i + 1)
    } else {
        (false, i)
    }
}

/// The optional DERIVE_STATION hint: an identifier or a string.
pub open spec fn p_derive_station(ts: Seq<TokenView>, i: int) -> Parsed<Option<Seq<char>>> {
    if !is_kw(ts, i, Keyword::DeriveStation) {
        Ok((None, i))
    } else {
        match tk(ts, i + 1) {
            TokenView::Ident(s) => Ok((Some(s), i + 2)),
            TokenView::Str(s) => Ok((Some(s), i + 2)),
            _ => Err(got("expected station name after DERIVE_STATION, got "@, ts, i + 1)),
        }
    }
}

/// The optional ABORT_SCAN hint.
pub open spec fn p_abort_scan(ts: Seq<TokenView>, i: int) -> Parsed<Option<u64>> {
    if !is_kw(ts, i, Keyword::AbortScan) {
        Ok((None, i))
    } else {
        match pos_int(tk(ts, i + 1)) {
            Some(n) => Ok((Some(n as u64), i + 2)),
            None => Err(got("expected positive integer for ABORT_SCAN, got "@, ts, i + 1)),
        }
    }
}

/// The filter stage a token names.
pub open spec fn stage_of(t: TokenView) -> Option<FilterStage> {
    match t {
        TokenView::Kw(Keyword::FsSurrogateRange) => Some(FilterStage::SurrogateRange),
        TokenView::Kw(Keyword::FsOrbitalRange) => Some(FilterStage::OrbitalRange),
        TokenView::Kw(Keyword::FsState) => Some(FilterStage::State),
        TokenView::Kw(Keyword::FsDeriveStation) => Some(FilterStage::DeriveStation),
        TokenView::Kw(Keyword::FsLane) => Some(FilterStage::Lane),
        TokenView::Kw(Keyword::FsQualityByte) => Some(FilterStage::QualityByte),
        TokenView::Kw(Keyword::FsEavAttr) => Some(FilterStage::EavAttr),
        TokenView::Kw(Keyword::FsE7Region) => Some(FilterStage::E7Region),
        _ => None,
    }
}

/// Filter stages from `i` on after `acc`, each optionally followed by a
/// comma.
pub open spec fn p_stages(ts: Seq<TokenView>, i: int, acc: Seq<FilterStage>) -> (Seq<FilterStage>, int)
    decreases ts.len() - i,
{
    match stage_of(tk(ts, i)) {
        Some(s) => if is_kw(ts, i + 1, Keyword::Comma) {
            p_stages(ts, i + 2, acc.push(s))
        } else {
            p_stages(ts, i + 1, acc.push(s))
        },
        None => (acc, i),
    }
}

/// The optional FILTER_ORDER hint: at least one stage.
pub open spec fn p_filter_order(ts: Seq<TokenView>, i: int) -> Parsed<Seq<FilterStage>> {
    if !is_kw(ts, i, Keyword::FilterOrder) {
        Ok((Seq::empty(), i))
    } else {
        let (stages, j) = p_stages(ts, i + 1, Seq::empty());
        if stages.len() == 0 {
            Err("FILTER_ORDER requires at least one stage"@)
        } else {
            Ok((stages, j))
        }
    }
}

// ── The query ───────────────────────────────────────────────────────────────

/// The head of a query: verb, NODE, ACROSS, WHO, WHAT, WHERE, WHEN,
/// ORBITAL and WHY.
pub open spec fn p_head(ts: Seq<TokenView>) -> Parsed<
    (
        Operation,
        Option<Seq<DbTarget>>,
        Option<AcrossView>,
        WhoView,
        Option<Seq<ProjectionView>>,
        Seq<WhereView>,
        Option<WhenClause>,
        Option<OrbitalClause>,
        Seq<WhyView>,
    ),
> {
    let (verb, i1) = p_verb(ts, 0);
    match p_node(ts, i1) {
        Err(e) => Err(e),
        Ok((node, i2)) => match p_across(ts, i2) {
            Err(e) => Err(e),
            Ok((across, i3)) => match p_who(ts, i3) {
                Err(e) => Err(e),
                Ok((who, i4)) => match p_what(ts, i4) {
                    Err(e) => Err(e),
                    Ok((what, i5)) => match p_where(ts, i5) {
                        Err(e) => Err(e),
                        Ok((wh, i6)) => match p_when(ts, i6) {
                            Err(e) => Err(e),
                            Ok((when, i7)) => match p_orbital(ts, i7) {
                                Err(e) => Err(e),
                                Ok((orbital, i8)) => match p_why(ts, i8) {
                                    Err(e) => Err(e),
                                    Ok((why, i9)) => Ok(
                                        ((verb, node, across, who, what, wh, when, orbital, why), i9),
                                    ),
                                },
                            },
                        },
                    },
                },
            },
        },
    }
}

/// The filter clauses: TIER, STATE, NASH, PATTERNs, LINEAGE, GATE, SATAMU.
pub open spec fn p_filters(ts: Seq<TokenView>, i: int) -> Parsed<
    (
        Option<Seq<StorageTier>>,
        Option<Seq<LifecycleState>>,
        Option<NashView>,
        Seq<PatternView>,
        Option<LineageClause>,
        Option<Seq<GateView>>,
        Option<SatamuView>,
    ),
> {
    match p_tier(ts, i) {
        Err(e) => Err(e),
        Ok((tier, i1)) => match p_state(ts, i1) {
            Err(e) => Err(e),
            Ok((state, i2)) => match p_nash(ts, i2) {
                Err(e) => Err(e),
                Ok((nash, i3)) => match p_patterns_rest(ts, i3, Seq::empty()) {
                    Err(e) => Err(e),
                    Ok((pattern, i4)) => match p_lineage(ts, i4) {
                        Err(e) => Err(e),
                        Ok((lineage, i5)) => match p_gate(ts, i5) {
                            Err(e) => Err(e),
                            Ok((gate, i6)) => match p_satamu(ts, i6) {
                                Err(e) => Err(e),
                                Ok((satamu, i7)) => Ok(((tier, state, nash, pattern, lineage, gate, satamu), i7)),
                            },
                        },
                    },
                },
            },
        },
    }
}

/// The tail clauses: HOW, HOW_MUCH, GRAVITY, MEASURE and the execution
/// hints.
pub open spec fn p_tail(ts: Seq<TokenView>, i: int) -> Parsed<
    (
        Option<HowView>,
        Option<HowMuchView>,
        Option<GravityView>,
        Option<MeasureView>,
        AnchorStrategy,
        bool,
        Option<Seq<char>>,
        Option<u64>,
        Seq<FilterStage>,
    ),
> {
    match p_how(ts, i) {
        Err(e) => Err(e),
        Ok((how, i1)) => match p_how_much(ts, i1) {
            Err(e) => Err(e),
            Ok((how_much, i2)) => match p_gravity(ts, i2) {
                Err(e) => Err(e),
                Ok((gravity, i3)) => match p_measure(ts, i3) {
                    Err(e) => Err(e),
                    Ok((measure, i4)) => match p_anchor(ts, i4) {
                        Err(e) => Err(e),
                        Ok((anchor, i5)) => {
                            let (stream, i6) = p_stream(ts, i5);
                            match p_derive_station(ts, i6) {
                                Err(e) => Err(e),
                                Ok((derive_station, i7)) => match p_abort_scan(ts, i7) {
                                    Err(e) => Err(e),
                                    Ok((abort_scan, i8)) => match p_filter_order(ts, i8) {
                                        Err(e) => Err(e),
                                        Ok((filter_order, i9)) => Ok(
                                            (
                                                (
                                                    how,
                                                    how_much,
                                                    gravity,
                                                    measure,
                                                    anchor,
                                                    stream,
                                                    derive_station,
                                                    abort_scan,
                                                    filter_order,
                                                ),
                                                i9,
                                            ),
                                        ),
                                    },
                                },
                            }
                        },
                    },
                },
            },
        },
    }
}

/// The query a token list spells, clause by clause in the grammar's
/// order; tokens after the last clause are not read. The tribe list
/// starts empty.
pub open spec fn p_query(ts: Seq<TokenView>) -> Result<QueryView, Seq<char>> {
    match p_head(ts) {
        Err(e) => Err(e),
        Ok((h, i)) => match p_filters(ts, i) {
            Err(e) => Err(e),
            Ok((f, j)) => match p_tail(ts, j) {
                Err(e) => Err(e),
                Ok((t, _k)) => Ok(
                    QueryView {
                        verb: h.0,
                        node: h.1,
                        across: h.2,
                        who: h.3,
                        what: h.4,
                        where_conditions: h.5,
                        when: h.6,
                        orbital: h.7,
                        why: h.8,
                        tier: f.0,
                        state: f.1,
                        nash: f.2,
                        pattern: f.3,
                        lineage: f.4,
                        gate: f.5,
                        satamu: f.6,
                        how: t.0,
                        how_much: t.1,
                        gravity: t.2,
                        measure: t.3,
                        anchor: t.4,
                        stream: t.5,
                        derive_station: t.6,
                        abort_scan: t.7,
                        filter_order: t.8,
                        tribes: Seq::empty(),
                    },
                ),
            },
        },
    }
}

/// The query a source text spells: its tokens' query, or the lexer's
/// error.
pub open spec fn query_of(source: Seq<char>) -> Result<QueryView, Seq<char>> {
    match lex(source) {
        Ok(ts) => p_query(ts),
        Err(m) => Err(m),
    }
}

} // verus!

