//! HeptaScript v2.0 W5H2 abstract syntax: the query the parser produces,
//! its clauses, and the plain-data view of each (strings as character
//! sequences). Decimal literals are kept as the text the query spelled.

use vstd::prelude::*;
use crate::heptascript::operations::Operation;

verus! {

// ── Shared operator types ───────────────────────────────────────────────────

/// Comparison operator used in WHERE, WHY, NASH, and PATTERN conditions.
#[derive(Debug, Clone, Copy, PartialEq, Eq, Structural)]
pub enum Op {
    Eq,
    Neq,
    Gt,
    Lt,
    Gte,
    Lte,
}

/// Logical combinator between consecutive conditions.
#[derive(Debug, Clone, Copy, PartialEq, Eq, Structural)]
pub enum Combinator {
    And,
    Or,
}

/// A literal value used in a condition comparison. A decimal literal is
/// kept as the text it was written as.
#[derive(Debug, Clone, PartialEq)]
pub enum HeptaValue {
    Null,
    Bool(bool),
    Int(i64),
    Float(String),
    Text(String),
}

/// A literal value as plain data.
pub enum ValueView {
    Null,
    Bool(bool),
    Int(i64),
    Float(Seq<char>),
    Text(Seq<char>),
}

impl DeepView for HeptaValue {
    type V = ValueView;

    open spec fn deep_view(&self) -> ValueView {
        match self {
            HeptaValue::Null => ValueView::Null,
            HeptaValue::Bool(b) => ValueView::Bool(*b),
            HeptaValue::Int(n) => ValueView::Int(*n),
            HeptaValue::Float(f) => ValueView::Float(f@),
            HeptaValue::Text(t) => ValueView::Text(t@),
        }
    }
}

// ── v2.0: NODE clause ─────────────────────────────────────────────────────────

/// NODE clause — which EnkiDB type(s) to query.
#[derive(Debug, Clone, PartialEq)]
pub struct NodeClause {
    pub targets: Vec<DbTarget>,
}

/// One EnkiDB node type target.
#[derive(Debug, Clone, Copy, PartialEq, Eq, Structural)]
pub enum DbTarget {
    All,
    /// 7001 — operational OLTP
    EnkiDb,
    /// 7002 — data warehouse
    EnkiDw,
    /// 7003 — security
    EnkiSdb,
    /// 7004 — operational between-gate
    EnkiOdb,
    /// 7005 — quantum probability
    EnkiQdb,
    /// 7006 — master data
    EnkiMdb,
    /// 7007 — client documentation
    EnkiDdb,
    /// pattern event bus
    Narudu,
    /// ENKI-PATTERN registry
    EnkiPattern,
}

/// The well-known TCP port of each database type.
pub open spec fn port_of(t: DbTarget) -> Option<u16> {
    match t {
        DbTarget::EnkiDb => Some(7001),
        DbTarget::EnkiDw => Some(7002),
        DbTarget::EnkiSdb => Some(7003),
        DbTarget::EnkiOdb => Some(7004),
        DbTarget::EnkiQdb => Some(7005),
        DbTarget::EnkiMdb => Some(7006),
        DbTarget::EnkiDdb => Some(7007),
        DbTarget::Narudu => None,
        DbTarget::EnkiPattern => None,
        DbTarget::All => None,
    }
}

impl DbTarget {
    /// Well-known TCP port for this database type (none for the event
    /// bus, the pattern registry and ALL).
    pub fn port(&self) -> (p: Option<u16>)
        ensures
            p == port_of(*self),
    {
        match self {
            DbTarget::EnkiDb => Some(7001),
            DbTarget::EnkiDw => Some(7002),
            DbTarget::EnkiSdb => Some(7003),
            DbTarget::EnkiOdb => Some(7004),
            DbTarget::EnkiQdb => Some(7005),
            DbTarget::EnkiMdb => Some(7006),
            DbTarget::EnkiDdb => Some(7007),
            DbTarget::Narudu => None,
            DbTarget::EnkiPattern => None,
            DbTarget::All => None,
        }
    }
}

/// The seven EnkiDB ports are distinct and lie in 7001..=7007.
pub proof fn law_ports_distinct(a: DbTarget, b: DbTarget)
    requires
        port_of(a) is Some,
        port_of(a) == port_of(b),
    ensures
        a == b,
        7001 <= port_of(a)->0 <= 7007,
{
}

// ── v2.0: ACROSS clause ───────────────────────────────────────────────────────

/// ACROSS clause — cross-BIGRING federation.
#[derive(Debug, Clone, PartialEq)]
pub enum AcrossClause {
    /// `ACROSS BIGRING ClientName` — one named client's BIGRING.
    Bigring(String),
    /// `ACROSS ALL` — broadcast to all connected BIGRINGs.
    All,
}

// ── v2.0: TIER / STATE clauses ───────────────────────────────────────────────

/// TIER clause — storage tier filter for ENKI-PATTERN queries.
#[derive(Debug, Clone, PartialEq)]
pub struct TierClause {
    pub tiers: Vec<StorageTier>,
}

/// Storage tier lifecycle based on age in orbitals.
#[derive(Debug, Clone, Copy, PartialEq, Eq, Structural)]
pub enum StorageTier {
    /// 0–2 orbitals
    Hot,
    /// 3–29 orbitals
    Warm,
    /// 30–364 orbitals
    Cold,
    /// 365+ orbitals
    Crystallized,
}

/// STATE clause — pattern / particle lifecycle filter.
#[derive(Debug, Clone, PartialEq)]
pub struct StateClause {
    pub states: Vec<LifecycleState>,
}

/// Pattern lifecycle phase.
#[derive(Debug, Clone, Copy, PartialEq, Eq, Structural)]
pub enum LifecycleState {
    Emerging,
    Stable,
    Canonical,
    Deprecated,
}

// ── v2.0: PATTERN / LINEAGE / GATE / SATAMU / ORBITAL ────────────────────────

/// Pattern domain type.
#[derive(Debug, Clone, Copy, PartialEq, Eq, Structural)]
pub enum PatternKind {
    CrowdFlow,
    AviationCorridor,
    AviationHolding,
    IndoorHallway,
    IndoorRoom,
    IndoorTransition,
    WaterFlow,
    Custom,
}

/// LINEAGE clause — causality chain traversal depth.
#[derive(Debug, Clone, Copy, PartialEq, Eq, Structural)]
pub enum LineageClause {
    /// `LINEAGE DEPTH n` — follow CrossTribe-KAKIs up to n hops.
    Depth(u32),
    /// `LINEAGE FULL` — follow until no more CrossTribe-KAKIs.
    Full,
}

/// GATE clause — route results through one or more ETL stations.
#[derive(Debug, Clone, PartialEq)]
pub struct GateClause {
    pub gates: Vec<GateTarget>,
}

/// An ETL station / gate target.
#[derive(Debug, Clone, PartialEq, Eq)]
pub enum GateTarget {
    /// Named station (e.g. "DataSteward").
    Named(String),
    /// ALL — pass through every registered station in order.
    All,
}

/// SATAMU clause — governance override.
#[derive(Debug, Clone, PartialEq)]
pub enum SatamuClause {
    /// Results need approval by the governance chain before release.
    Required,
    /// Override with an audit-logged reason.
    Bypass(String),
}

/// ORBITAL clause — intra-day cycle time range.
#[derive(Debug, Clone, Copy, PartialEq, Eq, Structural)]
pub enum OrbitalClause {
    /// `ORBITAL start .. end` — inclusive orbital range.
    Range { start: u64, end: u64 },
    /// `ORBITAL NOW` — current orbital only.
    Now,
}

// ── v1 clause types ─────────────────────────────────────────────────────────

/// WHO clause — the entity variable scope.
#[derive(Debug, Clone)]
pub struct WhoClause {
    pub primary: EntityBinding,
    pub bound_to: Vec<EntityBinding>,
}

/// An entity variable binding: `TribeName.VarName`.
#[derive(Debug, Clone, PartialEq)]
pub struct EntityBinding {
    pub tribe: String,
    pub var: String,
}

/// WHAT clause — attribute projection.
#[derive(Debug, Clone)]
pub struct WhatClause {
    pub projections: Vec<Projection>,
}

/// One projection: `VarName[attr1, attr2]` or `VarName[*]` (empty = all).
#[derive(Debug, Clone)]
pub struct Projection {
    pub var: String,
    pub attrs: Vec<String>,
}

/// WHEN clause — temporal constraint on journal entries.
#[derive(Debug, Clone, Copy, PartialEq, Eq, Structural)]
pub enum WhenClause {
    AtEpoch(EpochRef),
    BeforeEpoch(u64),
    AfterEpoch(u64),
}

/// Epoch reference: absolute number or the sentinel NOW.
#[derive(Debug, Clone, Copy, PartialEq, Eq, Structural)]
pub enum EpochRef {
    Abs(u64),
    Now,
}

/// WHY clause — lane, quality, or existence constraints.
#[derive(Debug, Clone)]
pub enum WhyCondition {
    Lane { combinator: Combinator, op: Op, val: LaneValue },
    QualityByte { combinator: Combinator, op: Op, val: u8 },
    AttrExists { combinator: Combinator, var: String, attr: String },
    AttrNotExists { combinator: Combinator, var: String, attr: String },
}

/// Sovereign lane classification value.
#[derive(Debug, Clone, Copy, PartialEq, Eq, Structural)]
pub enum LaneValue {
    Gold,
    Silver,
    White,
    Gray,
    Red,
    Black,
}

/// HOW clause — result ordering.
#[derive(Debug, Clone)]
pub struct HowClause {
    pub var: String,
    pub attr: String,
    pub dir: SortDir,
}

/// Sort direction.
#[derive(Debug, Clone, Copy, PartialEq, Eq, Structural)]
pub enum SortDir {
    Asc,
    Desc,
}

/// HOW_MUCH clause — result cardinality.
#[derive(Debug, Clone, PartialEq)]
pub enum HowMuchClause {
    Limit(usize),
    Top { n: usize, var: String, attr: String, dir: SortDir },
}

/// MEASURE clause — one aggregate value computed over the matched set.
#[derive(Debug, Clone, PartialEq)]
pub enum MeasureClause {
    /// `MEASURE DENSE` — count of matched particles.
    Dense,
    /// `MEASURE FLUX VarName[attr]` — component-wise sum of the attribute.
    Flux { var: String, attr: String },
    /// `MEASURE ROTOR_MEAN VarName[attr]` — mean of the attribute.
    RotorMean { var: String, attr: String },
}

// ── Production execution hints ─────────────────────────────────────────────

/// ANCHOR clause — the primary index strategy for candidate generation.
#[derive(Debug, Clone, Copy, PartialEq, Eq, Structural)]
pub enum AnchorStrategy {
    /// Engine auto-selects based on available predicates and index sizes.
    Auto,
    /// Drive from the surrogate map plus orbital pruning.
    SurrogateTime,
    /// Drive from the lifecycle-state bitmap first.
    StateStation,
    /// Drive from the 7D spatial lattice.
    E7First,
    /// Full sequential journal scan.
    FullScan,
}

impl Default for AnchorStrategy {
    fn default() -> (a: Self)
        ensures
            a == AnchorStrategy::Auto,
    {
        AnchorStrategy::Auto
    }
}

/// FILTER_ORDER clause — one stage of the predicate pipeline.
#[derive(Debug, Clone, Copy, PartialEq, Eq, Structural)]
pub enum FilterStage {
    SurrogateRange,
    OrbitalRange,
    State,
    DeriveStation,
    Lane,
    QualityByte,
    EavAttr,
    E7Region,
}

// ── Conditions and aggregate clauses ───────────────────────────────────────

/// One condition in the WHERE clause.
#[derive(Debug, Clone)]
pub struct WhereCondition {
    pub combinator: Combinator,
    pub var: String,
    pub attr: String,
    pub test: ConditionTest,
}

/// The test applied to the stored EAV value.
#[derive(Debug, Clone, PartialEq)]
pub enum ConditionTest {
    Cmp { op: Op, val: HeptaValue },
    Exists,
    NotExists,
}

/// NASH clause — Nash equilibrium constraint; the threshold is kept as
/// the decimal text it was written as.
#[derive(Debug, Clone, PartialEq)]
pub enum NashClause {
    /// `NASH SCORE op value` — numeric threshold filter.
    Score { op: Op, threshold: String },
    /// `NASH BREAKING` — only particles whose equilibrium is breaking.
    Breaking,
}

/// One PATTERN condition (several allowed, all ANDed together).
#[derive(Debug, Clone, PartialEq)]
pub enum PatternCondition {
    /// `PATTERN TYPE CrowdFlow` — pattern type filter.
    Type(PatternKind),
    /// `PATTERN CONFIDENCE >= 0.85` — confidence filter (decimal text).
    Confidence { op: Op, value: String },
    /// `PATTERN MAX_CONSTITUENTS <= 126` — constituent count filter.
    MaxConstituents { op: Op, value: u32 },
}

/// GRAVITY clause — partition the matched set into groups.
#[derive(Debug, Clone, PartialEq)]
pub struct GravityClause {
    pub var: String,
    pub attr: String,
    pub mode: GravityMode,
}

/// How GRAVITY partitions the matched set.
#[derive(Debug, Clone, PartialEq)]
pub enum GravityMode {
    /// `BAND width` — numeric bucket partition (width as decimal text).
    Band(String),
    /// `MAX_GROUPS n` — exact-value partition, capped at `n` groups.
    ExactMatchCapped(usize),
}

/// A complete parsed HeptaScript v2.0 W5H2 query.
#[derive(Debug, Clone)]
pub struct HeptaQuery {
    /// The Sovereign Operation this query performs. Defaults to `Orbit`.
    pub verb: Operation,
    pub node: Option<NodeClause>,
    pub across: Option<AcrossClause>,
    pub who: WhoClause,
    pub what: Option<WhatClause>,
    /// The WHERE conditions.
    pub where_conditions: Vec<WhereCondition>,
    pub when: Option<WhenClause>,
    pub why: Vec<WhyCondition>,
    pub how: Option<HowClause>,
    pub how_much: Option<HowMuchClause>,
    pub tier: Option<TierClause>,
    pub state: Option<StateClause>,
    pub nash: Option<NashClause>,
    pub pattern: Vec<PatternCondition>,
    pub lineage: Option<LineageClause>,
    pub gate: Option<GateClause>,
    pub satamu: Option<SatamuClause>,
    pub orbital: Option<OrbitalClause>,
    pub measure: Option<MeasureClause>,
    pub gravity: Option<GravityClause>,
    /// Tribe IDs for ŠUMU-UKIN fan-out routing. Empty = all tribes.
    pub tribes: Vec<String>,
    /// ANCHOR — which index drives primary candidate generation.
    pub anchor: AnchorStrategy,
    /// STREAM — emit results via callback instead of collecting them.
    pub stream: bool,
    /// DERIVE_STATION — station to derive from the journal at query time.
    pub derive_station: Option<String>,
    /// ABORT_SCAN — stop after evaluating this many candidates.
    pub abort_scan: Option<u64>,
    /// FILTER_ORDER — explicit predicate pipeline; empty = engine default.
    pub filter_order: Vec<FilterStage>,
}

impl HeptaQuery {
    /// Appends a stage to the FILTER_ORDER pipeline; the rest of the
    /// query is unchanged.
    pub fn push_filter_stage(&mut self, stage: FilterStage)
        ensures
            final(self).filter_order@ == old(self).filter_order@.push(stage),
            final(self).deep_view() == (QueryView {
                filter_order: old(self).deep_view().filter_order.push(stage),
                ..old(self).deep_view()
            }),
    {
        let ghost before = self.filter_order.deep_view();
        self.filter_order.push(stage);
        assert(self.filter_order.deep_view() =~= before.push(stage));
    }
}

// ── Plain-data views ────────────────────────────────────────────────────────

/// `TribeName.VarName` as plain data.
pub struct BindingView {
    pub tribe: Seq<char>,
    pub var: Seq<char>,
}

/// A WHO clause as plain data.
pub struct WhoView {
    pub primary: BindingView,
    pub bound_to: Seq<BindingView>,
}

/// A projection as plain data.
pub struct ProjectionView {
    pub var: Seq<char>,
    pub attrs: Seq<Seq<char>>,
}

/// An ACROSS clause as plain data.
pub enum AcrossView {
    Bigring(Seq<char>),
    All,
}

/// A condition test as plain data.
pub enum TestView {
    Cmp { op: Op, val: ValueView },
    Exists,
    NotExists,
}

/// A WHERE condition as plain data.
pub struct WhereView {
    pub combinator: Combinator,
    pub var: Seq<char>,
    pub attr: Seq<char>,
    pub test: TestView,
}

/// A WHY condition as plain data.
pub enum WhyView {
    Lane { combinator: Combinator, op: Op, val: LaneValue },
    QualityByte { combinator: Combinator, op: Op, val: u8 },
    AttrExists { combinator: Combinator, var: Seq<char>, attr: Seq<char> },
    AttrNotExists { combinator: Combinator, var: Seq<char>, attr: Seq<char> },
}

/// A NASH clause as plain data.
pub enum NashView {
    Score { op: Op, threshold: Seq<char> },
    Breaking,
}

/// A PATTERN condition as plain data.
pub enum PatternView {
    Type(PatternKind),
    Confidence { op: Op, value: Seq<char> },
    MaxConstituents { op: Op, value: u32 },
}

/// A gate target as plain data.
pub enum GateView {
    Named(Seq<char>),
    All,
}

/// A SATAMU clause as plain data.
pub enum SatamuView {
    Required,
    Bypass(Seq<char>),
}

/// A HOW clause as plain data.
pub struct HowView {
    pub var: Seq<char>,
    pub attr: Seq<char>,
    pub dir: SortDir,
}

/// A HOW_MUCH clause as plain data.
pub enum HowMuchView {
    Limit(usize),
    Top { n: usize, var: Seq<char>, attr: Seq<char>, dir: SortDir },
}

/// A MEASURE clause as plain data.
pub enum MeasureView {
    Dense,
    Flux { var: Seq<char>, attr: Seq<char> },
    RotorMean { var: Seq<char>, attr: Seq<char> },
}

/// A GRAVITY mode as plain data.
pub enum GravityModeView {
    Band(Seq<char>),
    ExactMatchCapped(usize),
}

/// A GRAVITY clause as plain data.
pub struct GravityView {
    pub var: Seq<char>,
    pub attr: Seq<char>,
    pub mode: GravityModeView,
}

/// A whole query as plain data.
pub struct QueryView {
    pub verb: Operation,
    pub node: Option<Seq<DbTarget>>,
    pub across: Option<AcrossView>,
    pub who: WhoView,
    pub what: Option<Seq<ProjectionView>>,
    pub where_conditions: Seq<WhereView>,
    pub when: Option<WhenClause>,
    pub why: Seq<WhyView>,
    pub how: Option<HowView>,
    pub how_much: Option<HowMuchView>,
    pub tier: Option<Seq<StorageTier>>,
    pub state: Option<Seq<LifecycleState>>,
    pub nash: Option<NashView>,
    pub pattern: Seq<PatternView>,
    pub lineage: Option<LineageClause>,
    pub gate: Option<Seq<GateView>>,
    pub satamu: Option<SatamuView>,
    pub orbital: Option<OrbitalClause>,
    pub measure: Option<MeasureView>,
    pub gravity: Option<GravityView>,
    pub tribes: Seq<Seq<char>>,
    pub anchor: AnchorStrategy,
    pub stream: bool,
    pub derive_station: Option<Seq<char>>,
    pub abort_scan: Option<u64>,
    pub filter_order: Seq<FilterStage>,
}

impl DeepView for NodeClause {
    type V = Seq<DbTarget>;

    open spec fn deep_view(&self) -> Seq<DbTarget> {
        self.targets.deep_view()
    }
}

impl DeepView for TierClause {
    type V = Seq<StorageTier>;

    open spec fn deep_view(&self) -> Seq<StorageTier> {
        self.tiers.deep_view()
    }
}

impl DeepView for StateClause {
    type V = Seq<LifecycleState>;

    open spec fn deep_view(&self) -> Seq<LifecycleState> {
        self.states.deep_view()
    }
}

impl DeepView for AcrossClause {
    type V = AcrossView;

    open spec fn deep_view(&self) -> AcrossView {
        match self {
            AcrossClause::Bigring(s) => AcrossView::Bigring(s@),
            AcrossClause::All => AcrossView::All,
        }
    }
}

impl DeepView for EntityBinding {
    type V = BindingView;

    open spec fn deep_view(&self) -> BindingView {
        BindingView { tribe: self.tribe@, var: self.var@ }
    }
}

impl DeepView for WhoClause {
    type V = WhoView;

    open spec fn deep_view(&self) -> WhoView {
        WhoView { primary: self.primary.deep_view(), bound_to: self.bound_to.deep_view() }
    }
}

impl DeepView for Projection {
    type V = ProjectionView;

    open spec fn deep_view(&self) -> ProjectionView {
        ProjectionView { var: self.var@, attrs: self.attrs.deep_view() }
    }
}

impl DeepView for WhatClause {
    type V = Seq<ProjectionView>;

    open spec fn deep_view(&self) -> Seq<ProjectionView> {
        self.projections.deep_view()
    }
}

impl DeepView for ConditionTest {
    type V = TestView;

    open spec fn deep_view(&self) -> TestView {
        match self {
            ConditionTest::Cmp { op, val } => TestView::Cmp { op: *op, val: val.deep_view() },
            ConditionTest::Exists => TestView::Exists,
            ConditionTest::NotExists => TestView::NotExists,
        }
    }
}

impl DeepView for WhereCondition {
    type V = WhereView;

    open spec fn deep_view(&self) -> WhereView {
        WhereView {
            combinator: self.combinator,
            var: self.var@,
            attr: self.attr@,
            test: self.test.deep_view(),
        }
    }
}

impl DeepView for WhyCondition {
    type V = WhyView;

    open spec fn deep_view(&self) -> WhyView {
        match self {
            WhyCondition::Lane { combinator, op, val } => WhyView::Lane {
                combinator: *combinator,
                op: *op,
                val: *val,
            },
            WhyCondition::QualityByte { combinator, op, val } => WhyView::QualityByte {
                combinator: *combinator,
                op: *op,
                val: *val,
            },
            WhyCondition::AttrExists { combinator, var, attr } => WhyView::AttrExists {
                combinator: *combinator,
                var: var@,
                attr: attr@,
            },
            WhyCondition::AttrNotExists { combinator, var, attr } => WhyView::AttrNotExists {
                combinator: *combinator,
                var: var@,
                attr: attr@,
            },
        }
    }
}

impl DeepView for NashClause {
    type V = NashView;

    open spec fn deep_view(&self) -> NashView {
        match self {
            NashClause::Score { op, threshold } => NashView::Score { op: *op, threshold: threshold@ },
            NashClause::Breaking => NashView::Breaking,
        }
    }
}

impl DeepView for PatternCondition {
    type V = PatternView;

    open spec fn deep_view(&self) -> PatternView {
        match self {
            PatternCondition::Type(k) => PatternView::Type(*k),
            PatternCondition::Confidence { op, value } => PatternView::Confidence { op: *op, value: value@ },
            PatternCondition::MaxConstituents { op, value } => PatternView::MaxConstituents {
                op: *op,
                value: *value,
            },
        }
    }
}

impl DeepView for GateTarget {
    type V = GateView;

    open spec fn deep_view(&self) -> GateView {
        match self {
            GateTarget::Named(s) => GateView::Named(s@),
            GateTarget::All => GateView::All,
        }
    }
}

impl DeepView for GateClause {
    type V = Seq<GateView>;

    open spec fn deep_view(&self) -> Seq<GateView> {
        self.gates.deep_view()
    }
}

impl DeepView for SatamuClause {
    type V = SatamuView;

    open spec fn deep_view(&self) -> SatamuView {
        match self {
            SatamuClause::Required => SatamuView::Required,
            SatamuClause::Bypass(s) => SatamuView::Bypass(s@),
        }
    }
}

impl DeepView for HowClause {
    type V = HowView;

    open spec fn deep_view(&self) -> HowView {
        HowView { var: self.var@, attr: self.attr@, dir: self.dir }
    }
}

impl DeepView for HowMuchClause {
    type V = HowMuchView;

    open spec fn deep_view(&self) -> HowMuchView {
        match self {
            HowMuchClause::Limit(n) => HowMuchView::Limit(*n),
            HowMuchClause::Top { n, var, attr, dir } => HowMuchView::Top {
                n: *n,
                var: var@,
                attr: attr@,
                dir: *dir,
            },
        }
    }
}

impl DeepView for MeasureClause {
    type V = MeasureView;

    open spec fn deep_view(&self) -> MeasureView {
        match self {
            MeasureClause::Dense => MeasureView::Dense,
            MeasureClause::Flux { var, attr } => MeasureView::Flux { var: var@, attr: attr@ },
            MeasureClause::RotorMean { var, attr } => MeasureView::RotorMean { var: var@, attr: attr@ },
        }
    }
}

impl DeepView for GravityClause {
    type V = GravityView;

    open spec fn deep_view(&self) -> GravityView {
        GravityView {
            var: self.var@,
            attr: self.attr@,
            mode: match self.mode {
                GravityMode::Band(w) => GravityModeView::Band(w@),
                GravityMode::ExactMatchCapped(n) => GravityModeView::ExactMatchCapped(n),
            },
        }
    }
}

impl DeepView for HeptaQuery {
    type V = QueryView;

    open spec fn deep_view(&self) -> QueryView {
        QueryView {
            verb: self.verb,
            node: self.node.deep_view(),
            across: self.across.deep_view(),
            who: self.who.deep_view(),
            what: self.what.deep_view(),
            where_conditions: self.where_conditions.deep_view(),
            when: self.when,
            why: self.why.deep_view(),
            how: self.how.deep_view(),
            how_much: self.how_much.deep_view(),
            tier: self.tier.deep_view(),
            state: self.state.deep_view(),
            nash: self.nash.deep_view(),
            pattern: self.pattern.deep_view(),
            lineage: self.lineage,
            gate: self.gate.deep_view(),
            satamu: self.satamu.deep_view(),
            orbital: self.orbital,
            measure: self.measure.deep_view(),
            gravity: self.gravity.deep_view(),
            tribes: self.tribes.deep_view(),
            anchor: self.anchor,
            stream: self.stream,
            derive_station: self.derive_station.deep_view(),
            abort_scan: self.abort_scan,
            filter_order: self.filter_order.deep_view(),
        }
    }
}

impl DeepView for Op {
    type V = Op;

    open spec fn deep_view(&self) -> Op {
        *self
    }
}

impl DeepView for Combinator {
    type V = Combinator;

    open spec fn deep_view(&self) -> Combinator {
        *self
    }
}

impl DeepView for DbTarget {
    type V = DbTarget;

    open spec fn deep_view(&self) -> DbTarget {
        *self
    }
}

impl DeepView for StorageTier {
    type V = StorageTier;

    open spec fn deep_view(&self) -> StorageTier {
        *self
    }
}

impl DeepView for LifecycleState {
    type V = LifecycleState;

    open spec fn deep_view(&self) -> LifecycleState {
        *self
    }
}

impl DeepView for PatternKind {
    type V = PatternKind;

    open spec fn deep_view(&self) -> PatternKind {
        *self
    }
}

impl DeepView for LineageClause {
    type V = LineageClause;

    open spec fn deep_view(&self) -> LineageClause {
        *self
    }
}

impl DeepView for OrbitalClause {
    type V = OrbitalClause;

    open spec fn deep_view(&self) -> OrbitalClause {
        *self
    }
}

impl DeepView for WhenClause {
    type V = WhenClause;

    open spec fn deep_view(&self) -> WhenClause {
        *self
    }
}

impl DeepView for EpochRef {
    type V = EpochRef;

    open spec fn deep_view(&self) -> EpochRef {
        *self
    }
}

impl DeepView for LaneValue {
    type V = LaneValue;

    open spec fn deep_view(&self) -> LaneValue {
        *self
    }
}

impl DeepView for SortDir {
    type V = SortDir;

    open spec fn deep_view(&self) -> SortDir {
        *self
    }
}

impl DeepView for AnchorStrategy {
    type V = AnchorStrategy;

    open spec fn deep_view(&self) -> AnchorStrategy {
        *self
    }
}

impl DeepView for FilterStage {
    type V = FilterStage;

    open spec fn deep_view(&self) -> FilterStage {
        *self
    }
}

} // verus!
