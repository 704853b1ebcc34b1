//! The pure parts of HeptaScript execution: the v2.0 query plan flags,
//! the ABORT_SCAN cap, WHEN epoch filtering, comparison operators and the
//! WHY helpers.

use vstd::prelude::*;
use super::operations::Operation;
use super::query::{
    ConditionTest, HeptaValue, HowMuchClause, HowMuchView, QueryView, TestView, ValueView, WhereCondition,
    WhereView, AcrossClause, AnchorStrategy, Combinator, DbTarget, EpochRef, FilterStage, GateTarget, GateView, HeptaQuery,
    LaneValue, LifecycleState, LineageClause, NashClause, Op, OrbitalClause, PatternCondition, PatternView,
    SatamuClause, StorageTier, WhenClause, WhyCondition,
};

verus! {

// ── Result and plan types ──────────────────────────────────────────────────

/// The group a particle was partitioned into by a GRAVITY clause.
#[derive(Debug, Clone, PartialEq, Eq, Hash)]
pub enum GravityKey {
    /// `BAND width` — bucket index `floor(value / width)`.
    Band(i64),
    /// `MAX_GROUPS n` — canonical text form of the exact attribute value.
    Exact(String),
    /// The GRAVITY attribute was absent on this particle.
    Missing,
    /// `MAX_GROUPS n` was reached; further distinct values fold here.
    Overflow,
}

/// The v2.0 directives of a query that the upstream dispatcher acts on.
#[derive(Debug, Clone)]
pub struct QueryPlan {
    /// NODE targets — empty means "local node only".
    pub node_targets: Vec<DbTarget>,
    /// ACROSS directive.
    pub across: Option<AcrossClause>,
    /// TIER filter.
    pub tiers: Vec<StorageTier>,
    /// STATE filter.
    pub states: Vec<LifecycleState>,
    /// NASH constraint (post-fetch filter).
    pub nash: Option<NashClause>,
    /// PATTERN conditions.
    pub pattern: Vec<PatternCondition>,
    /// LINEAGE depth.
    pub lineage: Option<LineageClause>,
    /// GATE chain.
    pub gates: Vec<GateTarget>,
    /// SATAMU governance gate.
    pub satamu: Option<SatamuClause>,
    /// ORBITAL range filter.
    pub orbital: Option<OrbitalClause>,
    /// Chosen anchor strategy.
    pub anchor: AnchorStrategy,
    /// Station name to derive from the journal.
    pub derive_station: Option<String>,
    /// Abort after evaluating this many candidates.
    pub abort_scan: Option<u64>,
    /// Explicit filter pipeline order (empty = engine default).
    pub filter_order: Vec<FilterStage>,
}

impl QueryPlan {
    /// An empty plan: local node only, no directives.
    pub fn new() -> (p: Self)
        ensures
            p.node_targets@.len() == 0,
            p.across is None,
            p.tiers@.len() == 0,
            p.states@.len() == 0,
            p.nash is None,
            p.pattern@.len() == 0,
            p.lineage is None,
            p.gates@.len() == 0,
            p.satamu is None,
            p.orbital is None,
            p.anchor == AnchorStrategy::Auto,
            p.derive_station is None,
            p.abort_scan is None,
            p.filter_order@.len() == 0,
    {
        QueryPlan {
            node_targets: Vec::new(),
            across: None,
            tiers: Vec::new(),
            states: Vec::new(),
            nash: None,
            pattern: Vec::new(),
            lineage: None,
            gates: Vec::new(),
            satamu: None,
            orbital: None,
            anchor: AnchorStrategy::Auto,
            derive_station: None,
            abort_scan: None,
            filter_order: Vec::new(),
        }
    }

    /// The plan of a parsed query: its v2.0 directives, with an absent
    /// NODE, TIER, STATE or GATE clause as an empty list.
    pub fn from_query(q: &HeptaQuery) -> (p: Self)
        ensures
            p.node_targets@ == (match q.node {
                Some(n) => n.targets@,
                None => Seq::empty(),
            }),
            p.across.deep_view() == q.across.deep_view(),
            p.tiers@ == (match q.tier {
                Some(t) => t.tiers@,
                None => Seq::empty(),
            }),
            p.states@ == (match q.state {
                Some(s) => s.states@,
                None => Seq::empty(),
            }),
            p.nash.deep_view() == q.nash.deep_view(),
            p.pattern.deep_view() == q.pattern.deep_view(),
            p.lineage == q.lineage,
            p.gates.deep_view() == (match q.gate {
                Some(g) => g.gates.deep_view(),
                None => Seq::<GateView>::empty(),
            }),
            p.satamu.deep_view() == q.satamu.deep_view(),
            p.orbital == q.orbital,
            p.anchor == q.anchor,
            p.derive_station.deep_view() == q.derive_station.deep_view(),
            p.abort_scan == q.abort_scan,
            p.filter_order@ == q.filter_order@,
    {
        let node_targets = match &q.node {
            Some(n) => copy_plain(&n.targets),
            None => Vec::new(),
        };
        let tiers = match &q.tier {
            Some(t) => copy_plain(&t.tiers),
            None => Vec::new(),
        };
        let states = match &q.state {
            Some(s) => copy_plain(&s.states),
            None => Vec::new(),
        };
        let gates = match &q.gate {
            Some(g) => copy_gates(&g.gates),
            None => {
                let none: Vec<GateTarget> = Vec::new();
                assert(none.deep_view() =~= Seq::<GateView>::empty());
                none
            },
        };
        let across = match &q.across {
            Some(AcrossClause::Bigring(s)) => Some(AcrossClause::Bigring(s.clone())),
            Some(AcrossClause::All) => Some(AcrossClause::All),
            None => None,
        };
        let nash = match &q.nash {
            Some(NashClause::Score { op, threshold }) => Some(NashClause::Score { op: *op, threshold: threshold.clone() }),
            Some(NashClause::Breaking) => Some(NashClause::Breaking),
            None => None,
        };
        let satamu = match &q.satamu {
            Some(SatamuClause::Bypass(s)) => Some(SatamuClause::Bypass(s.clone())),
            Some(SatamuClause::Required) => Some(SatamuClause::Required),
            None => None,
        };
        let derive_station = match &q.derive_station {
            Some(s) => Some(s.clone()),
            None => None,
        };
        QueryPlan {
            node_targets,
            across,
            tiers,
            states,
            nash,
            pattern: copy_patterns(&q.pattern),
            lineage: q.lineage,
            gates,
            satamu,
            orbital: q.orbital,
            anchor: q.anchor,
            derive_station,
            abort_scan: q.abort_scan,
            filter_order: copy_plain(&q.filter_order),
        }
    }

    /// True when the query must be dispatched beyond the local node.
    pub fn is_federated(&self) -> (b: bool)
        ensures
            b == (self.node_targets@.len() > 0 || self.across is Some),
    {
        self.node_targets.len() > 0 || self.across.is_some()
    }

    /// True when governance must approve before results are released.
    pub fn satamu_required(&self) -> (b: bool)
        ensures
            b == (self.satamu matches Some(SatamuClause::Required)),
    {
        match &self.satamu {
            Some(SatamuClause::Required) => true,
            _ => false,
        }
    }
}

/// A copy of a list of plain values.
fn copy_plain<T: Copy>(v: &Vec<T>) -> (r: Vec<T>)
    ensures
        r@ == v@,
{
    let mut r: Vec<T> = Vec::new();
    let mut i: usize = 0;
    while i < v.len()
        invariant
            0 <= i <= v@.len(),
            r@ == v@.subrange(0, i as int),
        decreases v@.len() - i,
    {
        r.push(v[i]);
        i = i + 1;
        assert(r@ =~= v@.subrange(0, i as int));
    }
    assert(v@.subrange(0, v@.len() as int) =~= v@);
    r
}

/// A copy of a list of gate targets.
fn copy_gates(v: &Vec<GateTarget>) -> (r: Vec<GateTarget>)
    ensures
        r.deep_view() == v.deep_view(),
{
    let mut r: Vec<GateTarget> = Vec::new();
    let mut i: usize = 0;
    while i < v.len()
        invariant
            0 <= i <= v@.len(),
            r.deep_view() == v.deep_view().subrange(0, i as int),
        decreases v@.len() - i,
    {
        let g = match &v[i] {
            GateTarget::Named(s) => GateTarget::Named(s.clone()),
            GateTarget::All => GateTarget::All,
        };
        assert(g.deep_view() == v.deep_view()[i as int]);
        let ghost before = r.deep_view();
        let ghost gv = g.deep_view();
        r.push(g);
        assert(r.deep_view() =~= before.push(gv));
        i = i + 1;
        assert(r.deep_view() =~= v.deep_view().subrange(0, i as int));
    }
    assert(v.deep_view().subrange(0, v@.len() as int) =~= v.deep_view());
    r
}

/// A copy of a list of PATTERN conditions.
fn copy_patterns(v: &Vec<PatternCondition>) -> (r: Vec<PatternCondition>)
    ensures
        r.deep_view() == v.deep_view(),
{
    let mut r: Vec<PatternCondition> = Vec::new();
    let mut i: usize = 0;
    while i < v.len()
        invariant
            0 <= i <= v@.len(),
            r.deep_view() == v.deep_view().subrange(0, i as int),
        decreases v@.len() - i,
    {
        let c = match &v[i] {
            PatternCondition::Type(k) => PatternCondition::Type(*k),
            PatternCondition::Confidence { op, value } => PatternCondition::Confidence { op: *op, value: value.clone() },
            PatternCondition::MaxConstituents { op, value } => PatternCondition::MaxConstituents { op: *op, value: *value },
        };
        assert(c.deep_view() == v.deep_view()[i as int]);
        let ghost before = r.deep_view();
        let ghost cv = c.deep_view();
        r.push(c);
        assert(r.deep_view() =~= before.push(cv));
        i = i + 1;
        assert(r.deep_view() =~= v.deep_view().subrange(0, i as int));
    }
    assert(v.deep_view().subrange(0, v@.len() as int) =~= v.deep_view());
    r
}

/// The orbital range an ORBITAL clause selects: a range as written, and
/// for NOW the window 0 ± 5 clamped at zero (the orbital clock is bound
/// by the deployment, not here).
pub open spec fn orbital_range_spec(orbital: Option<OrbitalClause>) -> Option<(u64, u64)> {
    match orbital {
        Some(OrbitalClause::Range { start, end }) => Some((start, end)),
        Some(OrbitalClause::Now) => Some((0, 5)),
        None => None,
    }
}

/// The (lo, hi) orbital range of a query's ORBITAL clause, if any.
pub fn orbital_range_from_query(q: &HeptaQuery) -> (r: Option<(u64, u64)>)
    ensures
        r == orbital_range_spec(q.orbital),
{
    match &q.orbital {
        Some(OrbitalClause::Range { start, end }) => Some((*start, *end)),
        Some(OrbitalClause::Now) => {
            let now: u64 = 0;
            Some((now.saturating_sub(5), now + 5))
        },
        None => None,
    }
}

// ── Evaluation decisions ────────────────────────────────────────────────────

/// The WHERE conditions a query is evaluated with: its own, and for EMIT
/// also `Var[hist.event] = "BIRTH"` on the WHO variable (what was born).
pub open spec fn effective_where_spec(q: QueryView) -> Seq<WhereView> {
    if q.verb == Operation::Emit {
        q.where_conditions.push(
            WhereView {
                combinator: Combinator::And,
                var: q.who.primary.var,
                attr: "hist.event"@,
                test: TestView::Cmp { op: Op::Eq, val: ValueView::Text("BIRTH"@) },
            },
        )
    } else {
        q.where_conditions
    }
}

/// The WHERE conditions the query is evaluated with (see
/// `effective_where_spec`).
pub fn effective_where(q: &HeptaQuery) -> (w: Vec<WhereCondition>)
    ensures
        w.deep_view() == effective_where_spec(q.deep_view()),
{
    let mut w = copy_where(&q.where_conditions);
    if q.verb == Operation::Emit {
        let birth = WhereCondition {
            combinator: Combinator::And,
            var: q.who.primary.var.clone(),
            attr: "hist.event".to_owned(),
            test: ConditionTest::Cmp { op: Op::Eq, val: HeptaValue::Text("BIRTH".to_owned()) },
        };
        let ghost before = w.deep_view();
        let ghost bv = birth.deep_view();
        w.push(birth);
        assert(w.deep_view() =~= before.push(bv));
    }
    w
}

/// A copy of a list of WHERE conditions.
fn copy_where(v: &Vec<WhereCondition>) -> (r: Vec<WhereCondition>)
    ensures
        r.deep_view() == v.deep_view(),
{
    let mut r: Vec<WhereCondition> = Vec::new();
    let mut i: usize = 0;
    while i < v.len()
        invariant
            0 <= i <= v@.len(),
            r.deep_view() == v.deep_view().subrange(0, i as int),
        decreases v@.len() - i,
    {
        let c = &v[i];
        let test = match &c.test {
            ConditionTest::Cmp { op, val } => ConditionTest::Cmp {
                op: *op,
                val: match val {
                    HeptaValue::Null => HeptaValue::Null,
                    HeptaValue::Bool(b) => HeptaValue::Bool(*b),
                    HeptaValue::Int(n) => HeptaValue::Int(*n),
                    HeptaValue::Float(f) => HeptaValue::Float(f.clone()),
                    HeptaValue::Text(t) => HeptaValue::Text(t.clone()),
                },
            },
            ConditionTest::Exists => ConditionTest::Exists,
            ConditionTest::NotExists => ConditionTest::NotExists,
        };
        let d = WhereCondition { combinator: c.combinator, var: c.var.clone(), attr: c.attr.clone(), test };
        assert(d.deep_view() == v.deep_view()[i as int]);
        let ghost before = r.deep_view();
        let ghost dv = d.deep_view();
        r.push(d);
        assert(r.deep_view() =~= before.push(dv));
        i = i + 1;
        assert(r.deep_view() =~= v.deep_view().subrange(0, i as int));
    }
    assert(v.deep_view().subrange(0, v@.len() as int) =~= v.deep_view());
    r
}

/// How many matches a scan may stop after: a plain `HOW_MUCH LIMIT n`
/// allows stopping after `n`; HOW, TOP, MEASURE and GRAVITY need every
/// match, and so does a query without HOW_MUCH.
pub open spec fn early_limit_spec(q: QueryView) -> usize {
    if q.how is Some || q.measure is Some || q.gravity is Some {
        usize::MAX
    } else {
        match q.how_much {
            Some(HowMuchView::Limit(n)) => n,
            _ => usize::MAX,
        }
    }
}

/// The number of matches after which evaluation may stop.
pub fn early_limit(q: &HeptaQuery) -> (n: usize)
    ensures
        n == early_limit_spec(q.deep_view()),
{
    if q.how.is_some() || q.measure.is_some() || q.gravity.is_some() {
        usize::MAX
    } else {
        match &q.how_much {
            Some(HowMuchClause::Limit(n)) => *n,
            _ => usize::MAX,
        }
    }
}

/// Conditions combined left to right: the first outcome, then each later
/// one joined by its own combinator; no conditions hold.
pub open spec fn combined(combinators: Seq<Combinator>, outcomes: Seq<bool>) -> bool
    decreases outcomes.len(),
{
    if outcomes.len() == 0 {
        true
    } else if outcomes.len() == 1 {
        outcomes[0]
    } else {
        let prev = combined(combinators.drop_last(), outcomes.drop_last());
        match combinators.last() {
            Combinator::And => prev && outcomes.last(),
            Combinator::Or => prev || outcomes.last(),
        }
    }
}

/// Combines the outcomes of a list of conditions by their combinators
/// (the first condition's combinator is not used).
pub fn combine_outcomes(combinators: &Vec<Combinator>, outcomes: &Vec<bool>) -> (b: bool)
    requires
        combinators@.len() == outcomes@.len(),
    ensures
        b == combined(combinators@, outcomes@),
{
    if outcomes.len() == 0 {
        return true;
    }
    let mut ok = outcomes[0];
    let mut k: usize = 1;
    while k < outcomes.len()
        invariant
            1 <= k <= outcomes@.len(),
            combinators@.len() == outcomes@.len(),
            ok == combined(combinators@.subrange(0, k as int), outcomes@.subrange(0, k as int)),
        decreases outcomes@.len() - k,
    {
        proof {
            let c = combinators@.subrange(0, k + 1);
            let o = outcomes@.subrange(0, k + 1);
            assert(c.drop_last() =~= combinators@.subrange(0, k as int));
            assert(o.drop_last() =~= outcomes@.subrange(0, k as int));
        }
        ok = match combinators[k] {
            Combinator::And => ok && outcomes[k],
            Combinator::Or => ok || outcomes[k],
        };
        k = k + 1;
    }
    assert(combinators@.subrange(0, k as int) =~= combinators@);
    assert(outcomes@.subrange(0, k as int) =~= outcomes@);
    ok
}

/// Whether some entry epoch lies in an inclusive orbital range; with no
/// range, every history qualifies.
pub open spec fn in_orbital_range(epochs: Seq<u32>, range: Option<(u64, u64)>) -> bool {
    match range {
        None => true,
        Some((lo, hi)) => exists|k: int| 0 <= k < epochs.len() && lo <= #[trigger] epochs[k] <= hi,
    }
}

/// Whether a history with these entry epochs passes the ORBITAL range.
pub fn passes_orbital(epochs: &Vec<u32>, range: Option<(u64, u64)>) -> (b: bool)
    ensures
        b == in_orbital_range(epochs@, range),
{
    match range {
        None => true,
        Some((lo, hi)) => {
            let mut k: usize = 0;
            while k < epochs.len()
                invariant
                    0 <= k <= epochs@.len(),
                    range == Some((lo, hi)),
                    forall|m: int| 0 <= m < k ==> !(lo <= #[trigger] epochs@[m] <= hi),
                decreases epochs@.len() - k,
            {
                let e = epochs[k] as u64;
                if lo <= e && e <= hi {
                    assert(lo <= epochs@[k as int] <= hi);
                    return true;
                }
                k = k + 1;
            }
            false
        },
    }
}

/// Statistics of a streamed execution.
#[derive(Debug, Clone)]
pub struct StreamStats {
    /// Number of entities passed to the callback.
    pub matched: usize,
    /// Number of candidate entities evaluated.
    pub evaluated: usize,
    /// True if ABORT_SCAN fired before every candidate was evaluated.
    pub aborted: bool,
    /// The resolved query plan.
    pub plan: QueryPlan,
}

// ── ABORT_SCAN ─────────────────────────────────────────────────────────────

/// How many of `total` candidates to evaluate under an optional cap, and
/// whether the cap cut the candidates short.
pub open spec fn abort_scan_cap_spec(abort_scan: Option<u64>, total: usize) -> (usize, bool) {
    match abort_scan {
        Some(limit) => if (limit as usize) < total {
            (limit as usize, true)
        } else {
            (total, false)
        },
        None => (total, false),
    }
}

/// Given the candidate count and an optional ABORT_SCAN cap, returns how
/// many to evaluate and whether that is fewer than all of them.
pub fn abort_scan_cap(abort_scan: Option<u64>, total: usize) -> (r: (usize, bool))
    ensures
        r == abort_scan_cap_spec(abort_scan, total),
        r.0 <= total,
        r.1 == (r.0 < total),
{
    match abort_scan {
        Some(limit) => {
            #[verifier::truncate]
            let cap: usize = limit as usize;
            if cap < total {
                (cap, true)
            } else {
                (total, false)
            }
        },
        None => (total, false),
    }
}

// ── Epoch filter ──────────────────────────────────────────────────────────

/// The epoch bound a WHEN clause puts on journal entries.
#[derive(Debug, Clone, Copy, PartialEq, Eq, Structural)]
pub enum EpochFilter {
    AtOrBefore(u64),
    Before(u64),
    After(u64),
}

/// The filter of a WHEN clause; none for no clause and for AT EPOCH NOW.
pub open spec fn epoch_filter_spec(when: Option<WhenClause>) -> Option<EpochFilter> {
    match when {
        None => None,
        Some(WhenClause::AtEpoch(EpochRef::Now)) => None,
        Some(WhenClause::AtEpoch(EpochRef::Abs(n))) => Some(EpochFilter::AtOrBefore(n)),
        Some(WhenClause::BeforeEpoch(n)) => Some(EpochFilter::Before(n)),
        Some(WhenClause::AfterEpoch(n)) => Some(EpochFilter::After(n)),
    }
}

/// The epoch filter of a WHEN clause.
pub fn epoch_filter_from_when(when: Option<&WhenClause>) -> (f: Option<EpochFilter>)
    ensures
        f == epoch_filter_spec(
            match when {
                Some(w) => Some(*w),
                None => None,
            },
        ),
{
    match when {
        None => None,
        Some(WhenClause::AtEpoch(EpochRef::Now)) => None,
        Some(WhenClause::AtEpoch(EpochRef::Abs(n))) => Some(EpochFilter::AtOrBefore(*n)),
        Some(WhenClause::BeforeEpoch(n)) => Some(EpochFilter::Before(*n)),
        Some(WhenClause::AfterEpoch(n)) => Some(EpochFilter::After(*n)),
    }
}

/// Whether an entry of the given epoch passes the filter.
pub open spec fn epoch_passes_spec(epoch: u32, filter: EpochFilter) -> bool {
    match filter {
        EpochFilter::AtOrBefore(n) => epoch <= n,
        EpochFilter::Before(n) => epoch < n,
        EpochFilter::After(n) => epoch > n,
    }
}

/// Whether a journal entry written at `epoch` passes the filter.
pub fn entry_passes(epoch: u32, filter: &EpochFilter) -> (b: bool)
    ensures
        b == epoch_passes_spec(epoch, *filter),
{
    let ep = epoch as u64;
    match filter {
        EpochFilter::AtOrBefore(n) => ep <= *n,
        EpochFilter::Before(n) => ep < *n,
        EpochFilter::After(n) => ep > *n,
    }
}

// ── Comparison operators ───────────────────────────────────────────────────

/// The meaning of a comparison operator on integers.
pub open spec fn op_holds(op: Op, a: int, b: int) -> bool {
    match op {
        Op::Eq => a == b,
        Op::Neq => a != b,
        Op::Gt => a > b,
        Op::Lt => a < b,
        Op::Gte => a >= b,
        Op::Lte => a <= b,
    }
}

/// Apply a comparison operator to two ordered values.
pub fn apply_op_ord(op: &Op, a: i64, b: i64) -> (r: bool)
    ensures
        r == op_holds(*op, a as int, b as int),
{
    match op {
        Op::Eq => a == b,
        Op::Neq => a != b,
        Op::Gt => a > b,
        Op::Lt => a < b,
        Op::Gte => a >= b,
        Op::Lte => a <= b,
    }
}

/// Apply a comparison operator to two integers.
pub fn apply_op_i64(op: &Op, a: i64, b: i64) -> (r: bool)
    ensures
        r == op_holds(*op, a as int, b as int),
{
    apply_op_ord(op, a, b)
}

/// Lexicographic order on character sequences by code point, which is
/// the order of their UTF-8 encodings.
pub open spec fn seq_lt(a: Seq<char>, b: Seq<char>) -> bool
    decreases a.len(),
{
    if a.len() == 0 {
        b.len() > 0
    } else if b.len() == 0 {
        false
    } else if a[0] != b[0] {
        (a[0] as u32) < (b[0] as u32)
    } else {
        seq_lt(a.drop_first(), b.drop_first())
    }
}

/// The meaning of a comparison operator on text.
pub open spec fn op_holds_text(op: Op, a: Seq<char>, b: Seq<char>) -> bool {
    match op {
        Op::Eq => a == b,
        Op::Neq => a != b,
        Op::Gt => seq_lt(b, a),
        Op::Lt => seq_lt(a, b),
        Op::Gte => !seq_lt(a, b),
        Op::Lte => !seq_lt(b, a),
    }
}

/// Lexicographic comparison of two character vectors.
fn chars_lt(a: &Vec<char>, b: &Vec<char>) -> (r: bool)
    ensures
        r == seq_lt(a@, b@),
{
    proof {
        assert(a@.skip(0) =~= a@);
        assert(b@.skip(0) =~= b@);
    }
    let mut i: usize = 0;
    while i < a.len() && i < b.len() && a[i] == b[i]
        invariant
            0 <= i <= a@.len(),
            i <= b@.len(),
            forall|j: int| 0 <= j < i ==> a@[j] == b@[j],
            seq_lt(a@, b@) == seq_lt(a@.skip(i as int), b@.skip(i as int)),
        decreases a@.len() - i,
    {
        proof {
            assert(a@.skip(i as int).drop_first() =~= a@.skip(i + 1));
            assert(b@.skip(i as int).drop_first() =~= b@.skip(i + 1));
        }
        i = i + 1;
    }
    if i == a.len() {
        i < b.len()
    } else if i == b.len() {
        false
    } else {
        (a[i] as u32) < (b[i] as u32)
    }
}

/// Apply a comparison operator to two texts.
pub fn apply_op_text(op: &Op, a: &str, b: &str) -> (r: bool)
    ensures
        r == op_holds_text(*op, a@, b@),
{
    let va = crate::text::str_chars(a);
    let vb = crate::text::str_chars(b);
    match op {
        Op::Eq => crate::text::chars_eq_str(&va, b),
        Op::Neq => !crate::text::chars_eq_str(&va, b),
        Op::Gt => chars_lt(&vb, &va),
        Op::Lt => chars_lt(&va, &vb),
        Op::Gte => !chars_lt(&va, &vb),
        Op::Lte => !chars_lt(&vb, &va),
    }
}

// ── WHY helpers ────────────────────────────────────────────────────────────

/// The combinator joining a WHY condition to the previous one.
pub open spec fn why_combinator_spec(c: WhyCondition) -> Combinator {
    match c {
        WhyCondition::Lane { combinator, .. } => combinator,
        WhyCondition::QualityByte { combinator, .. } => combinator,
        WhyCondition::AttrExists { combinator, .. } => combinator,
        WhyCondition::AttrNotExists { combinator, .. } => combinator,
    }
}

/// The combinator of a WHY condition.
pub fn why_combinator(c: &WhyCondition) -> (r: &Combinator)
    ensures
        *r == why_combinator_spec(*c),
{
    match c {
        WhyCondition::Lane { combinator, .. } => combinator,
        WhyCondition::QualityByte { combinator, .. } => combinator,
        WhyCondition::AttrExists { combinator, .. } => combinator,
        WhyCondition::AttrNotExists { combinator, .. } => combinator,
    }
}

/// The stored text of each lane.
pub open spec fn lane_text(lane: LaneValue) -> Seq<char> {
    match lane {
        LaneValue::Gold => "Gold"@,
        LaneValue::Silver => "Silver"@,
        LaneValue::White => "White"@,
        LaneValue::Gray => "Gray"@,
        LaneValue::Red => "Red"@,
        LaneValue::Black => "Black"@,
    }
}

/// The stored text of a lane value.
pub fn lane_str(lane: &LaneValue) -> (s: &'static str)
    ensures
        s@ == lane_text(*lane),
{
    match lane {
        LaneValue::Gold => "Gold",
        LaneValue::Silver => "Silver",
        LaneValue::White => "White",
        LaneValue::Gray => "Gray",
        LaneValue::Red => "Red",
        LaneValue::Black => "Black",
    }
}

/// The comparison operators mean what they say on integers, and each has
/// its opposite: `!=` negates `=`, `>=` negates `<`, `<=` negates `>`.
pub proof fn law_comparison_operators(a: int, b: int)
    ensures
        op_holds(Op::Eq, a, b) == (a == b),
        op_holds(Op::Neq, a, b) == (a != b),
        op_holds(Op::Lt, a, b) == (a < b),
        op_holds(Op::Lte, a, b) == (a <= b),
        op_holds(Op::Gt, a, b) == (a > b),
        op_holds(Op::Gte, a, b) == (a >= b),
        op_holds(Op::Neq, a, b) == !op_holds(Op::Eq, a, b),
        op_holds(Op::Gte, a, b) == !op_holds(Op::Lt, a, b),
        op_holds(Op::Lte, a, b) == !op_holds(Op::Gt, a, b),
        op_holds(Op::Lt, a, b) == op_holds(Op::Gt, b, a),
        op_holds(Op::Lte, a, b) == op_holds(Op::Gte, b, a),
{
}

} // verus!
