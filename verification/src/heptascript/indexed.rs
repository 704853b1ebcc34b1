//! Index planning helpers: the orbital-epoch range a WHEN clause prunes
//! on, whether a query reads current state, and which WHERE condition an
//! exact-match index can answer.

use vstd::prelude::*;
use super::engine::{epoch_filter_spec, epoch_passes_spec};
use super::query::{Combinator, ConditionTest, EpochRef, HeptaValue, Op, TestView, ValueView, WhenClause, WhereCondition, WhereView};

verus! {

/// The inclusive epoch range a WHEN clause selects; none for AT EPOCH NOW.
/// AT EPOCH n reads the state as of n, which every entry up to n makes.
pub open spec fn nairu_range_spec(when: WhenClause) -> Option<(u64, u64)> {
    match when {
        WhenClause::AtEpoch(EpochRef::Now) => None,
        WhenClause::AtEpoch(EpochRef::Abs(n)) => Some((0, n)),
        WhenClause::BeforeEpoch(n) => Some((0, if n == 0 { 0 } else { (n - 1) as u64 })),
        WhenClause::AfterEpoch(n) => Some((if n == u64::MAX { n } else { (n + 1) as u64 }, 0xFFFF_FFFFu64)),
    }
}

/// Map a WHEN clause to the orbital-epoch range to prune on (saturating
/// at the ends of the epoch range).
pub fn nairu_range_from_when(when: &WhenClause) -> (r: Option<(u64, u64)>)
    ensures
        r == nairu_range_spec(*when),
{
    match when {
        WhenClause::AtEpoch(EpochRef::Now) => None,
        WhenClause::AtEpoch(EpochRef::Abs(n)) => Some((0, *n)),
        WhenClause::BeforeEpoch(n) => Some((0, n.saturating_sub(1))),
        WhenClause::AfterEpoch(n) => Some((n.saturating_add(1), 0xFFFF_FFFFu64)),
    }
}

/// Pruning by the range never drops what the full scan matches: every
/// entry epoch the WHEN clause's filter admits lies in the range.
pub proof fn law_nairu_range_covers_filter(clause: WhenClause, epoch: u32)
    requires
        clause != WhenClause::AtEpoch(EpochRef::Now),
        epoch_passes_spec(epoch, epoch_filter_spec(Some(clause))->0),
    ensures
        nairu_range_spec(clause) matches Some((lo, hi)) && lo <= epoch <= hi,
{
}

/// True when the query reads current state: no WHEN clause, or AT EPOCH NOW.
pub fn when_is_current(when: &Option<WhenClause>) -> (b: bool)
    ensures
        b == (*when is None || *when == Some(WhenClause::AtEpoch(EpochRef::Now))),
{
    match when {
        None => true,
        Some(WhenClause::AtEpoch(EpochRef::Now)) => true,
        _ => false,
    }
}

/// The condition an exact-match index can answer: the first WHERE
/// condition, when it tests equality and no later condition is ORed in.
pub open spec fn indexable_spec(c: Seq<WhereView>) -> Option<(Seq<char>, ValueView)> {
    if c.len() == 0 {
        None
    } else if exists|k: int| 1 <= k < c.len() && (#[trigger] c[k]).combinator == Combinator::Or {
        None
    } else {
        match c[0].test {
            TestView::Cmp { op: Op::Eq, val } => Some((c[0].attr, val)),
            _ => None,
        }
    }
}

/// The attribute and literal of the WHERE condition an exact-match index
/// can answer, if any (see `indexable_spec`).
pub fn indexable_condition(conditions: &Vec<WhereCondition>) -> (r: Option<(&str, &HeptaValue)>)
    ensures
        match r {
            Some((a, v)) => indexable_spec(conditions.deep_view()) == Some((a@, v.deep_view())),
            None => indexable_spec(conditions.deep_view()) is None,
        },
{
    if conditions.len() == 0 {
        return None;
    }
    let mut k: usize = 1;
    while k < conditions.len()
        invariant
            1 <= k <= conditions@.len(),
            forall|m: int| 1 <= m < k ==> (#[trigger] conditions.deep_view()[m]).combinator != Combinator::Or,
        decreases conditions@.len() - k,
    {
        if conditions[k].combinator == Combinator::Or {
            assert(conditions.deep_view()[k as int].combinator == Combinator::Or);
            return None;
        }
        k = k + 1;
    }
    let first = &conditions[0];
    match &first.test {
        ConditionTest::Cmp { op: Op::Eq, val } => Some((first.attr.as_str(), val)),
        _ => None,
    }
}

} // verus!
