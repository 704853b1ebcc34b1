//! Laws of the HeptaScript grammar: GRAVITY is always bounded, and an
//! explicit ORBIT verb reads exactly like no verb at all.

use vstd::prelude::*;
use crate::heptascript::grammar::{
    tk, is_kw, well_ended, keyword_name, token_debug, got, expect_msg, nonneg_int, pos_int, number_text, nonzero_digit, has_nonzero_digit, number_positive, verb_of, p_verb, db_target_of, p_db_target, p_db_targets_rest, p_node, p_across, p_binding, p_bound_rest, p_who, keyword_attr, attr_word, p_dotted_rest, p_dotted, p_attrs_rest, p_attr_list, p_projection, p_projections_rest, p_what, op_of, p_op, p_value, p_var_attr, p_where_cond, p_where_rest, p_where, p_epoch_number, p_when, p_orbital, lane_of, p_lane_value, byte_int, p_why_cond, p_why_rest, p_why, tier_of, tier_msg, p_tiers_rest, p_tier, state_of, state_msg, p_states_rest, p_state, p_nash, pattern_kind_of, p_pattern_cond, p_patterns_rest, p_lineage, p_gates_rest, p_gate, p_satamu, p_sort_dir, p_how, p_how_much, p_measure, p_gravity_mode, p_gravity, anchor_of, p_anchor, p_stream, p_derive_station, p_abort_scan, stage_of, p_stages, p_filter_order, p_head, p_filters, p_tail, p_query, query_of, Parsed,
};
use crate::heptascript::operations::Operation;
use crate::heptascript::query::{Combinator, GravityModeView};
use crate::heptascript::token::{Keyword, TokenView};

verus! {

// ── GRAVITY ────────────────────────────────────────────────────────────────

/// Whether a GRAVITY mode carries its bound: a BAND width read from a
/// number literal above zero, or a group cap read from an integer literal
/// above zero.
pub open spec fn gravity_bounded(ts: Seq<TokenView>, m: GravityModeView) -> bool {
    match m {
        GravityModeView::Band(w) => exists|k: int| #[trigger] number_text(tk(ts, k)) == Some(w) && number_positive(tk(ts, k)),
        GravityModeView::ExactMatchCapped(n) => exists|k: int| #[trigger] pos_int(tk(ts, k)) is Some && n == (pos_int(tk(ts, k))->0) as usize,
    }
}

/// GRAVITY has no unbounded default: every GRAVITY clause the grammar
/// reads carries a positive BAND width or a MAX_GROUPS cap of at least one.
pub proof fn law_gravity_always_bounded(ts: Seq<TokenView>, i: int)
    requires
        p_gravity(ts, i) matches Ok((Some(_), _)),
    ensures
        p_gravity(ts, i) matches Ok((Some(g), _)) && gravity_bounded(ts, g.mode),
{
    if let Ok(((_var, _attr), j)) = p_var_attr(ts, i + 1, "expected variable name, got "@) {
        if let Ok((GravityModeView::Band(w), _)) = p_gravity_mode(ts, j) {
            assert(number_text(tk(ts, j + 1)) == Some(w) && number_positive(tk(ts, j + 1)));
        }
        if let Ok((GravityModeView::ExactMatchCapped(n), _)) = p_gravity_mode(ts, j) {
            assert(pos_int(tk(ts, j + 1)) is Some && n == (pos_int(tk(ts, j + 1))->0) as usize);
        }
    }
}

/// Every query the grammar accepts has a bounded GRAVITY clause, if any.
pub proof fn law_query_gravity_bounded(ts: Seq<TokenView>)
    requires
        p_query(ts) matches Ok(q) && q.gravity is Some,
    ensures
        p_query(ts) matches Ok(q) && gravity_bounded(ts, q.gravity->0.mode),
{
    if let Ok((h, i)) = p_head(ts) {
        if let Ok((f, j)) = p_filters(ts, i) {
            if let Ok((how, i1)) = p_how(ts, j) {
                if let Ok((how_much, i2)) = p_how_much(ts, i1) {
                    if let Ok((gravity, i3)) = p_gravity(ts, i2) {
                        if gravity is Some {
                            law_gravity_always_bounded(ts, i2);
                        }
                    }
                }
            }
        }
    }
}


// ── An explicit ORBIT verb ─────────────────────────────────────────────────

/// The token list with an explicit ORBIT verb in front.
pub open spec fn with_orbit(ts: Seq<TokenView>) -> Seq<TokenView> {
    seq![TokenView::Kw(Keyword::VerbOrbit)] + ts
}

/// A reading outcome one position later.
pub open spec fn later<T>(r: Parsed<T>) -> Parsed<T> {
    match r {
        Ok((v, j)) => Ok((v, j + 1)),
        Err(e) => Err(e),
    }
}

/// A successful reading ends at or after where it started.
pub open spec fn moves_on<T>(r: Parsed<T>, i: int) -> bool {
    match r {
        Ok((_, j)) => j >= i,
        Err(_) => true,
    }
}

proof fn lemma_tk(ts: Seq<TokenView>)
    ensures
        forall|i: int| i >= 0 ==> tk(with_orbit(ts), i + 1) == #[trigger] tk(ts, i),
{
    assert forall|i: int| i >= 0 implies tk(with_orbit(ts), i + 1) == #[trigger] tk(ts, i) by {
        if i < ts.len() {
            assert(with_orbit(ts)[i + 1] == ts[i]);
        }
    }
}

proof fn lemma_db_targets_rest(ts: Seq<TokenView>, i: int, acc: Seq<crate::heptascript::query::DbTarget>)
    requires
        i >= 0,
    ensures
        p_db_targets_rest(with_orbit(ts), i + 1, acc) == later(p_db_targets_rest(ts, i, acc)),
        moves_on(p_db_targets_rest(ts, i, acc), i),
    decreases ts.len() - i,
{
    lemma_tk(ts);
    if is_kw(ts, i, Keyword::Pipe) {
        if let Some(d) = db_target_of(tk(ts, i + 1)) {
            lemma_db_targets_rest(ts, i + 2, acc.push(d));
        }
    }
}

proof fn lemma_node(ts: Seq<TokenView>, i: int)
    requires
        i >= 0,
    ensures
        p_node(with_orbit(ts), i + 1) == later(p_node(ts, i)),
        moves_on(p_node(ts, i), i),
{
    lemma_tk(ts);
    if is_kw(ts, i, Keyword::Node) {
        if let Ok((d, j)) = p_db_target(ts, i + 1) {
            lemma_db_targets_rest(ts, j, seq![d]);
        }
    }
}

proof fn lemma_across(ts: Seq<TokenView>, i: int)
    requires
        i >= 0,
    ensures
        p_across(with_orbit(ts), i + 1) == later(p_across(ts, i)),
        moves_on(p_across(ts, i), i),
{
    lemma_tk(ts);
}

proof fn lemma_binding(ts: Seq<TokenView>, i: int)
    requires
        i >= 0,
    ensures
        p_binding(with_orbit(ts), i + 1) == later(p_binding(ts, i)),
        moves_on(p_binding(ts, i), i),
{
    lemma_tk(ts);
}

proof fn lemma_bound_rest(ts: Seq<TokenView>, i: int, acc: Seq<crate::heptascript::query::BindingView>)
    requires
        i >= 0,
    ensures
        p_bound_rest(with_orbit(ts), i + 1, acc) == later(p_bound_rest(ts, i, acc)),
        moves_on(p_bound_rest(ts, i, acc), i),
    decreases ts.len() - i,
{
    lemma_tk(ts);
    if is_kw(ts, i, Keyword::BoundTo) {
        lemma_binding(ts, i + 1);
        if let Ok((b, j)) = p_binding(ts, i + 1) {
            if i < j <= ts.len() {
                lemma_bound_rest(ts, j, acc.push(b));
            }
        }
    }
}

proof fn lemma_who(ts: Seq<TokenView>, i: int)
    requires
        i >= 0,
    ensures
        p_who(with_orbit(ts), i + 1) == later(p_who(ts, i)),
        moves_on(p_who(ts, i), i),
{
    lemma_tk(ts);
    if is_kw(ts, i, Keyword::Who) {
        lemma_binding(ts, i + 1);
        if let Ok((p, j)) = p_binding(ts, i + 1) {
            lemma_bound_rest(ts, j, Seq::empty());
        }
    }
}

proof fn lemma_dotted_rest(ts: Seq<TokenView>, i: int, acc: Seq<char>)
    requires
        i >= 0,
    ensures
        p_dotted_rest(with_orbit(ts), i + 1, acc) == later(p_dotted_rest(ts, i, acc)),
        moves_on(p_dotted_rest(ts, i, acc), i),
    decreases ts.len() - i,
{
    lemma_tk(ts);
    if is_kw(ts, i, Keyword::Dot) {
        if let Some(p) = attr_word(tk(ts, i + 1)) {
            lemma_dotted_rest(ts, i + 2, acc + "."@ + p);
        }
    }
}

proof fn lemma_dotted(ts: Seq<TokenView>, i: int)
    requires
        i >= 0,
    ensures
        p_dotted(with_orbit(ts), i + 1) == later(p_dotted(ts, i)),
        moves_on(p_dotted(ts, i), i),
{
    lemma_tk(ts);
    if let Some(f) = attr_word(tk(ts, i)) {
        lemma_dotted_rest(ts, i + 1, f);
    }
}

proof fn lemma_attrs_rest(ts: Seq<TokenView>, i: int, acc: Seq<Seq<char>>)
    requires
        i >= 0,
    ensures
        p_attrs_rest(with_orbit(ts), i + 1, acc) == later(p_attrs_rest(ts, i, acc)),
        moves_on(p_attrs_rest(ts, i, acc), i),
    decreases ts.len() - i,
{
    lemma_tk(ts);
    if is_kw(ts, i, Keyword::Comma) {
        lemma_dotted(ts, i + 1);
        if let Ok((a, j)) = p_dotted(ts, i + 1) {
            if i < j <= ts.len() {
                lemma_attrs_rest(ts, j, acc.push(a));
            }
        }
    }
}

proof fn lemma_attr_list(ts: Seq<TokenView>, i: int)
    requires
        i >= 0,
    ensures
        p_attr_list(with_orbit(ts), i + 1) == later(p_attr_list(ts, i)),
        moves_on(p_attr_list(ts, i), i),
{
    lemma_tk(ts);
    lemma_dotted(ts, i);
    if let Ok((a, j)) = p_dotted(ts, i) {
        lemma_attrs_rest(ts, j, seq![a]);
    }
}

proof fn lemma_projection(ts: Seq<TokenView>, i: int)
    requires
        i >= 0,
    ensures
        p_projection(with_orbit(ts), i + 1) == later(p_projection(ts, i)),
        moves_on(p_projection(ts, i), i),
{
    lemma_tk(ts);
    lemma_attr_list(ts, i + 2);
}

proof fn lemma_projections_rest(ts: Seq<TokenView>, i: int, acc: Seq<crate::heptascript::query::ProjectionView>)
    requires
        i >= 0,
    ensures
        p_projections_rest(with_orbit(ts), i + 1, acc) == later(p_projections_rest(ts, i, acc)),
        moves_on(p_projections_rest(ts, i, acc), i),
    decreases ts.len() - i,
{
    lemma_tk(ts);
    if is_kw(ts, i, Keyword::Comma) {
        lemma_projection(ts, i + 1);
        if let Ok((p, j)) = p_projection(ts, i + 1) {
            if i < j <= ts.len() {
                lemma_projections_rest(ts, j, acc.push(p));
            }
        }
    }
}

proof fn lemma_what(ts: Seq<TokenView>, i: int)
    requires
        i >= 0,
    ensures
        p_what(with_orbit(ts), i + 1) == later(p_what(ts, i)),
        moves_on(p_what(ts, i), i),
{
    lemma_tk(ts);
    if is_kw(ts, i, Keyword::What) {
        lemma_projection(ts, i + 1);
        if let Ok((p, j)) = p_projection(ts, i + 1) {
            lemma_projections_rest(ts, j, seq![p]);
        }
    }
}

proof fn lemma_op(ts: Seq<TokenView>, i: int)
    requires
        i >= 0,
    ensures
        p_op(with_orbit(ts), i + 1) == later(p_op(ts, i)),
        moves_on(p_op(ts, i), i),
{
    lemma_tk(ts);
}

proof fn lemma_value(ts: Seq<TokenView>, i: int)
    requires
        i >= 0,
    ensures
        p_value(with_orbit(ts), i + 1) == later(p_value(ts, i)),
        moves_on(p_value(ts, i), i),
{
    lemma_tk(ts);
}

proof fn lemma_var_attr(ts: Seq<TokenView>, i: int, missing: Seq<char>)
    requires
        i >= 0,
    ensures
        p_var_attr(with_orbit(ts), i + 1, missing) == later(p_var_attr(ts, i, missing)),
        moves_on(p_var_attr(ts, i, missing), i),
{
    lemma_tk(ts);
    lemma_dotted(ts, i + 2);
}

proof fn lemma_where_cond(ts: Seq<TokenView>, i: int, c: Combinator)
    requires
        i >= 0,
    ensures
        p_where_cond(with_orbit(ts), i + 1, c) == later(p_where_cond(ts, i, c)),
        moves_on(p_where_cond(ts, i, c), i),
{
    lemma_tk(ts);
    lemma_var_attr(ts, i, "expected variable in WHERE condition, got "@);
    if let Ok((_, j)) = p_var_attr(ts, i, "expected variable in WHERE condition, got "@) {
        lemma_op(ts, j);
        if let Ok((_, k)) = p_op(ts, j) {
            lemma_value(ts, k);
        }
    }
}

proof fn lemma_where_rest(ts: Seq<TokenView>, i: int, acc: Seq<crate::heptascript::query::WhereView>)
    requires
        i >= 0,
    ensures
        p_where_rest(with_orbit(ts), i + 1, acc) == later(p_where_rest(ts, i, acc)),
        moves_on(p_where_rest(ts, i, acc), i),
    decreases ts.len() - i,
{
    lemma_tk(ts);
    match tk(ts, i) {
        TokenView::Kw(Keyword::And) => {
            lemma_where_cond(ts, i + 1, Combinator::And);
            if let Ok((w, j)) = p_where_cond(ts, i + 1, Combinator::And) {
                if i < j <= ts.len() {
                    lemma_where_rest(ts, j, acc.push(w));
                }
            }
        },
        TokenView::Kw(Keyword::Or) => {
            lemma_where_cond(ts, i + 1, Combinator::Or);
            if let Ok((w, j)) = p_where_cond(ts, i + 1, Combinator::Or) {
                if i < j <= ts.len() {
                    lemma_where_rest(ts, j, acc.push(w));
                }
            }
        },
        TokenView::Ident(_) => {
            lemma_where_cond(ts, i, Combinator::And);
            if let Ok((w, j)) = p_where_cond(ts, i, Combinator::And) {
                if i < j <= ts.len() {
                    lemma_where_rest(ts, j, acc.push(w));
                }
            }
        },
        _ => {},
    }
}

proof fn lemma_where(ts: Seq<TokenView>, i: int)
    requires
        i >= 0,
    ensures
        p_where(with_orbit(ts), i + 1) == later(p_where(ts, i)),
        moves_on(p_where(ts, i), i),
{
    lemma_tk(ts);
    if is_kw(ts, i, Keyword::Where) {
        lemma_where_cond(ts, i + 1, Combinator::And);
        if let Ok((w, j)) = p_where_cond(ts, i + 1, Combinator::And) {
            lemma_where_rest(ts, j, seq![w]);
        }
    }
}

proof fn lemma_when(ts: Seq<TokenView>, i: int)
    requires
        i >= 0,
    ensures
        p_when(with_orbit(ts), i + 1) == later(p_when(ts, i)),
        moves_on(p_when(ts, i), i),
{
    lemma_tk(ts);
    assert(p_epoch_number(with_orbit(ts), i + 3) == later(p_epoch_number(ts, i + 2)));
}

proof fn lemma_orbital(ts: Seq<TokenView>, i: int)
    requires
        i >= 0,
    ensures
        p_orbital(with_orbit(ts), i + 1) == later(p_orbital(ts, i)),
        moves_on(p_orbital(ts, i), i),
{
    lemma_tk(ts);
}

proof fn lemma_why_cond(ts: Seq<TokenView>, i: int, c: Combinator)
    requires
        i >= 0,
    ensures
        p_why_cond(with_orbit(ts), i + 1, c) == later(p_why_cond(ts, i, c)),
        moves_on(p_why_cond(ts, i, c), i),
{
    lemma_tk(ts);
    lemma_op(ts, i + 1);
    if let Ok((_, j)) = p_op(ts, i + 1) {
        assert(p_lane_value(with_orbit(ts), j + 1) == later(p_lane_value(ts, j)));
    }
    lemma_dotted(ts, i + 2);
}

proof fn lemma_why_rest(ts: Seq<TokenView>, i: int, acc: Seq<crate::heptascript::query::WhyView>)
    requires
        i >= 0,
    ensures
        p_why_rest(with_orbit(ts), i + 1, acc) == later(p_why_rest(ts, i, acc)),
        moves_on(p_why_rest(ts, i, acc), i),
    decreases ts.len() - i,
{
    lemma_tk(ts);
    match tk(ts, i) {
        TokenView::Kw(Keyword::And) => {
            lemma_why_cond(ts, i + 1, Combinator::And);
            if let Ok((w, j)) = p_why_cond(ts, i + 1, Combinator::And) {
                if i < j <= ts.len() {
                    lemma_why_rest(ts, j, acc.push(w));
                }
            }
        },
        TokenView::Kw(Keyword::Or) => {
            lemma_why_cond(ts, i + 1, Combinator::Or);
            if let Ok((w, j)) = p_why_cond(ts, i + 1, Combinator::Or) {
                if i < j <= ts.len() {
                    lemma_why_rest(ts, j, acc.push(w));
                }
            }
        },
        TokenView::Kw(Keyword::Lane) => {
            lemma_why_cond(ts, i, Combinator::And);
            if let Ok((w, j)) = p_why_cond(ts, i, Combinator::And) {
                if i < j <= ts.len() {
                    lemma_why_rest(ts, j, acc.push(w));
                }
            }
        },
        TokenView::Kw(Keyword::QualityByte) => {
            lemma_why_cond(ts, i, Combinator::And);
            if let Ok((w, j)) = p_why_cond(ts, i, Combinator::And) {
                if i < j <= ts.len() {
                    lemma_why_rest(ts, j, acc.push(w));
                }
            }
        },
        _ => {},
    }
}

proof fn lemma_why(ts: Seq<TokenView>, i: int)
    requires
        i >= 0,
    ensures
        p_why(with_orbit(ts), i + 1) == later(p_why(ts, i)),
        moves_on(p_why(ts, i), i),
{
    lemma_tk(ts);
    if is_kw(ts, i, Keyword::Why) {
        lemma_why_cond(ts, i + 1, Combinator::And);
        if let Ok((w, j)) = p_why_cond(ts, i + 1, Combinator::And) {
            lemma_why_rest(ts, j, seq![w]);
        }
    }
}

proof fn lemma_tiers_rest(ts: Seq<TokenView>, i: int, acc: Seq<crate::heptascript::query::StorageTier>)
    requires
        i >= 0,
    ensures
        p_tiers_rest(with_orbit(ts), i + 1, acc) == later(p_tiers_rest(ts, i, acc)),
        moves_on(p_tiers_rest(ts, i, acc), i),
    decreases ts.len() - i,
{
    lemma_tk(ts);
    if is_kw(ts, i, Keyword::Pipe) {
        if let Some(t) = tier_of(tk(ts, i + 1)) {
            lemma_tiers_rest(ts, i + 2, acc.push(t));
        }
    }
}

proof fn lemma_tier(ts: Seq<TokenView>, i: int)
    requires
        i >= 0,
    ensures
        p_tier(with_orbit(ts), i + 1) == later(p_tier(ts, i)),
        moves_on(p_tier(ts, i), i),
{
    lemma_tk(ts);
    if let Some(t) = tier_of(tk(ts, i + 1)) {
        lemma_tiers_rest(ts, i + 2, seq![t]);
    }
}

proof fn lemma_states_rest(ts: Seq<TokenView>, i: int, acc: Seq<crate::heptascript::query::LifecycleState>)
    requires
        i >= 0,
    ensures
        p_states_rest(with_orbit(ts), i + 1, acc) == later(p_states_rest(ts, i, acc)),
        moves_on(p_states_rest(ts, i, acc), i),
    decreases ts.len() - i,
{
    lemma_tk(ts);
    if is_kw(ts, i, Keyword::Pipe) {
        if let Some(s) = state_of(tk(ts, i + 1)) {
            lemma_states_rest(ts, i + 2, acc.push(s));
        }
    }
}

proof fn lemma_state(ts: Seq<TokenView>, i: int)
    requires
        i >= 0,
    ensures
        p_state(with_orbit(ts), i + 1) == later(p_state(ts, i)),
        moves_on(p_state(ts, i), i),
{
    lemma_tk(ts);
    if let Some(s) = state_of(tk(ts, i + 1)) {
        lemma_states_rest(ts, i + 2, seq![s]);
    }
}

proof fn lemma_nash(ts: Seq<TokenView>, i: int)
    requires
        i >= 0,
    ensures
        p_nash(with_orbit(ts), i + 1) == later(p_nash(ts, i)),
        moves_on(p_nash(ts, i), i),
{
    lemma_tk(ts);
    lemma_op(ts, i + 2);
}

proof fn lemma_pattern_cond(ts: Seq<TokenView>, i: int)
    requires
        i >= 0,
    ensures
        p_pattern_cond(with_orbit(ts), i + 1) == later(p_pattern_cond(ts, i)),
        moves_on(p_pattern_cond(ts, i), i),
{
    lemma_tk(ts);
    lemma_op(ts, i + 1);
}

proof fn lemma_patterns_rest(ts: Seq<TokenView>, i: int, acc: Seq<crate::heptascript::query::PatternView>)
    requires
        i >= 0,
    ensures
        p_patterns_rest(with_orbit(ts), i + 1, acc) == later(p_patterns_rest(ts, i, acc)),
        moves_on(p_patterns_rest(ts, i, acc), i),
    decreases ts.len() - i,
{
    lemma_tk(ts);
    if is_kw(ts, i, Keyword::Pattern) {
        lemma_pattern_cond(ts, i + 1);
        if let Ok((c, j)) = p_pattern_cond(ts, i + 1) {
            if i < j <= ts.len() {
                lemma_patterns_rest(ts, j, acc.push(c));
            }
        }
    }
}

proof fn lemma_lineage(ts: Seq<TokenView>, i: int)
    requires
        i >= 0,
    ensures
        p_lineage(with_orbit(ts), i + 1) == later(p_lineage(ts, i)),
        moves_on(p_lineage(ts, i), i),
{
    lemma_tk(ts);
}

proof fn lemma_gates_rest(ts: Seq<TokenView>, i: int, acc: Seq<crate::heptascript::query::GateView>)
    requires
        i >= 0,
    ensures
        p_gates_rest(with_orbit(ts), i + 1, acc) == later(p_gates_rest(ts, i, acc)),
        moves_on(p_gates_rest(ts, i, acc), i),
    decreases ts.len() - i,
{
    lemma_tk(ts);
    if is_kw(ts, i, Keyword::Comma) {
        if let TokenView::Ident(s) = tk(ts, i + 1) {
            lemma_gates_rest(ts, i + 2, acc.push(crate::heptascript::query::GateView::Named(s)));
        }
    }
}

proof fn lemma_gate(ts: Seq<TokenView>, i: int)
    requires
        i >= 0,
    ensures
        p_gate(with_orbit(ts), i + 1) == later(p_gate(ts, i)),
        moves_on(p_gate(ts, i), i),
{
    lemma_tk(ts);
    if let TokenView::Ident(s) = tk(ts, i + 1) {
        lemma_gates_rest(ts, i + 2, seq![crate::heptascript::query::GateView::Named(s)]);
    }
}

proof fn lemma_satamu(ts: Seq<TokenView>, i: int)
    requires
        i >= 0,
    ensures
        p_satamu(with_orbit(ts), i + 1) == later(p_satamu(ts, i)),
        moves_on(p_satamu(ts, i), i),
{
    lemma_tk(ts);
}

proof fn lemma_how(ts: Seq<TokenView>, i: int)
    requires
        i >= 0,
    ensures
        p_how(with_orbit(ts), i + 1) == later(p_how(ts, i)),
        moves_on(p_how(ts, i), i),
{
    lemma_tk(ts);
    lemma_var_attr(ts, i + 2, "expected variable in HOW BY, got "@);
}

proof fn lemma_how_much(ts: Seq<TokenView>, i: int)
    requires
        i >= 0,
    ensures
        p_how_much(with_orbit(ts), i + 1) == later(p_how_much(ts, i)),
        moves_on(p_how_much(ts, i), i),
{
    lemma_tk(ts);
    lemma_var_attr(ts, i + 4, "expected variable in TOP BY, got "@);
}

proof fn lemma_measure(ts: Seq<TokenView>, i: int)
    requires
        i >= 0,
    ensures
        p_measure(with_orbit(ts), i + 1) == later(p_measure(ts, i)),
        moves_on(p_measure(ts, i), i),
{
    lemma_tk(ts);
    lemma_var_attr(ts, i + 2, "expected variable name, got "@);
}

proof fn lemma_gravity(ts: Seq<TokenView>, i: int)
    requires
        i >= 0,
    ensures
        p_gravity(with_orbit(ts), i + 1) == later(p_gravity(ts, i)),
        moves_on(p_gravity(ts, i), i),
{
    lemma_tk(ts);
    lemma_var_attr(ts, i + 1, "expected variable name, got "@);
    if let Ok((_, j)) = p_var_attr(ts, i + 1, "expected variable name, got "@) {
        assert(p_gravity_mode(with_orbit(ts), j + 1) == later(p_gravity_mode(ts, j)));
    }
}

proof fn lemma_stages(ts: Seq<TokenView>, i: int, acc: Seq<crate::heptascript::query::FilterStage>)
    requires
        i >= 0,
    ensures
        p_stages(with_orbit(ts), i + 1, acc) == (p_stages(ts, i, acc).0, p_stages(ts, i, acc).1 + 1),
        p_stages(ts, i, acc).1 >= i,
    decreases ts.len() - i,
{
    lemma_tk(ts);
    if let Some(s) = stage_of(tk(ts, i)) {
        if is_kw(ts, i + 1, Keyword::Comma) {
            lemma_stages(ts, i + 2, acc.push(s));
        } else {
            lemma_stages(ts, i + 1, acc.push(s));
        }
    }
}

proof fn lemma_hints(ts: Seq<TokenView>, i: int)
    requires
        i >= 0,
    ensures
        p_anchor(with_orbit(ts), i + 1) == later(p_anchor(ts, i)),
        moves_on(p_anchor(ts, i), i),
        p_stream(with_orbit(ts), i + 1) == (p_stream(ts, i).0, p_stream(ts, i).1 + 1),
        p_stream(ts, i).1 >= i,
        p_derive_station(with_orbit(ts), i + 1) == later(p_derive_station(ts, i)),
        moves_on(p_derive_station(ts, i), i),
        p_abort_scan(with_orbit(ts), i + 1) == later(p_abort_scan(ts, i)),
        moves_on(p_abort_scan(ts, i), i),
        p_filter_order(with_orbit(ts), i + 1) == later(p_filter_order(ts, i)),
        moves_on(p_filter_order(ts, i), i),
{
    lemma_tk(ts);
    lemma_stages(ts, i + 1, Seq::empty());
}

proof fn lemma_filters(ts: Seq<TokenView>, i: int)
    requires
        i >= 0,
    ensures
        p_filters(with_orbit(ts), i + 1) == later(p_filters(ts, i)),
        moves_on(p_filters(ts, i), i),
{
    lemma_tier(ts, i);
    if let Ok((_, i1)) = p_tier(ts, i) {
        lemma_state(ts, i1);
        if let Ok((_, i2)) = p_state(ts, i1) {
            lemma_nash(ts, i2);
            if let Ok((_, i3)) = p_nash(ts, i2) {
                lemma_patterns_rest(ts, i3, Seq::empty());
                if let Ok((_, i4)) = p_patterns_rest(ts, i3, Seq::empty()) {
                    lemma_lineage(ts, i4);
                    if let Ok((_, i5)) = p_lineage(ts, i4) {
                        lemma_gate(ts, i5);
                        if let Ok((_, i6)) = p_gate(ts, i5) {
                            lemma_satamu(ts, i6);
                        }
                    }
                }
            }
        }
    }
}

proof fn lemma_tail(ts: Seq<TokenView>, i: int)
    requires
        i >= 0,
    ensures
        p_tail(with_orbit(ts), i + 1) == later(p_tail(ts, i)),
        moves_on(p_tail(ts, i), i),
{
    lemma_how(ts, i);
    if let Ok((_, i1)) = p_how(ts, i) {
        lemma_how_much(ts, i1);
        if let Ok((_, i2)) = p_how_much(ts, i1) {
            lemma_gravity(ts, i2);
            if let Ok((_, i3)) = p_gravity(ts, i2) {
                lemma_measure(ts, i3);
                if let Ok((_, i4)) = p_measure(ts, i3) {
                    lemma_hints(ts, i4);
                    if let Ok((_, i5)) = p_anchor(ts, i4) {
                        lemma_hints(ts, i5);
                        let (_, i6) = p_stream(ts, i5);
                        lemma_hints(ts, i6);
                        if let Ok((_, i7)) = p_derive_station(ts, i6) {
                            lemma_hints(ts, i7);
                            if let Ok((_, i8)) = p_abort_scan(ts, i7) {
                                lemma_hints(ts, i8);
                            }
                        }
                    }
                }
            }
        }
    }
}

proof fn lemma_head(ts: Seq<TokenView>)
    requires
        verb_of(tk(ts, 0)) is None,
    ensures
        p_head(with_orbit(ts)) == later(p_head(ts)),
        moves_on(p_head(ts), 0),
{
    lemma_tk(ts);
    assert(tk(with_orbit(ts), 0) == TokenView::Kw(Keyword::VerbOrbit));
    lemma_node(ts, 0);
    if let Ok((_, i2)) = p_node(ts, 0) {
        lemma_across(ts, i2);
        if let Ok((_, i3)) = p_across(ts, i2) {
            lemma_who(ts, i3);
            if let Ok((_, i4)) = p_who(ts, i3) {
                lemma_what(ts, i4);
                if let Ok((_, i5)) = p_what(ts, i4) {
                    lemma_where(ts, i5);
                    if let Ok((_, i6)) = p_where(ts, i5) {
                        lemma_when(ts, i6);
                        if let Ok((_, i7)) = p_when(ts, i6) {
                            lemma_orbital(ts, i7);
                            if let Ok((_, i8)) = p_orbital(ts, i7) {
                                lemma_why(ts, i8);
                            }
                        }
                    }
                }
            }
        }
    }
}

/// A query without a leading verb reads exactly as the same query with an
/// explicit ORBIT in front: the verb defaults to ORBIT, and every query
/// written before verbs existed keeps its meaning.
pub proof fn law_explicit_orbit_is_default(ts: Seq<TokenView>)
    requires
        verb_of(tk(ts, 0)) is None,
    ensures
        p_query(with_orbit(ts)) == p_query(ts),
        p_query(ts) matches Ok(q) ==> q.verb == Operation::Orbit,
{
    lemma_head(ts);
    if let Ok((_, i)) = p_head(ts) {
        lemma_filters(ts, i);
        if let Ok((_, j)) = p_filters(ts, i) {
            lemma_tail(ts, j);
        }
    }
}

} // verus!
