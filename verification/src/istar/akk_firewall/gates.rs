//! QualityLane gate builders: zero-trust and sho (redaction) gates on top
//! of the constitutional meta rules.

use vstd::prelude::*;
use crate::text::{push_decimal, decimal};
use super::{AkkFirewall, AkkRule, FirewallVerdict, RuleEval, rule_is, is_meta_rules, is_insert_point};

verus! {

/// "Zero:QualityGate(t)".
pub open spec fn zero_gate_name(threshold: u8) -> Seq<char> {
    "Zero:QualityGate("@ + decimal(threshold as nat) + ")"@
}

/// "Sho:RedactGate(t)".
pub open spec fn sho_gate_name(threshold: u8) -> Seq<char> {
    "Sho:RedactGate("@ + decimal(threshold as nat) + ")"@
}

/// Zero trust: deny unless quality ≥ threshold (priority 200).
pub fn zero_trust_gate(threshold: u8) -> (r: AkkRule)
    ensures
        rule_is(
            r,
            zero_gate_name(threshold),
            200,
            RuleEval::QualityBelow { threshold, verdict: FirewallVerdict::Deny },
        ),
{
    let mut name = "Zero:QualityGate(".to_owned();
    push_decimal(&mut name, threshold as u64);
    name.append(")");
    AkkRule {
        name,
        priority: 200,
        eval: RuleEval::QualityBelow { threshold, verdict: FirewallVerdict::Deny },
    }
}

/// Sho (show) gate: redact when quality is below threshold (priority 150).
pub fn sho_redact_gate(threshold: u8) -> (r: AkkRule)
    ensures
        rule_is(
            r,
            sho_gate_name(threshold),
            150,
            RuleEval::QualityBelow { threshold, verdict: FirewallVerdict::Redact },
        ),
{
    let mut name = "Sho:RedactGate(".to_owned();
    push_decimal(&mut name, threshold as u64);
    name.append(")");
    AkkRule {
        name,
        priority: 150,
        eval: RuleEval::QualityBelow { threshold, verdict: FirewallVerdict::Redact },
    }
}

/// A standard firewall: the meta rules, then the zero-trust gate, then the
/// sho gate.
pub fn standard_firewall(zero_threshold: u8, sho_threshold: u8) -> (fw: AkkFirewall)
    ensures
        fw.well_formed(),
        fw.rules().len() == 7,
        is_meta_rules(fw.rules().take(4).push(fw.rules()[6])),
        rule_is(
            fw.rules()[4],
            zero_gate_name(zero_threshold),
            200,
            RuleEval::QualityBelow { threshold: zero_threshold, verdict: FirewallVerdict::Deny },
        ),
        rule_is(
            fw.rules()[5],
            sho_gate_name(sho_threshold),
            150,
            RuleEval::QualityBelow { threshold: sho_threshold, verdict: FirewallVerdict::Redact },
        ),
{
    let mut fw = AkkFirewall::new();
    let ghost r0 = fw.rules();
    fw.add_rule(zero_trust_gate(zero_threshold));
    let ghost r1 = fw.rules();
    proof {
        let k = choose|k: int| is_insert_point(r0, 200, k) && r1 == r0.insert(k, r1[k]);
        assert(k == 4) by {
            if k < 4 { assert(r0[k].priority < 200); }
            if k > 4 { assert(r0[4].priority >= 200); }
        }
    }
    fw.add_rule(sho_redact_gate(sho_threshold));
    proof {
        let r2 = fw.rules();
        let k = choose|k: int| is_insert_point(r1, 150, k) && r2 == r1.insert(k, r2[k]);
        assert(k == 5) by {
            if k < 5 { assert(r1[k].priority < 150); }
            if k > 5 { assert(r1[5].priority >= 150); }
        }
        assert(r2.take(4).push(r2[6]) =~= r0);
    }
    fw
}

} // verus!
