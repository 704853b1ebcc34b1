use bahyway::istar::akk_firewall::gates;
use bahyway::istar::akk_firewall::{
    meta_rules, AkkContext, AkkFirewall, AkkOperation, AkkResource, AkkRule, AkkSubject,
    FirewallVerdict, RuleCondition, RuleEval,
};

fn ctx(
    quality: u8,
    subject_domain: u8,
    resource_domain: u8,
    clearance: u8,
    sensitivity: u8,
    op: AkkOperation,
) -> AkkContext {
    AkkContext {
        subject: AkkSubject {
            id: "test-subject".into(),
            domain: subject_domain,
            quality,
            tribe: None,
            clearance,
        },
        resource: AkkResource {
            path: "test/resource".into(),
            domain: resource_domain,
            sensitivity,
        },
        operation: op,
        timestamp: 0,
    }
}

#[test]
fn default_allow_when_nothing_matches() {
    let fw = AkkFirewall::new();
    let c = ctx(240, 1, 1, 0xFF, 0, AkkOperation::Read);
    assert_eq!(fw.evaluate(&c), FirewallVerdict::Allow);
}

#[test]
fn meta1_dead_quality_denied() {
    let fw = AkkFirewall::new();
    let c = ctx(10, 1, 1, 0xFF, 0, AkkOperation::Read);
    assert_eq!(fw.evaluate(&c), FirewallVerdict::Deny);
}

#[test]
fn meta1_boundary_quality_59_is_allowed() {
    let fw = AkkFirewall::new();
    let c = ctx(59, 1, 1, 0xFF, 0, AkkOperation::Read);
    assert_eq!(fw.evaluate(&c), FirewallVerdict::Allow);
}

#[test]
fn meta2_cross_domain_write_without_clearance_denied() {
    let fw = AkkFirewall::new();
    let c = ctx(240, 1, 2, 0x50, 0, AkkOperation::Write);
    assert_eq!(fw.evaluate(&c), FirewallVerdict::Deny);
}

#[test]
fn meta2_cross_domain_write_with_sovereign_clearance_allowed() {
    let fw = AkkFirewall::new();
    let c = ctx(240, 1, 2, 0xA0, 0, AkkOperation::Write);
    assert_eq!(fw.evaluate(&c), FirewallVerdict::Allow);
}

#[test]
fn meta2_same_domain_write_without_clearance_allowed() {
    let fw = AkkFirewall::new();
    let c = ctx(240, 1, 1, 0x00, 0, AkkOperation::Write);
    assert_eq!(fw.evaluate(&c), FirewallVerdict::Allow);
}

#[test]
fn meta3_admin_below_gem_quality_denied() {
    let fw = AkkFirewall::new();
    let c = ctx(199, 1, 1, 0xFF, 0, AkkOperation::Admin);
    assert_eq!(fw.evaluate(&c), FirewallVerdict::Deny);
}

#[test]
fn meta3_admin_at_gem_quality_falls_through_to_audit_then_allow() {
    let fw = AkkFirewall::new();
    let c = ctx(200, 1, 1, 0xFF, 0, AkkOperation::Admin);
    assert_eq!(fw.evaluate(&c), FirewallVerdict::Allow);
}

#[test]
fn meta4_sensitivity_exceeds_clearance_escalates() {
    let fw = AkkFirewall::new();
    let c = ctx(240, 1, 1, 0x10, 0x50, AkkOperation::Read);
    assert_eq!(fw.evaluate(&c), FirewallVerdict::Escalate);
}

#[test]
fn meta5_delete_is_audited_but_allowed_absent_other_denials() {
    let fw = AkkFirewall::new();
    let c = ctx(240, 1, 1, 0xFF, 0, AkkOperation::Delete);
    assert_eq!(fw.evaluate(&c), FirewallVerdict::Allow);
}

#[test]
fn priority_order_meta1_outranks_meta4() {
    let fw = AkkFirewall::new();
    let c = ctx(10, 1, 1, 0x00, 0x50, AkkOperation::Read);
    assert_eq!(fw.evaluate(&c), FirewallVerdict::Deny);
}

#[test]
fn rule_count_reflects_five_meta_rules() {
    let fw = AkkFirewall::new();
    assert_eq!(fw.rule_count(), 5);
}

#[test]
fn add_rule_increases_count_and_respects_priority() {
    let mut fw = AkkFirewall::new();
    fw.add_rule(AkkRule::new(
        "Custom:AlwaysDeny",
        255,
        RuleEval::Always { verdict: FirewallVerdict::Deny },
    ));
    assert_eq!(fw.rule_count(), 6);
    let c = ctx(240, 1, 1, 0xFF, 0, AkkOperation::Read);
    assert_eq!(fw.evaluate(&c), FirewallVerdict::Deny);
}

#[test]
fn gates_zero_trust_denies_below_threshold() {
    let fw = gates::standard_firewall(100, 50);
    let c = ctx(70, 1, 1, 0xFF, 0, AkkOperation::Read);
    assert_eq!(fw.evaluate(&c), FirewallVerdict::Deny);
}

#[test]
fn gates_sho_redacts_between_thresholds() {
    let fw = gates::standard_firewall(30, 80);
    let c = ctx(65, 1, 1, 0xFF, 0, AkkOperation::Read);
    assert_eq!(fw.evaluate(&c), FirewallVerdict::Redact);
}

#[test]
fn gates_standard_firewall_allows_above_both_thresholds() {
    let fw = gates::standard_firewall(30, 80);
    let c = ctx(240, 1, 1, 0xFF, 0, AkkOperation::Read);
    assert_eq!(fw.evaluate(&c), FirewallVerdict::Allow);
}

#[test]
fn firewall_verdict_display_matches_expected_strings() {
    assert_eq!(FirewallVerdict::Allow.to_string(), "ALLOW");
    assert_eq!(FirewallVerdict::Deny.to_string(), "DENY");
    assert_eq!(FirewallVerdict::Escalate.to_string(), "ESCALATE");
    assert_eq!(FirewallVerdict::Redact.to_string(), "REDACT");
    assert_eq!(FirewallVerdict::Audit.to_string(), "AUDIT");
}

// ── Additional checks ──────────────────────────────────────────────────────

#[test]
fn meta_rules_are_declared_in_priority_order() {
    let rules = meta_rules();
    let prios: Vec<u8> = rules.iter().map(|r| r.priority).collect();
    assert_eq!(prios, vec![255, 254, 253, 252, 1]);
    assert_eq!(rules[0].name, "META-1:DeadQualityDeny");
    assert_eq!(rules[4].name, "META-5:AuditDestructive");
}

#[test]
fn gate_names_carry_their_threshold() {
    assert_eq!(gates::zero_trust_gate(100).name, "Zero:QualityGate(100)");
    assert_eq!(gates::sho_redact_gate(7).name, "Sho:RedactGate(7)");
    assert_eq!(gates::zero_trust_gate(0).name, "Zero:QualityGate(0)");
    assert_eq!(gates::zero_trust_gate(200).priority, 200);
    assert_eq!(gates::sho_redact_gate(200).priority, 150);
}

#[test]
fn dead_quality_stays_denied_after_a_top_priority_allow_rule() {
    let mut fw = AkkFirewall::new();
    fw.add_rule(AkkRule::new("Custom:AlwaysAllow", 255, RuleEval::Always { verdict: FirewallVerdict::Allow }));
    let c = ctx(10, 1, 1, 0xFF, 0, AkkOperation::Read);
    assert_eq!(fw.evaluate(&c), FirewallVerdict::Deny);
    let good = ctx(240, 1, 1, 0xFF, 0, AkkOperation::Read);
    assert_eq!(fw.evaluate(&good), FirewallVerdict::Allow);
}

#[test]
fn audit_rule_alone_never_decides() {
    let mut fw = AkkFirewall::new();
    fw.add_rule(AkkRule::new("Custom:AuditAll", 100, RuleEval::Always { verdict: FirewallVerdict::Audit }));
    let c = ctx(240, 1, 1, 0xFF, 0, AkkOperation::Read);
    assert_eq!(fw.evaluate(&c), FirewallVerdict::Allow);
}

/// A caller's own condition: writes to the sealed path are refused.
struct NoWritesToVault;

impl RuleCondition for NoWritesToVault {
    fn verdict_on(&self, ctx: AkkContext) -> Option<FirewallVerdict> {
        self.check(&ctx)
    }

    fn check(&self, ctx: &AkkContext) -> Option<FirewallVerdict> {
        if ctx.operation == AkkOperation::Write && ctx.resource.path == "/vault" {
            Some(FirewallVerdict::Deny)
        } else {
            None
        }
    }
}

#[test]
fn a_caller_written_condition_decides_in_priority_order() {
    let mut fw = AkkFirewall::new();
    fw.add_rule(AkkRule::new("Custom:NoVaultWrites", 200, RuleEval::Custom(Box::new(NoWritesToVault))));
    let mut c = ctx(240, 1, 1, 0xFF, 0, AkkOperation::Write);
    c.resource.path = "/vault".to_string();
    assert_eq!(fw.evaluate(&c), FirewallVerdict::Deny);
    c.resource.path = "/public".to_string();
    assert_eq!(fw.evaluate(&c), FirewallVerdict::Allow);
    assert_eq!(fw.rule_count(), 6);
}
