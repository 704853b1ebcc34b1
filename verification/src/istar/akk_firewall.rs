//! AkkFirewall — rules evaluated in priority order; the first verdict that
//! is not an audit note decides, and `Allow` is the fallback.

use vstd::prelude::*;

pub mod gates;

verus! {

// ── Verdict ────────────────────────────────────────────────────────────────

/// Outcome of an access check.
#[derive(Debug, Clone, Copy, PartialEq, Eq, Structural)]
pub enum FirewallVerdict {
    Allow,
    Deny,
    Escalate,
    Redact,
    Audit,
}

/// The display text of a verdict.
pub open spec fn verdict_text(v: FirewallVerdict) -> Seq<char> {
    match v {
        FirewallVerdict::Allow => "ALLOW"@,
        FirewallVerdict::Deny => "DENY"@,
        FirewallVerdict::Escalate => "ESCALATE"@,
        FirewallVerdict::Redact => "REDACT"@,
        FirewallVerdict::Audit => "AUDIT"@,
    }
}

impl FirewallVerdict {
    /// The display text: "ALLOW", "DENY", "ESCALATE", "REDACT" or "AUDIT".
    pub fn to_string(&self) -> (s: String)
        ensures
            s@ == verdict_text(*self),
    {
        match self {
            FirewallVerdict::Allow => "ALLOW".to_owned(),
            FirewallVerdict::Deny => "DENY".to_owned(),
            FirewallVerdict::Escalate => "ESCALATE".to_owned(),
            FirewallVerdict::Redact => "REDACT".to_owned(),
            FirewallVerdict::Audit => "AUDIT".to_owned(),
        }
    }
}

// ── Subject / Context ─────────────────────────────────────────────────────

/// Sovereign subject of an access request.
#[derive(Debug, Clone)]
pub struct AkkSubject {
    pub id: String,
    pub domain: u8,
    /// KAKI quality byte (0–240).
    pub quality: u8,
    pub tribe: Option<String>,
    /// 0x00 = none … 0xFF = sovereign.
    pub clearance: u8,
}

/// Resource being accessed.
#[derive(Debug, Clone)]
pub struct AkkResource {
    pub path: String,
    pub domain: u8,
    /// 0 = public … 0xFF = sealed.
    pub sensitivity: u8,
}

/// Full access-check context.
#[derive(Debug, Clone)]
pub struct AkkContext {
    pub subject: AkkSubject,
    pub resource: AkkResource,
    pub operation: AkkOperation,
    pub timestamp: u64,
}

/// The operation requested on the resource.
#[derive(Debug, Clone, Copy, PartialEq, Eq, Structural)]
pub enum AkkOperation {
    Read,
    Write,
    Execute,
    Delete,
    Admin,
}

// ── Rule conditions ───────────────────────────────────────────────────────

/// A condition of the caller's own: the verdict it gives on a context, if
/// any. Callers write their own rules by implementing it; outside
/// verified code `verdict_on` is an ordinary method, and an
/// implementation gives it as `check` itself.
pub trait RuleCondition {
    /// The verdict the condition gives on a context.
    spec fn verdict_on(&self, ctx: AkkContext) -> Option<FirewallVerdict>;

    /// Apply the condition to a context.
    fn check(&self, ctx: &AkkContext) -> (v: Option<FirewallVerdict>)
        ensures
            v == self.verdict_on(*ctx),
    ;
}

/// What a rule tests: one of the built-in conditions, held as data so
/// each is a checked function of the context, or a condition of the
/// caller's own.
pub enum RuleEval {
    /// Deny subjects whose quality is below 59 (dead quality).
    DeadQualityDeny,
    /// Deny writes across domains by subjects below clearance 0xA0.
    CrossDomainWriteDeny,
    /// Deny admin operations by subjects whose quality is below 200.
    AdminGemOnly,
    /// Escalate when the resource's sensitivity exceeds the clearance.
    ClearanceEscalate,
    /// Audit every delete and admin operation.
    AuditDestructive,
    /// Give `verdict` when the subject's quality is below `threshold`.
    QualityBelow { threshold: u8, verdict: FirewallVerdict },
    /// Give `verdict` for every context.
    Always { verdict: FirewallVerdict },
    /// A condition of the caller's own.
    Custom(Box<dyn RuleCondition>),
}

/// The verdict a rule condition gives on a context, if any.
pub open spec fn rule_verdict(eval: &RuleEval, ctx: AkkContext) -> Option<FirewallVerdict> {
    match eval {
        RuleEval::DeadQualityDeny => if ctx.subject.quality < 59 {
            Some(FirewallVerdict::Deny)
        } else {
            None
        },
        RuleEval::CrossDomainWriteDeny => if ctx.subject.domain != ctx.resource.domain
            && ctx.operation == AkkOperation::Write && ctx.subject.clearance < 0xA0 {
            Some(FirewallVerdict::Deny)
        } else {
            None
        },
        RuleEval::AdminGemOnly => if ctx.operation == AkkOperation::Admin
            && ctx.subject.quality < 200 {
            Some(FirewallVerdict::Deny)
        } else {
            None
        },
        RuleEval::ClearanceEscalate => if ctx.resource.sensitivity > ctx.subject.clearance {
            Some(FirewallVerdict::Escalate)
        } else {
            None
        },
        RuleEval::AuditDestructive => if ctx.operation == AkkOperation::Delete
            || ctx.operation == AkkOperation::Admin {
            Some(FirewallVerdict::Audit)
        } else {
            None
        },
        RuleEval::QualityBelow { threshold, verdict } => if ctx.subject.quality < *threshold {
            Some(*verdict)
        } else {
            None
        },
        RuleEval::Always { verdict } => Some(*verdict),
        RuleEval::Custom(c) => c.verdict_on(ctx),
    }
}

impl RuleEval {
    /// Apply the condition to a context.
    pub fn apply(&self, ctx: &AkkContext) -> (v: Option<FirewallVerdict>)
        ensures
            v == rule_verdict(self, *ctx),
    {
        match self {
            RuleEval::DeadQualityDeny => if ctx.subject.quality < 59 {
                Some(FirewallVerdict::Deny)
            } else {
                None
            },
            RuleEval::CrossDomainWriteDeny => if ctx.subject.domain != ctx.resource.domain
                && ctx.operation == AkkOperation::Write && ctx.subject.clearance < 0xA0 {
                Some(FirewallVerdict::Deny)
            } else {
                None
            },
            RuleEval::AdminGemOnly => if ctx.operation == AkkOperation::Admin
                && ctx.subject.quality < 200 {
                Some(FirewallVerdict::Deny)
            } else {
                None
            },
            RuleEval::ClearanceEscalate => if ctx.resource.sensitivity > ctx.subject.clearance {
                Some(FirewallVerdict::Escalate)
            } else {
                None
            },
            RuleEval::AuditDestructive => if ctx.operation == AkkOperation::Delete
                || ctx.operation == AkkOperation::Admin {
                Some(FirewallVerdict::Audit)
            } else {
                None
            },
            RuleEval::QualityBelow { threshold, verdict } => if ctx.subject.quality
                < *threshold {
                Some(*verdict)
            } else {
                None
            },
            RuleEval::Always { verdict } => Some(*verdict),
            RuleEval::Custom(c) => c.check(ctx),
        }
    }
}

// ── Rule ──────────────────────────────────────────────────────────────────

/// A compiled firewall rule.
pub struct AkkRule {
    pub name: String,
    pub priority: u8,
    pub eval: RuleEval,
}

impl AkkRule {
    /// A rule named `name` with the given priority and condition.
    pub fn new(name: &str, priority: u8, eval: RuleEval) -> (r: Self)
        ensures
            r.name@ == name@,
            r.priority == priority,
            r.eval == eval,
    {
        AkkRule { name: name.to_owned(), priority, eval }
    }
}

// ── Five Meta Rules ────────────────────────────────────────────────────────

/// The rule with the given name view, priority and condition.
pub open spec fn rule_is(r: AkkRule, name: Seq<char>, priority: u8, eval: RuleEval) -> bool {
    r.name@ == name && r.priority == priority && r.eval == eval
}

/// The five constitutional rules, in the order they are declared.
pub open spec fn is_meta_rules(rules: Seq<AkkRule>) -> bool {
    &&& rules.len() == 5
    &&& rule_is(rules[0], "META-1:DeadQualityDeny"@, 255, RuleEval::DeadQualityDeny)
    &&& rule_is(rules[1], "META-2:CrossDomainWrite"@, 254, RuleEval::CrossDomainWriteDeny)
    &&& rule_is(rules[2], "META-3:AdminGemOnly"@, 253, RuleEval::AdminGemOnly)
    &&& rule_is(rules[3], "META-4:ClearanceEscalate"@, 252, RuleEval::ClearanceEscalate)
    &&& rule_is(rules[4], "META-5:AuditDestructive"@, 1, RuleEval::AuditDestructive)
}

/// The five constitutional meta rules: dead quality, cross-domain write,
/// admin gem quality, clearance escalation and destructive-operation audit.
pub fn meta_rules() -> (rules: Vec<AkkRule>)
    ensures
        is_meta_rules(rules@),
{
    let mut rules: Vec<AkkRule> = Vec::new();
    rules.push(AkkRule::new("META-1:DeadQualityDeny", 255, RuleEval::DeadQualityDeny));
    rules.push(AkkRule::new("META-2:CrossDomainWrite", 254, RuleEval::CrossDomainWriteDeny));
    rules.push(AkkRule::new("META-3:AdminGemOnly", 253, RuleEval::AdminGemOnly));
    rules.push(AkkRule::new("META-4:ClearanceEscalate", 252, RuleEval::ClearanceEscalate));
    rules.push(AkkRule::new("META-5:AuditDestructive", 1, RuleEval::AuditDestructive));
    rules
}

// ── Firewall Engine ────────────────────────────────────────────────────────

/// Rules sorted from highest priority to lowest.
pub open spec fn sorted_by_priority(rules: Seq<AkkRule>) -> bool {
    forall|i: int, j: int| 0 <= i < j < rules.len() ==> rules[i].priority >= rules[j].priority
}

/// The verdict of a rule list: the first verdict that is not `Audit`, in
/// list order, or `Allow` when there is none.
pub open spec fn verdict_of(rules: Seq<AkkRule>, ctx: AkkContext) -> FirewallVerdict
    decreases rules.len(),
{
    if rules.len() == 0 {
        FirewallVerdict::Allow
    } else {
        match rule_verdict(&rules[0].eval, ctx) {
            Some(v) => if v != FirewallVerdict::Audit {
                v
            } else {
                verdict_of(rules.drop_first(), ctx)
            },
            None => verdict_of(rules.drop_first(), ctx),
        }
    }
}

/// Where a stable sort by descending priority places a new rule of
/// priority `p` in an already sorted list: after every rule whose priority
/// is at least `p`, before every rule whose priority is below it.
pub open spec fn is_insert_point(rules: Seq<AkkRule>, p: u8, k: int) -> bool {
    &&& 0 <= k <= rules.len()
    &&& forall|i: int| 0 <= i < k ==> rules[i].priority >= p
    &&& forall|i: int| k <= i < rules.len() ==> rules[i].priority < p
}

/// Sovereign firewall — evaluates rules in priority order (highest first).
pub struct AkkFirewall {
    rules: Vec<AkkRule>,
}

impl AkkFirewall {
    /// The rules, highest priority first.
    pub closed spec fn rules(&self) -> Seq<AkkRule> {
        self.rules@
    }

    /// Rules sorted by priority, with the dead-quality meta rule first.
    pub closed spec fn well_formed(&self) -> bool {
        &&& sorted_by_priority(self.rules@)
        &&& self.rules@.len() >= 1
        &&& rule_is(self.rules@[0], "META-1:DeadQualityDeny"@, 255, RuleEval::DeadQualityDeny)
    }

    /// A firewall holding exactly the five meta rules.
    pub fn new() -> (fw: Self)
        ensures
            is_meta_rules(fw.rules()),
            fw.well_formed(),
    {
        let rules = meta_rules();
        AkkFirewall { rules }
    }

    /// Add a rule; it is placed after every rule of equal or higher
    /// priority and before every rule of lower priority.
    pub fn add_rule(&mut self, rule: AkkRule)
        requires
            old(self).well_formed(),
        ensures
            final(self).well_formed(),
            exists|k: int|
                #[trigger] is_insert_point(old(self).rules(), rule.priority, k) && final(self).rules()
                    == old(self).rules().insert(k, rule),
            final(self).rules().len() == old(self).rules().len() + 1,
    {
        let n = self.rules.len();
        let mut k: usize = 0;
        while k < n && self.rules[k].priority >= rule.priority
            invariant
                n == self.rules@.len(),
                0 <= k <= n,
                forall|i: int| 0 <= i < k ==> self.rules@[i].priority >= rule.priority,
            decreases n - k,
        {
            k = k + 1;
        }
        let ghost old_rules = self.rules@;
        let ghost new_rule = rule;
        proof {
            assert forall|i: int| k <= i < old_rules.len() implies old_rules[i].priority
                < rule.priority by {
                assert(old_rules[k as int].priority < rule.priority);
                assert(old_rules[k as int].priority >= old_rules[i].priority);
            }
            let new_rules = old_rules.insert(k as int, rule);
            assert(sorted_by_priority(new_rules)) by {
                assert forall|i: int, j: int| 0 <= i < j < new_rules.len() implies new_rules[i].priority
                    >= new_rules[j].priority by {
                    if j < k {
                    } else if i > k {
                    } else if i == k {
                    } else if j == k {
                    } else {
                    }
                }
            }
            assert(k >= 1) by {
                assert(old_rules[0].priority >= rule.priority);
            }
        }
        self.rules.insert(k, rule);
        proof {
            assert(is_insert_point(old_rules, new_rule.priority, k as int));
            assert(self.rules@ == old_rules.insert(k as int, new_rule));
            assert(is_insert_point(old(self).rules(), new_rule.priority, k as int)
                && self.rules() == old(self).rules().insert(k as int, new_rule));
        }
    }

    /// Evaluate the context: the first non-audit verdict by priority wins,
    /// `Allow` when no rule gives one.
    pub fn evaluate(&self, ctx: &AkkContext) -> (v: FirewallVerdict)
        requires
            self.well_formed(),
        ensures
            v == verdict_of(self.rules(), *ctx),
            v != FirewallVerdict::Audit,
            ctx.subject.quality < 59 ==> v == FirewallVerdict::Deny,
    {
        proof {
            lemma_verdict_never_audit(self.rules@, *ctx);
            assert(self.rules@.skip(0) =~= self.rules@);
            if ctx.subject.quality < 59 {
                assert(rule_verdict(&self.rules@[0].eval, *ctx) == Some(FirewallVerdict::Deny));
                assert(verdict_of(self.rules@, *ctx) == FirewallVerdict::Deny);
            }
        }
        let n = self.rules.len();
        let mut i: usize = 0;
        while i < n
            invariant
                n == self.rules@.len(),
                0 <= i <= n,
                verdict_of(self.rules@, *ctx) == verdict_of(self.rules@.skip(i as int), *ctx),
                verdict_of(self.rules@, *ctx) != FirewallVerdict::Audit,
                ctx.subject.quality < 59 ==> verdict_of(self.rules@, *ctx) == FirewallVerdict::Deny,
            decreases n - i,
        {
            proof {
                assert(self.rules@.skip(i as int).drop_first() =~= self.rules@.skip(i + 1));
            }
            match self.rules[i].eval.apply(ctx) {
                Some(v) => {
                    if v != FirewallVerdict::Audit {
                        return v;
                    }
                },
                None => {},
            }
            i = i + 1;
        }
        FirewallVerdict::Allow
    }

    /// The number of rules.
    pub fn rule_count(&self) -> (n: usize)
        ensures
            n == self.rules().len(),
    {
        self.rules.len()
    }
}

/// No rule list ever answers `Audit`: audit notes are informational and the
/// search always continues past them.
pub proof fn lemma_verdict_never_audit(rules: Seq<AkkRule>, ctx: AkkContext)
    ensures
        verdict_of(rules, ctx) != FirewallVerdict::Audit,
    decreases rules.len(),
{
    if rules.len() > 0 {
        lemma_verdict_never_audit(rules.drop_first(), ctx);
    }
}

} // verus!
