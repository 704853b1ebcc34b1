//! Kinetic — the discrete vocabulary of the kinetic engine: the seven
//! Heptagon dimensions, health classes and Plimpton trigger actions. The
//! force integration itself is floating-point and lives outside the
//! library.

use vstd::prelude::*;

verus! {

/// The seven sovereign dimensions of the Heptagon engine.
#[derive(Debug, Clone, Copy, PartialEq, Eq, Hash, Structural)]
pub enum HeptaDimension {
    /// ME — intent, set theory.
    ME,
    /// GU — mass, cardinality.
    GU,
    /// SAG — gravity, selectivity.
    SAG,
    /// A — viscosity, IO friction.
    A,
    /// IZI — heat, CPU burn.
    IZI,
    /// UD — volatility, cache, plan sniffing.
    UD,
    /// URU — strength, index health.
    URU,
}

/// The position of a dimension in the ME..URU order.
pub open spec fn dimension_index(d: HeptaDimension) -> nat {
    match d {
        HeptaDimension::ME => 0,
        HeptaDimension::GU => 1,
        HeptaDimension::SAG => 2,
        HeptaDimension::A => 3,
        HeptaDimension::IZI => 4,
        HeptaDimension::UD => 5,
        HeptaDimension::URU => 6,
    }
}

/// The Sumerian sign name of a dimension.
pub open spec fn dimension_name(d: HeptaDimension) -> Seq<char> {
    match d {
        HeptaDimension::ME => "ME"@,
        HeptaDimension::GU => "GU"@,
        HeptaDimension::SAG => "SAG"@,
        HeptaDimension::A => "A"@,
        HeptaDimension::IZI => "IZI"@,
        HeptaDimension::UD => "UD"@,
        HeptaDimension::URU => "URU"@,
    }
}

impl HeptaDimension {
    /// All seven dimensions in ME..URU order.
    pub const ALL: [HeptaDimension; 7] = [
        HeptaDimension::ME,
        HeptaDimension::GU,
        HeptaDimension::SAG,
        HeptaDimension::A,
        HeptaDimension::IZI,
        HeptaDimension::UD,
        HeptaDimension::URU,
    ];

    /// The position in the ME..URU order (0..=6).
    pub fn index(&self) -> (i: usize)
        ensures
            i == dimension_index(*self),
            i < 7,
    {
        match self {
            HeptaDimension::ME => 0,
            HeptaDimension::GU => 1,
            HeptaDimension::SAG => 2,
            HeptaDimension::A => 3,
            HeptaDimension::IZI => 4,
            HeptaDimension::UD => 5,
            HeptaDimension::URU => 6,
        }
    }

    /// The Sumerian sign name.
    pub fn name(&self) -> (s: &'static str)
        ensures
            s@ == dimension_name(*self),
    {
        match self {
            HeptaDimension::ME => "ME",
            HeptaDimension::GU => "GU",
            HeptaDimension::SAG => "SAG",
            HeptaDimension::A => "A",
            HeptaDimension::IZI => "IZI",
            HeptaDimension::UD => "UD",
            HeptaDimension::URU => "URU",
        }
    }
}

/// `ALL` lists the dimensions in index order, and the index tells the
/// dimensions apart.
pub proof fn law_dimension_order(a: HeptaDimension, b: HeptaDimension)
    ensures
        dimension_index(a) < 7,
        dimension_index(a) == dimension_index(b) ==> a == b,
        HeptaDimension::ALL@.len() == 7,
        HeptaDimension::ALL@[dimension_index(a) as int] == a,
{
}

/// The three health states of a particle.
#[derive(Debug, Clone, Copy, PartialEq, Eq, Structural)]
pub enum HealthClassification {
    /// At or above the threshold — healthy orbit.
    Sovereign,
    /// Between 60% and 100% of the threshold.
    Warning,
    /// Below 60% of the threshold — dead-zone candidate.
    Critical,
}

impl HealthClassification {
    /// Whether the class is `Sovereign`.
    pub fn is_sovereign(self) -> (b: bool)
        ensures
            b == (self == HealthClassification::Sovereign),
    {
        self == HealthClassification::Sovereign
    }

    /// Whether the class is `Warning`.
    pub fn is_warning(self) -> (b: bool)
        ensures
            b == (self == HealthClassification::Warning),
    {
        self == HealthClassification::Warning
    }

    /// Whether the class is `Critical`.
    pub fn is_critical(self) -> (b: bool)
        ensures
            b == (self == HealthClassification::Critical),
    {
        self == HealthClassification::Critical
    }
}

/// What fires when a particle crosses a Plimpton boundary.
#[derive(Debug, Clone)]
pub enum TriggerAction {
    /// The particle entered this Plimpton tier.
    TierEntry,
    /// The particle crossed the sovereign boundary: emit this `.akk` fix.
    EmitAkkadianFix(String),
    /// The particle approaches the dead zone.
    SelfImmuneAlert,
    /// The particle reached the canonical (3,4,5) tier.
    CanonicalHealthReached,
}

} // verus!
