//! The convergence basins of a particle's orbit.

use vstd::prelude::*;

verus! {

/// The convergence basin of a particle's orbit.
#[derive(Debug, Clone, Copy, PartialEq, Eq, Structural)]
pub enum ConvergenceState {
    /// φ ≥ 0.6 — stable golden orbit.
    Golden,
    /// 0.2 ≤ φ < 0.6 — undetermined basin of attraction.
    Fuzzy,
    /// φ < 0.2 — diverging to ground state.
    Dead,
}

/// The name of each basin.
pub open spec fn state_text(s: ConvergenceState) -> Seq<char> {
    match s {
        ConvergenceState::Golden => "GOLDEN"@,
        ConvergenceState::Fuzzy => "FUZZY"@,
        ConvergenceState::Dead => "DEAD"@,
    }
}

impl ConvergenceState {
    /// "GOLDEN", "FUZZY" or "DEAD".
    pub fn as_str(self) -> (s: &'static str)
        ensures
            s@ == state_text(self),
    {
        match self {
            ConvergenceState::Golden => "GOLDEN",
            ConvergenceState::Fuzzy => "FUZZY",
            ConvergenceState::Dead => "DEAD",
        }
    }
}

} // verus!
