//! Iris — the IR camera layer: the simulated camera's identity, scenario
//! and frame numbering. Thermal frames themselves are floating-point and
//! are produced outside the library.

use vstd::prelude::*;

verus! {

/// The scenario a simulated camera plays.
#[derive(Debug, Clone, Copy, PartialEq, Eq, Structural)]
pub enum SimScenario {
    Normal,
    Threat,
    Fever,
    Stress,
}

/// A simulated camera for development and testing.
#[derive(Debug)]
pub struct SimulatedCamera {
    pub scenario: SimScenario,
    frame_counter: u64,
}

impl SimulatedCamera {
    /// The number the next frame gets.
    pub closed spec fn next_id(&self) -> u64 {
        self.frame_counter
    }

    /// The scenario the camera plays.
    pub closed spec fn scenario_of(&self) -> SimScenario {
        self.scenario
    }

    /// A camera playing `scenario`, whose first frame is number 0.
    pub fn new(scenario: SimScenario) -> (c: Self)
        ensures
            c.scenario_of() == scenario,
            c.next_id() == 0,
    {
        SimulatedCamera { scenario, frame_counter: 0 }
    }

    /// The camera's id.
    pub fn camera_id(&self) -> (s: &'static str)
        ensures
            s@ == "sim-001"@,
    {
        "sim-001"
    }

    /// Takes the next frame number: frames are numbered 0, 1, 2, … in
    /// capture order (wrapping after `u64::MAX`, as an atomic counter
    /// does).
    pub fn next_frame_id(&mut self) -> (id: u64)
        ensures
            id == old(self).next_id(),
            final(self).next_id() == (if id == u64::MAX { 0 } else { id + 1 }),
            final(self).scenario_of() == old(self).scenario_of(),
    {
        let id = self.frame_counter;
        self.frame_counter = if id == u64::MAX { 0 } else { id + 1 };
        id
    }
}

} // verus!
