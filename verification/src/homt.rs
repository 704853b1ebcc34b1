//! HOMT — Hepta-Orbit Manifold Theory: rendering-mode selection, the
//! convergence basins, the seven manifold axes and sector addressing.

pub mod convergence;
pub mod field;
pub mod render_modes;
pub mod sector;

use vstd::prelude::*;

verus! {

/// Version of the HOMT model.
pub const HOMT_VERSION: &'static str = "4.0.0";

/// Number of Hepta manifold dimensions.
pub const HEPTA_DIMENSIONS: usize = 7;

} // verus!
