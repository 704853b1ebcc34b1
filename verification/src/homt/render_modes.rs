//! Multi-scale particle rendering — mode selection by shell density.
//! Every mode keeps each particle queryable; volumetric rendering is a
//! perceptual compression, not a data loss.

use vstd::prelude::*;

verus! {

/// Maximum shell particle count for fully-individual point sprites.
pub const POINT_SPRITE_THRESHOLD: usize = 10_000;

/// Maximum shell particle count for GPU-instanced batch rendering.
pub const INSTANCED_THRESHOLD: usize = 1_000_000;

/// The rendering strategy selected for a given orbital shell.
#[derive(Debug, Clone, Copy, PartialEq, Eq, Structural)]
pub enum RenderingMode {
    /// Fully individual particles as textured quads.
    PointSprite,
    /// GPU-side instanced rendering via a single draw call.
    Instanced,
    /// 3D density-field accumulation rendered via ray-marching.
    Volumetric,
}

/// The label of each mode.
pub open spec fn label_text(m: RenderingMode) -> Seq<char> {
    match m {
        RenderingMode::PointSprite => "PointSprite"@,
        RenderingMode::Instanced => "Instanced"@,
        RenderingMode::Volumetric => "Volumetric"@,
    }
}

/// The mode for a shell of `count` particles.
pub open spec fn mode_for(count: int) -> RenderingMode {
    if count < POINT_SPRITE_THRESHOLD {
        RenderingMode::PointSprite
    } else if count < INSTANCED_THRESHOLD {
        RenderingMode::Instanced
    } else {
        RenderingMode::Volumetric
    }
}

impl RenderingMode {
    /// Every particle is directly clickable without zooming in.
    pub fn supports_direct_click(&self) -> (b: bool)
        ensures
            b == (*self == RenderingMode::PointSprite || *self == RenderingMode::Instanced),
    {
        matches!(self, RenderingMode::PointSprite | RenderingMode::Instanced)
    }

    /// The mode needs a GPU compute pass for density accumulation.
    pub fn requires_compute_pass(&self) -> (b: bool)
        ensures
            b == (*self == RenderingMode::Volumetric),
    {
        matches!(self, RenderingMode::Volumetric)
    }

    /// A short label for the status bar.
    pub fn label(&self) -> (s: &'static str)
        ensures
            s@ == label_text(*self),
    {
        match self {
            RenderingMode::PointSprite => "PointSprite",
            RenderingMode::Instanced => "Instanced",
            RenderingMode::Volumetric => "Volumetric",
        }
    }
}

/// The rendering mode for a shell containing `particle_count` particles.
pub fn rendering_mode(particle_count: usize) -> (m: RenderingMode)
    ensures
        m == mode_for(particle_count as int),
{
    if particle_count < POINT_SPRITE_THRESHOLD {
        RenderingMode::PointSprite
    } else if particle_count < INSTANCED_THRESHOLD {
        RenderingMode::Instanced
    } else {
        RenderingMode::Volumetric
    }
}

/// Conservative rendering mode for a whole tribe: the whole tribe is
/// treated as one shell, and a tribe with no shells renders as sprites.
pub fn tribe_rendering_mode(total_particles: usize, n_shells: usize) -> (m: RenderingMode)
    ensures
        m == if n_shells == 0 {
            RenderingMode::PointSprite
        } else {
            mode_for(total_particles as int)
        },
{
    if n_shells == 0 {
        return RenderingMode::PointSprite;
    }
    rendering_mode(total_particles)
}

/// Denser shells never get a cheaper-to-click mode: the mode is monotone
/// in the particle count, and only the volumetric mode needs a zoom-in.
pub proof fn law_mode_monotone(a: int, b: int)
    requires
        a <= b,
    ensures
        mode_for(a) == RenderingMode::Volumetric ==> mode_for(b) == RenderingMode::Volumetric,
        mode_for(b) == RenderingMode::PointSprite ==> mode_for(a) == RenderingMode::PointSprite,
{
}

/// The thresholds are ordered, so the three modes partition the counts.
pub proof fn law_thresholds_ordered()
    ensures
        POINT_SPRITE_THRESHOLD < INSTANCED_THRESHOLD,
{
}

} // verus!
