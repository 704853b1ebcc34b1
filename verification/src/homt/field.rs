//! The seven axes of the Hepta manifold.

use vstd::prelude::*;

verus! {

/// The 7D EAV manifold axes: (Entity, Attribute, Value, Tribe, Segment,
/// Zone, Mode).
#[derive(Clone, Copy, Debug, PartialEq, Eq, Structural)]
pub enum HeptaAxis {
    Entity,
    Attribute,
    Value,
    Tribe,
    Segment,
    Zone,
    Mode,
}

/// The position of each axis.
pub open spec fn axis_index(a: HeptaAxis) -> usize {
    match a {
        HeptaAxis::Entity => 0,
        HeptaAxis::Attribute => 1,
        HeptaAxis::Value => 2,
        HeptaAxis::Tribe => 3,
        HeptaAxis::Segment => 4,
        HeptaAxis::Zone => 5,
        HeptaAxis::Mode => 6,
    }
}

/// The axis at each position (positions past 6 map to Mode).
pub open spec fn axis_at(i: usize) -> HeptaAxis {
    if i == 0 {
        HeptaAxis::Entity
    } else if i == 1 {
        HeptaAxis::Attribute
    } else if i == 2 {
        HeptaAxis::Value
    } else if i == 3 {
        HeptaAxis::Tribe
    } else if i == 4 {
        HeptaAxis::Segment
    } else if i == 5 {
        HeptaAxis::Zone
    } else {
        HeptaAxis::Mode
    }
}

impl HeptaAxis {
    /// Position of the axis, 0..=6.
    pub fn index(self) -> (i: usize)
        ensures
            i == axis_index(self),
            i < 7,
    {
        match self {
            HeptaAxis::Entity => 0,
            HeptaAxis::Attribute => 1,
            HeptaAxis::Value => 2,
            HeptaAxis::Tribe => 3,
            HeptaAxis::Segment => 4,
            HeptaAxis::Zone => 5,
            HeptaAxis::Mode => 6,
        }
    }

    /// The axis at a position; positions past 6 give Mode.
    pub fn from_index(i: usize) -> (a: HeptaAxis)
        ensures
            a == axis_at(i),
    {
        match i {
            0 => HeptaAxis::Entity,
            1 => HeptaAxis::Attribute,
            2 => HeptaAxis::Value,
            3 => HeptaAxis::Tribe,
            4 => HeptaAxis::Segment,
            5 => HeptaAxis::Zone,
            _ => HeptaAxis::Mode,
        }
    }
}

/// Positions and axes correspond one to one.
pub proof fn law_axis_index_roundtrip(a: HeptaAxis)
    ensures
        axis_at(axis_index(a)) == a,
{
}

/// A null field — every term of the field equation is zero. The field
/// terms themselves are floating point and are evaluated by the runtime.
pub struct NullOrbitField;

} // verus!
