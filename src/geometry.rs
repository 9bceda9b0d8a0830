//! Hexagonal grid coordinates and vertical heights, as integers.

use vstd::prelude::*;

verus! {

/// A point of the hexagonal grid in axial coordinates.
#[derive(Clone, Copy, Debug, PartialEq, Eq, Structural)]
pub struct AxialPoint {
    pub q: i32,
    pub r: i32,
}

impl AxialPoint {
    pub fn new(q: i32, r: i32) -> (p: AxialPoint)
        ensures
            p.q == q,
            p.r == r,
    {
        AxialPoint { q, r }
    }
}

/// A height above the ground level, counted in discrete height steps.
#[derive(Clone, Copy, Debug, PartialEq, Eq, Structural)]
pub struct HeightType {
    pub units: u16,
}

impl HeightType {
    pub fn from_units(units: u16) -> (h: HeightType)
        ensures
            h.units == units,
    {
        HeightType { units }
    }

    pub fn units(&self) -> (u: u16)
        ensures
            u == self.units,
    {
        self.units
    }
}

} // verus!
