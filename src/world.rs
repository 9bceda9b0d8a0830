//! The world data that a chunk is drawn from: pillars of stacked sections,
//! each pillar carrying props (plants) at given heights.

use vstd::prelude::*;

use crate::geometry::{AxialPoint, HeightType};

verus! {

/// One section of a pillar: a block of one ground material between two heights.
#[derive(Clone, Copy, Debug)]
pub struct PillarSection<M> {
    pub ground: M,
    pub bottom: HeightType,
    pub top: HeightType,
}

impl<M> PillarSection<M> {
    /// The section does not end below where it starts.
    pub open spec fn wf(self) -> bool {
        self.bottom.units <= self.top.units
    }
}

/// A prop standing on a pillar; every prop is a plant, rooted at `baseline`.
#[derive(Clone, Copy, Debug, PartialEq, Eq, Structural)]
pub struct Prop {
    pub baseline: HeightType,
}

/// A vertical column at one hex position: its sections, bottom to top, and
/// its props.
#[derive(Clone, Debug)]
pub struct HexPillar<M> {
    pub sections: Vec<PillarSection<M>>,
    pub props: Vec<Prop>,
}

impl<M> HexPillar<M> {
    pub open spec fn wf(self) -> bool {
        forall|k: int| 0 <= k < self.sections@.len() ==> (#[trigger] self.sections@[k]).wf()
    }
}

/// A region of the world: its pillars, each with its axial position inside
/// the chunk.
#[derive(Clone, Debug)]
pub struct Chunk<M> {
    pub pillars: Vec<(AxialPoint, HexPillar<M>)>,
}

impl<M> Chunk<M> {
    pub open spec fn wf(self) -> bool {
        forall|i: int| 0 <= i < self.pillars@.len() ==> (#[trigger] self.pillars@[i]).1.wf()
    }
}

} // verus!
