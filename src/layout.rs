//! What a chunk becomes for the renderer: one instance record per pillar
//! section and one placement per plant, laid out pillar by pillar.

use vstd::prelude::*;

use crate::geometry::{AxialPoint, HeightType};
use crate::pass::{pass_settings, settings_of, Pass, PassSettings};
use crate::world::{Chunk, HexPillar, PillarSection};

verus! {

/// Instance data for one pillar section.
#[derive(Clone, Copy, Debug)]
pub struct Instance<M> {
    /// Ground material, whose color the section is drawn in.
    pub material: M,
    /// Axial position of the pillar inside its chunk.
    pub axial: AxialPoint,
    /// Height at which the section starts.
    pub bottom: HeightType,
    /// Height of the section, in height steps.
    pub height: u16,
}

/// Where a plant is drawn: the prop it comes from and its position.
#[derive(Clone, Copy, Debug, PartialEq, Eq, Structural)]
pub struct PlantPlacement {
    /// Index of the pillar in the chunk.
    pub pillar: usize,
    /// Index of the prop on that pillar.
    pub prop: usize,
    /// Axial position of the pillar inside its chunk.
    pub axial: AxialPoint,
    /// Height at which the plant is rooted.
    pub baseline: HeightType,
}

/// The plants of one pillar.
#[derive(Clone, Debug)]
pub struct PillarView {
    pub plants: Vec<PlantPlacement>,
}

/// The layout of a chunk at a given chunk offset.
#[derive(Clone, Debug)]
pub struct ChunkView<M> {
    /// Axial offset of the chunk in the world.
    pub offset: AxialPoint,
    /// One view per pillar, in the chunk's order.
    pub pillars: Vec<PillarView>,
    /// One record per section, pillar by pillar, each pillar bottom to top.
    pub instances: Vec<Instance<M>>,
}

/// The instance record of section `s` of the pillar at `axial`.
pub open spec fn instance_of<M>(axial: AxialPoint, s: PillarSection<M>) -> Instance<M> {
    Instance {
        material: s.ground,
        axial,
        bottom: s.bottom,
        height: (s.top.units - s.bottom.units) as u16,
    }
}

/// The instance records of one pillar, bottom to top.
pub open spec fn pillar_instances<M>(axial: AxialPoint, p: HexPillar<M>) -> Seq<Instance<M>> {
    p.sections@.map_values(|s: PillarSection<M>| instance_of(axial, s))
}

/// The instance records of a sequence of pillars, concatenated in order.
pub open spec fn chunk_instances<M>(pillars: Seq<(AxialPoint, HexPillar<M>)>) -> Seq<Instance<M>>
    decreases pillars.len(),
{
    if pillars.len() == 0 {
        Seq::empty()
    } else {
        chunk_instances(pillars.drop_last()) + pillar_instances(
            pillars.last().0,
            pillars.last().1,
        )
    }
}

/// The placements of the plants of pillar number `index`, in the order of its props.
pub open spec fn pillar_plants<M>(index: usize, axial: AxialPoint, p: HexPillar<M>) -> Seq<
    PlantPlacement,
> {
    Seq::new(
        p.props@.len(),
        |j: int|
            PlantPlacement { pillar: index, prop: j as usize, axial, baseline: p.props@[j].baseline },
    )
}

impl PillarView {
    /// Places each prop of `pillar`, the pillar number `index` at `axial`.
    pub fn from_pillar<M>(index: usize, axial: AxialPoint, pillar: &HexPillar<M>) -> (v: PillarView)
        ensures
            v.plants@ == pillar_plants(index, axial, *pillar),
    {
        let mut plants: Vec<PlantPlacement> = Vec::new();
        let mut j: usize = 0;
        while j < pillar.props.len()
            invariant
                j <= pillar.props@.len(),
                plants@ == pillar_plants(index, axial, *pillar).take(j as int),
            decreases pillar.props@.len() - j,
        {
            plants.push(
                PlantPlacement { pillar: index, prop: j, axial, baseline: pillar.props[j].baseline },
            );
            j = j + 1;
            assert(plants@ =~= pillar_plants(index, axial, *pillar).take(j as int));
        }
        assert(plants@ =~= pillar_plants(index, axial, *pillar));
        PillarView { plants }
    }
}

/// Instance records of a prefix of pillars extend by the next pillar's records.
proof fn lemma_chunk_instances_step<M>(pillars: Seq<(AxialPoint, HexPillar<M>)>, i: int)
    requires
        0 <= i < pillars.len(),
    ensures
        chunk_instances(pillars.take(i + 1)) == chunk_instances(pillars.take(i)) + pillar_instances(
            pillars[i].0,
            pillars[i].1,
        ),
{
    assert(pillars.take(i + 1).drop_last() =~= pillars.take(i));
}

impl<M: Copy> ChunkView<M> {
    /// Lays out `chunk` at the chunk offset `offset`: the plants of each
    /// pillar, and an instance record for each section of each pillar.
    pub fn from_chunk(chunk: &Chunk<M>, offset: AxialPoint) -> (v: ChunkView<M>)
        requires
            chunk.wf(),
        ensures
            v.offset == offset,
            v.instances@ == chunk_instances(chunk.pillars@),
            v.pillars@.len() == chunk.pillars@.len(),
            forall|i: int|
                0 <= i < chunk.pillars@.len() ==> (#[trigger] v.pillars@[i]).plants@
                    == pillar_plants(i as usize, chunk.pillars@[i].0, chunk.pillars@[i].1),
    {
        let mut instances: Vec<Instance<M>> = Vec::new();
        let mut pillars: Vec<PillarView> = Vec::new();
        let mut i: usize = 0;
        while i < chunk.pillars.len()
            invariant
                chunk.wf(),
                i <= chunk.pillars@.len(),
                instances@ == chunk_instances(chunk.pillars@.take(i as int)),
                pillars@.len() == i,
                forall|k: int|
                    0 <= k < i ==> (#[trigger] pillars@[k]).plants@ == pillar_plants(
                        k as usize,
                        chunk.pillars@[k].0,
                        chunk.pillars@[k].1,
                    ),
            decreases chunk.pillars@.len() - i,
        {
            let axial = chunk.pillars[i].0;
            let pillar = &chunk.pillars[i].1;
            pillars.push(PillarView::from_pillar(i, axial, pillar));
            let ghost before = instances@;
            let mut j: usize = 0;
            while j < pillar.sections.len()
                invariant
                    chunk.wf(),
                    i < chunk.pillars@.len(),
                    *pillar == chunk.pillars@[i as int].1,
                    axial == chunk.pillars@[i as int].0,
                    j <= pillar.sections@.len(),
                    instances@ == before + pillar_instances(axial, *pillar).take(j as int),
                decreases pillar.sections@.len() - j,
            {
                let section = &pillar.sections[j];
                assert(chunk.pillars@[i as int].1.wf());
                assert(section.wf());
                instances.push(
                    Instance {
                        material: section.ground,
                        axial,
                        bottom: section.bottom,
                        height: section.top.units() - section.bottom.units(),
                    },
                );
                j = j + 1;
                assert(instances@ =~= before + pillar_instances(axial, *pillar).take(j as int));
            }
            proof {
                lemma_chunk_instances_step(chunk.pillars@, i as int);
                assert(pillar_instances(axial, *pillar).take(j as int) =~= pillar_instances(
                    axial,
                    *pillar,
                ));
            }
            i = i + 1;
        }
        assert(chunk.pillars@.take(i as int) =~= chunk.pillars@);
        ChunkView { offset, pillars, instances }
    }
}


/// What one pass over a chunk draws: its pillars with `settings`, then each
/// plant in `plants`, in that order.
#[derive(Clone, Debug)]
pub struct DrawPlan {
    pub settings: PassSettings,
    pub plants: Vec<PlantPlacement>,
}

/// The plants of a sequence of pillar views, pillar by pillar.
pub open spec fn plants_in_order(pillars: Seq<PillarView>) -> Seq<PlantPlacement>
    decreases pillars.len(),
{
    if pillars.len() == 0 {
        Seq::empty()
    } else {
        plants_in_order(pillars.drop_last()) + pillars.last().plants@
    }
}

impl<M> ChunkView<M> {
    /// Every plant of the chunk, pillar by pillar, each pillar in the order of its props.
    fn plant_order(&self) -> (r: Vec<PlantPlacement>)
        ensures
            r@ == plants_in_order(self.pillars@),
    {
        let mut r: Vec<PlantPlacement> = Vec::new();
        let mut i: usize = 0;
        while i < self.pillars.len()
            invariant
                i <= self.pillars@.len(),
                r@ == plants_in_order(self.pillars@.take(i as int)),
            decreases self.pillars@.len() - i,
        {
            let plants = &self.pillars[i].plants;
            let ghost before = r@;
            let mut j: usize = 0;
            while j < plants.len()
                invariant
                    i < self.pillars@.len(),
                    *plants == self.pillars@[i as int].plants,
                    j <= plants@.len(),
                    r@ == before + plants@.take(j as int),
                decreases plants@.len() - j,
            {
                r.push(plants[j]);
                j = j + 1;
                assert(r@ =~= before + plants@.take(j as int));
            }
            assert(self.pillars@.take(i + 1).drop_last() =~= self.pillars@.take(i as int));
            assert(plants@.take(j as int) =~= plants@);
            i = i + 1;
        }
        assert(self.pillars@.take(i as int) =~= self.pillars@);
        r
    }

    /// The shadow pass: pillars culled clockwise, then every plant.
    pub fn draw_shadow(&self) -> (plan: DrawPlan)
        ensures
            plan.settings == settings_of(Pass::Shadow),
            plan.plants@ == plants_in_order(self.pillars@),
    {
        DrawPlan { settings: pass_settings(Pass::Shadow), plants: self.plant_order() }
    }

    /// The color pass: pillars culled counterclockwise, then every plant.
    pub fn draw(&self) -> (plan: DrawPlan)
        ensures
            plan.settings == settings_of(Pass::Color),
            plan.plants@ == plants_in_order(self.pillars@),
    {
        DrawPlan { settings: pass_settings(Pass::Color), plants: self.plant_order() }
    }
}

} // verus!
