use client::geometry::{AxialPoint, HeightType};
use client::layout::{ChunkView, PillarView, PlantPlacement};
use client::pass::{pass_settings, CullingMode, DepthTest, Pass};
use client::world::{Chunk, HexPillar, PillarSection, Prop};

fn section(ground: u8, bottom: u16, top: u16) -> PillarSection<u8> {
    PillarSection {
        ground,
        bottom: HeightType::from_units(bottom),
        top: HeightType::from_units(top),
    }
}

fn prop(baseline: u16) -> Prop {
    Prop { baseline: HeightType::from_units(baseline) }
}

fn sample_chunk() -> Chunk<u8> {
    Chunk {
        pillars: vec![
            (
                AxialPoint::new(0, 0),
                HexPillar { sections: vec![section(1, 0, 4), section(2, 6, 10)], props: vec![prop(10)] },
            ),
            (AxialPoint::new(1, 0), HexPillar { sections: vec![], props: vec![] }),
            (
                AxialPoint::new(0, 1),
                HexPillar { sections: vec![section(3, 2, 2)], props: vec![prop(2), prop(5)] },
            ),
        ],
    }
}

#[test]
fn instances_follow_pillars_and_sections() {
    let view = ChunkView::from_chunk(&sample_chunk(), AxialPoint::new(16, -16));
    assert_eq!(view.offset, AxialPoint::new(16, -16));
    assert_eq!(view.instances.len(), 3);

    let a = view.instances[0];
    assert_eq!(a.material, 1);
    assert_eq!(a.axial, AxialPoint::new(0, 0));
    assert_eq!(a.bottom.units(), 0);
    assert_eq!(a.height, 4);

    let b = view.instances[1];
    assert_eq!(b.material, 2);
    assert_eq!(b.axial, AxialPoint::new(0, 0));
    assert_eq!(b.bottom.units(), 6);
    assert_eq!(b.height, 4);

    let c = view.instances[2];
    assert_eq!(c.material, 3);
    assert_eq!(c.axial, AxialPoint::new(0, 1));
    assert_eq!(c.bottom.units(), 2);
    assert_eq!(c.height, 0);
}

#[test]
fn section_spanning_all_heights() {
    let chunk = Chunk {
        pillars: vec![(
            AxialPoint::new(-3, 7),
            HexPillar { sections: vec![section(9, 0, u16::MAX)], props: vec![] },
        )],
    };
    let view = ChunkView::from_chunk(&chunk, AxialPoint::new(0, 0));
    assert_eq!(view.instances.len(), 1);
    assert_eq!(view.instances[0].height, u16::MAX);
    assert_eq!(view.instances[0].axial, AxialPoint::new(-3, 7));
}

#[test]
fn empty_chunk_has_nothing_to_draw() {
    let chunk: Chunk<u8> = Chunk { pillars: vec![] };
    let view = ChunkView::from_chunk(&chunk, AxialPoint::new(2, 3));
    assert!(view.instances.is_empty());
    assert!(view.pillars.is_empty());
    assert!(view.draw_shadow().plants.is_empty());
    assert!(view.draw().plants.is_empty());
}

#[test]
fn one_pillar_view_per_pillar() {
    let view = ChunkView::from_chunk(&sample_chunk(), AxialPoint::new(0, 0));
    assert_eq!(view.pillars.len(), 3);
    assert_eq!(view.pillars[0].plants.len(), 1);
    assert_eq!(view.pillars[1].plants.len(), 0);
    assert_eq!(view.pillars[2].plants.len(), 2);
}

#[test]
fn pillar_view_places_each_prop() {
    let pillar = HexPillar { sections: vec![section(1, 0, 3)], props: vec![prop(3), prop(8)] };
    let view = PillarView::from_pillar(4, AxialPoint::new(5, -2), &pillar);
    assert_eq!(
        view.plants,
        vec![
            PlantPlacement {
                pillar: 4,
                prop: 0,
                axial: AxialPoint::new(5, -2),
                baseline: HeightType::from_units(3),
            },
            PlantPlacement {
                pillar: 4,
                prop: 1,
                axial: AxialPoint::new(5, -2),
                baseline: HeightType::from_units(8),
            },
        ]
    );
}

#[test]
fn plants_are_drawn_pillar_by_pillar() {
    let view = ChunkView::from_chunk(&sample_chunk(), AxialPoint::new(0, 0));
    let order: Vec<(usize, usize, u16)> = view
        .draw()
        .plants
        .iter()
        .map(|p| (p.pillar, p.prop, p.baseline.units()))
        .collect();
    assert_eq!(order, vec![(0, 0, 10), (2, 0, 2), (2, 1, 5)]);
    assert_eq!(view.draw_shadow().plants, view.draw().plants);
}

#[test]
fn shadow_pass_culls_clockwise() {
    let view = ChunkView::from_chunk(&sample_chunk(), AxialPoint::new(0, 0));
    let s = view.draw_shadow().settings;
    assert_eq!(s.pass, Pass::Shadow);
    assert!(s.depth_write);
    assert_eq!(s.depth_test, DepthTest::IfLess);
    assert_eq!(s.culling, CullingMode::CullClockwise);
}

#[test]
fn color_pass_culls_counterclockwise() {
    let view = ChunkView::from_chunk(&sample_chunk(), AxialPoint::new(0, 0));
    let s = view.draw().settings;
    assert_eq!(s.pass, Pass::Color);
    assert!(s.depth_write);
    assert_eq!(s.depth_test, DepthTest::IfLess);
    assert_eq!(s.culling, CullingMode::CullCounterClockwise);
    assert_eq!(pass_settings(Pass::Color), s);
}
