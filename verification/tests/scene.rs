use hexapod::hierarchy::{HierarchyError, NodeId, Renderable, TransformHierarchy};
use hexapod::leg::{LegIdentity, Part, Tag};
use hexapod::scene::{
    build_coxa, build_femur, build_main_body, build_tibia, hexapod_offset, LegOffset, PartAssets,
    SceneBuilder, FEMUR_OFFSET, SCENE_NODE_COUNT, TIBIA_OFFSET,
};
use hexapod::transform::{
    Axis, Rotation, Transform, Vec3, MILLIMETRE, MM_TO_METER_SCALE, QUARTER_TURN,
};

const LEGS: [LegIdentity; 6] = [
    LegIdentity::LeftFront,
    LegIdentity::LeftMiddle,
    LegIdentity::LeftRear,
    LegIdentity::RightFront,
    LegIdentity::RightMiddle,
    LegIdentity::RightRear,
];

fn assets() -> PartAssets {
    PartAssets {
        main_body: Renderable { mesh: 0, material: 10 },
        coxa: Renderable { mesh: 1, material: 11 },
        femur: Renderable { mesh: 2, material: 12 },
        tibia: Renderable { mesh: 3, material: 13 },
    }
}

fn built() -> TransformHierarchy {
    SceneBuilder::hexapod(assets()).build()
}

fn leg_of(h: &TransformHierarchy, id: NodeId) -> LegIdentity {
    h.node(id).unwrap().tag.unwrap().leg().unwrap()
}

fn find(h: &TransformHierarchy, part: Part, leg: LegIdentity) -> NodeId {
    let found: Vec<NodeId> =
        h.nodes_with_tag(part).into_iter().filter(|id| leg_of(h, *id) == leg).collect();
    assert_eq!(found.len(), 1);
    found[0]
}

fn row(lateral: i64, longitudinal: i64, yaw: i64, leg: LegIdentity) -> LegOffset {
    LegOffset { lateral, longitudinal, yaw, leg }
}

#[test]
fn built_scene_has_six_of_each_segment() {
    let h = built();
    assert_eq!(h.len(), SCENE_NODE_COUNT);
    assert_eq!(h.len(), 39);
    assert_eq!(h.nodes_with_tag(Part::MainBody).len(), 1);
    assert_eq!(h.nodes_with_tag(Part::Coxa).len(), 6);
    assert_eq!(h.nodes_with_tag(Part::Femur).len(), 6);
    assert_eq!(h.nodes_with_tag(Part::Tibia).len(), 6);
}

#[test]
fn every_tibia_hangs_on_femur_coxa_main_body_root() {
    let h = built();
    let body = h.nodes_with_tag(Part::MainBody)[0];
    for tibia in h.nodes_with_tag(Part::Tibia) {
        let femur = h.parent(tibia).unwrap().unwrap();
        assert_eq!(h.node(femur).unwrap().tag.unwrap().part(), Part::Femur);
        let coxa = h.parent(femur).unwrap().unwrap();
        assert_eq!(h.node(coxa).unwrap().tag.unwrap().part(), Part::Coxa);
        let up = h.parent(coxa).unwrap().unwrap();
        assert_eq!(up, body);
        assert_eq!(h.node(up).unwrap().tag, Some(Tag::MainBody));
        let root = h.parent(up).unwrap().unwrap();
        assert_eq!(root, h.root());
        assert_eq!(h.parent(root), Ok(None));
        assert_eq!(h.node(root).unwrap().tag, None);
        assert_eq!(h.world_transform(tibia).unwrap().len(), 4);
    }
}

#[test]
fn every_leg_has_one_coxa_one_femur_one_tibia_in_one_chain() {
    let h = built();
    for leg in LEGS {
        let coxa = find(&h, Part::Coxa, leg);
        let femur = find(&h, Part::Femur, leg);
        let tibia = find(&h, Part::Tibia, leg);
        assert_eq!(h.node(coxa).unwrap().tag, Some(Tag::Coxa(leg)));
        assert_eq!(h.node(femur).unwrap().tag, Some(Tag::Femur(leg)));
        assert_eq!(h.node(tibia).unwrap().tag, Some(Tag::Tibia(leg)));
        assert_eq!(h.parent(tibia), Ok(Some(femur)));
        assert_eq!(h.parent(femur), Ok(Some(coxa)));
        assert_eq!(h.parent(coxa), Ok(Some(h.nodes_with_tag(Part::MainBody)[0])));
    }
    let tagged_nodes = (0..h.len())
        .filter(|i| h.node(NodeId { index: *i }).unwrap().tag.is_some())
        .count();
    assert_eq!(tagged_nodes, 19);
}

#[test]
fn segments_are_listed_in_table_order() {
    let h = built();
    for part in [Part::Coxa, Part::Femur, Part::Tibia] {
        let legs: Vec<LegIdentity> =
            h.nodes_with_tag(part).into_iter().map(|id| leg_of(&h, id)).collect();
        assert_eq!(legs, LEGS.to_vec());
    }
    let ids = |first: usize| -> Vec<NodeId> {
        (0..6).map(|r| NodeId { index: first + 2 * r }).collect()
    };
    assert_eq!(h.nodes_with_tag(Part::MainBody), vec![NodeId { index: 1 }]);
    assert_eq!(h.nodes_with_tag(Part::Coxa), ids(3));
    assert_eq!(h.nodes_with_tag(Part::Femur), ids(15));
    assert_eq!(h.nodes_with_tag(Part::Tibia), ids(27));
}

#[test]
fn table_order_is_kept_for_a_permuted_table() {
    let order = [
        LegIdentity::RightRear,
        LegIdentity::LeftMiddle,
        LegIdentity::RightFront,
        LegIdentity::LeftFront,
        LegIdentity::RightMiddle,
        LegIdentity::LeftRear,
    ];
    let table: Vec<LegOffset> =
        order.iter().enumerate().map(|(i, leg)| row(i as i64, -(i as i64), 7, *leg)).collect();
    let h = SceneBuilder::new(table, 1, assets()).unwrap().build();
    for part in [Part::Coxa, Part::Femur, Part::Tibia] {
        let legs: Vec<LegIdentity> =
            h.nodes_with_tag(part).into_iter().map(|id| leg_of(&h, id)).collect();
        assert_eq!(legs, order.to_vec());
    }
    let third = h.nodes_with_tag(Part::Coxa)[2];
    assert_eq!(
        h.local(third),
        Ok(Transform::from_xyz(2, 0, -2).with_rotation(Rotation::from_axis_angle(Axis::Y, 7)))
    );
}

#[test]
fn middle_coxas_sit_beside_the_body_turned_outwards() {
    let h = built();
    let left = h.local(find(&h, Part::Coxa, LegIdentity::LeftMiddle)).unwrap();
    assert_eq!(left.translation, Vec3::new(103 * MILLIMETRE, 0, 0));
    assert_eq!(left.translation, Vec3::new(103_000_000, 0, 0));
    assert_eq!(left.rotation, Rotation::from_axis_angle(Axis::Y, QUARTER_TURN));
    assert_eq!(left.rotation, Rotation { yaw: 1_570_796_327, pitch: 0, roll: 0 });
    let right = h.local(find(&h, Part::Coxa, LegIdentity::RightMiddle)).unwrap();
    assert_eq!(right.translation, Vec3::new(-103_000_000, 0, 0));
    assert_eq!(right.rotation, Rotation::from_axis_angle(Axis::Y, -QUARTER_TURN));
    assert_eq!(right.rotation, Rotation { yaw: -1_570_796_327, pitch: 0, roll: 0 });
}

#[test]
fn hexapod_table_places_all_six_coxas() {
    let h = built();
    let expected = [
        (63_000_000, -115_000_000, QUARTER_TURN, LegIdentity::LeftFront),
        (103_000_000, 0, QUARTER_TURN, LegIdentity::LeftMiddle),
        (63_000_000, 115_000_000, QUARTER_TURN, LegIdentity::LeftRear),
        (-63_000_000, -115_000_000, -QUARTER_TURN, LegIdentity::RightFront),
        (-103_000_000, 0, -QUARTER_TURN, LegIdentity::RightMiddle),
        (-63_000_000, 115_000_000, -QUARTER_TURN, LegIdentity::RightRear),
    ];
    let coxas = h.nodes_with_tag(Part::Coxa);
    for (i, (x, z, yaw, leg)) in expected.into_iter().enumerate() {
        let node = h.node(coxas[i]).unwrap();
        assert_eq!(node.tag, Some(Tag::Coxa(leg)));
        assert_eq!(node.renderable, None);
        assert_eq!(
            node.local,
            Transform {
                translation: Vec3::new(x, 0, z),
                rotation: Rotation { yaw, pitch: 0, roll: 0 },
                scale: Vec3::splat(1_000_000),
            }
        );
    }
}

#[test]
fn hexapod_offsets_mirror_left_and_right() {
    assert_eq!(
        hexapod_offset(LegIdentity::LeftFront),
        row(63_000_000, -115_000_000, 1_570_796_327, LegIdentity::LeftFront)
    );
    assert_eq!(
        hexapod_offset(LegIdentity::RightRear),
        row(-63_000_000, 115_000_000, -1_570_796_327, LegIdentity::RightRear)
    );
    let pairs = [
        (LegIdentity::LeftFront, LegIdentity::RightFront),
        (LegIdentity::LeftMiddle, LegIdentity::RightMiddle),
        (LegIdentity::LeftRear, LegIdentity::RightRear),
    ];
    for (left, right) in pairs {
        let l = hexapod_offset(left);
        let r = hexapod_offset(right);
        assert_eq!(l.leg, left);
        assert_eq!(r.leg, right);
        assert_eq!(l.lateral, -r.lateral);
        assert_eq!(l.longitudinal, r.longitudinal);
        assert_eq!(l.yaw, -r.yaw);
        assert!(l.lateral > 0);
    }
}

#[test]
fn femurs_and_tibias_sit_at_fixed_offsets() {
    let h = built();
    assert_eq!(FEMUR_OFFSET, 44_000_000);
    assert_eq!(TIBIA_OFFSET, 70_000_000);
    for femur in h.nodes_with_tag(Part::Femur) {
        assert_eq!(h.local(femur), Ok(Transform::from_xyz(0, 0, 44_000_000)));
    }
    for tibia in h.nodes_with_tag(Part::Tibia) {
        assert_eq!(h.local(tibia), Ok(Transform::from_xyz(0, 0, 70_000_000)));
    }
    let body = h.nodes_with_tag(Part::MainBody)[0];
    assert_eq!(h.local(body), Ok(Transform::identity()));
}

#[test]
fn mesh_parts_carry_the_corrective_transforms() {
    let r = Renderable { mesh: 5, material: 6 };
    let scale = Vec3::splat(1_000);
    let body = build_main_body(r, MM_TO_METER_SCALE);
    assert_eq!(body.renderable, r);
    assert_eq!(
        body.local,
        Transform {
            translation: Vec3::new(-45_000_000, 0, -135_000_000),
            rotation: Rotation::identity(),
            scale,
        }
    );
    assert_eq!(
        build_coxa(r, MM_TO_METER_SCALE).local,
        Transform {
            translation: Vec3::new(0, 0, 26_000_000),
            rotation: Rotation { yaw: 0, pitch: -1_570_796_327, roll: 0 },
            scale,
        }
    );
    assert_eq!(
        build_femur(r, MM_TO_METER_SCALE).local,
        Transform {
            translation: Vec3::new(-24_000_000, 10_000_000, 31_500_000),
            rotation: Rotation { yaw: 0, pitch: 0, roll: -1_570_796_327 },
            scale,
        }
    );
    assert_eq!(
        build_tibia(r, MM_TO_METER_SCALE).local,
        Transform {
            translation: Vec3::new(-20_000_000, 10_000_000, 31_500_000),
            rotation: Rotation { yaw: 0, pitch: 0, roll: -1_570_796_327 },
            scale,
        }
    );
    assert_eq!(build_tibia(r, 250).local.scale, Vec3::splat(250));
    assert_eq!(build_coxa(r, 250).renderable, r);
    assert_eq!(build_femur(r, 250).renderable, r);
    assert_eq!(build_tibia(r, 250).renderable, r);
}

#[test]
fn every_joint_has_its_mesh_below_it() {
    let h = built();
    let a = assets();
    let cases = [
        (Part::MainBody, build_main_body(a.main_body, MM_TO_METER_SCALE)),
        (Part::Coxa, build_coxa(a.coxa, MM_TO_METER_SCALE)),
        (Part::Femur, build_femur(a.femur, MM_TO_METER_SCALE)),
        (Part::Tibia, build_tibia(a.tibia, MM_TO_METER_SCALE)),
    ];
    let mut meshes = 0;
    for (part, mesh) in cases {
        for joint in h.nodes_with_tag(part) {
            let below = h.node(NodeId { index: joint.index + 1 }).unwrap();
            assert_eq!(below.parent, Some(joint));
            assert_eq!(below.tag, None);
            assert_eq!(below.renderable, Some(mesh.renderable));
            assert_eq!(below.local, mesh.local);
            assert_eq!(below.local.scale, Vec3::splat(1_000));
            meshes += 1;
        }
    }
    assert_eq!(meshes, 19);
    let drawn =
        (0..h.len()).filter(|i| h.node(NodeId { index: *i }).unwrap().renderable.is_some()).count();
    assert_eq!(drawn, 19);
}

#[test]
fn world_transform_of_a_tibia_lists_its_chain() {
    let h = built();
    let tibia = find(&h, Part::Tibia, LegIdentity::RightFront);
    let coxa = find(&h, Part::Coxa, LegIdentity::RightFront);
    assert_eq!(
        h.world_transform(tibia),
        Ok(vec![
            Transform::identity(),
            h.local(coxa).unwrap(),
            Transform::from_xyz(0, 0, 44_000_000),
            Transform::from_xyz(0, 0, 70_000_000),
        ])
    );
    assert_eq!(
        h.local(coxa).unwrap(),
        Transform::from_xyz(-63_000_000, 0, -115_000_000)
            .with_rotation(Rotation::from_axis_angle(Axis::Y, -QUARTER_TURN))
    );
}

#[test]
fn table_with_a_leg_twice_is_refused() {
    let mut table: Vec<LegOffset> = LEGS.iter().map(|leg| row(1, 2, 3, *leg)).collect();
    assert!(SceneBuilder::new(table.clone(), 1_000, assets()).is_some());
    table[5].leg = LegIdentity::LeftFront;
    assert!(SceneBuilder::new(table.clone(), 1_000, assets()).is_none());
    table[5].leg = LegIdentity::RightMiddle;
    assert!(SceneBuilder::new(table, 1_000, assets()).is_none());
}

#[test]
fn table_of_the_wrong_length_is_refused() {
    let five: Vec<LegOffset> = LEGS.iter().take(5).map(|leg| row(0, 0, 0, *leg)).collect();
    assert!(SceneBuilder::new(five, 1_000, assets()).is_none());
    let mut seven: Vec<LegOffset> = LEGS.iter().map(|leg| row(0, 0, 0, *leg)).collect();
    seven.push(row(0, 0, 0, LegIdentity::LeftFront));
    assert!(SceneBuilder::new(seven, 1_000, assets()).is_none());
    assert!(SceneBuilder::new(Vec::new(), 1_000, assets()).is_none());
}

#[test]
fn attach_below_a_built_scene_still_checks_the_parent() {
    let mut h = built();
    assert_eq!(
        h.attach(NodeId { index: 39 }, Transform::identity(), None),
        Err(HierarchyError::InvalidParent)
    );
    assert_eq!(h.attach(NodeId { index: 38 }, Transform::identity(), None), Ok(NodeId { index: 39 }));
}
