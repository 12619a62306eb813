//! Construction of the robot's fixed layout: a main body with six legs of
//! three segments each, every segment carrying the mesh drawn for it.

use vstd::prelude::*;
use crate::hierarchy::{
    has_part, is_tree, lemma_tagged_unique, tagged, Node, NodeId, Renderable, TransformHierarchy,
};
use crate::leg::{LegIdentity, Part, Tag, LEG_COUNT};
use crate::transform::{Axis, Rotation, Transform, Vec3, MM_TO_METER_SCALE, QUARTER_TURN};

verus! {

/// Lateral distance of the front and rear coxa joints from the body's
/// middle line, in nanometres.
pub const CORNER_LATERAL: i64 = 63_000_000;

/// Lateral distance of the middle coxa joints from the body's middle line, in
/// nanometres.
pub const MIDDLE_LATERAL: i64 = 103_000_000;

/// Longitudinal distance of the front and rear coxa joints from the body's
/// centre, in nanometres.
pub const CORNER_LONGITUDINAL: i64 = 115_000_000;

/// Distance from a coxa joint to its femur joint, in nanometres.
pub const FEMUR_OFFSET: i64 = 44_000_000;

/// Distance from a femur joint to its tibia joint, in nanometres.
pub const TIBIA_OFFSET: i64 = 70_000_000;

// The placements below bring each mesh, as it was authored, onto the axes of
// its joint. They are calibration fitted to the mesh files, not geometry of
// the robot: change them only together with the meshes.

/// Lateral placement of the main body's mesh, in nanometres.
pub const MAIN_BODY_MESH_X: i64 = -45_000_000;

/// Longitudinal placement of the main body's mesh, in nanometres.
pub const MAIN_BODY_MESH_Z: i64 = -135_000_000;

/// Longitudinal placement of a coxa's mesh, in nanometres.
pub const COXA_MESH_Z: i64 = 26_000_000;

/// Lateral placement of a femur's mesh, in nanometres.
pub const FEMUR_MESH_X: i64 = -24_000_000;

/// Lateral placement of a tibia's mesh, in nanometres.
pub const TIBIA_MESH_X: i64 = -20_000_000;

/// Vertical placement of the mesh of a femur or tibia, in nanometres.
pub const LIMB_MESH_Y: i64 = 10_000_000;

/// Longitudinal placement of the mesh of a femur or tibia, in nanometres.
pub const LIMB_MESH_Z: i64 = 31_500_000;

/// Turn of a leg segment's mesh about its axis, in nanoradians: a quarter turn
/// back.
pub const MESH_TURN: i64 = -QUARTER_TURN;

/// Number of nodes of a built scene: the root, the main body and its mesh,
/// and a joint and a mesh for each of the three segments of each leg.
pub const SCENE_NODE_COUNT: usize = 39;

/// Where one leg is mounted on the main body.
#[derive(Clone, Copy, Debug, PartialEq, Eq, Structural)]
pub struct LegOffset {
    /// Offset of the coxa joint along the lateral axis, in nanometres.
    pub lateral: i64,
    /// Offset of the coxa joint along the longitudinal axis, in nanometres.
    pub longitudinal: i64,
    /// Turn of the coxa joint about the vertical axis, in nanoradians.
    pub yaw: i64,
    /// The leg mounted there.
    pub leg: LegIdentity,
}

/// What the host draws for each kind of part.
#[derive(Clone, Copy, Debug, PartialEq, Eq, Structural)]
pub struct PartAssets {
    pub main_body: Renderable,
    pub coxa: Renderable,
    pub femur: Renderable,
    pub tibia: Renderable,
}

/// A mesh to hang below a joint: what to draw, and the fixed placement that
/// brings the mesh as it was authored onto the joint's axes.
#[derive(Clone, Copy, Debug, PartialEq, Eq, Structural)]
pub struct MeshPart {
    pub local: Transform,
    pub renderable: Renderable,
}

/// The mesh of the main body, scaled uniformly by `mesh_scale` millionths.
pub open spec fn build_main_body_spec(renderable: Renderable, mesh_scale: i64) -> MeshPart {
    MeshPart {
        local: Transform::from_xyz_spec(MAIN_BODY_MESH_X, 0, MAIN_BODY_MESH_Z).with_scale_spec(
            Vec3::splat_spec(mesh_scale),
        ),
        renderable,
    }
}

/// The mesh of a coxa, scaled uniformly by `mesh_scale` millionths.
pub open spec fn build_coxa_spec(renderable: Renderable, mesh_scale: i64) -> MeshPart {
    MeshPart {
        local: Transform::from_xyz_spec(0, 0, COXA_MESH_Z).with_rotation_spec(
            Rotation::from_axis_angle_spec(Axis::X, MESH_TURN),
        ).with_scale_spec(Vec3::splat_spec(mesh_scale)),
        renderable,
    }
}

/// The mesh of a femur, scaled uniformly by `mesh_scale` millionths.
pub open spec fn build_femur_spec(renderable: Renderable, mesh_scale: i64) -> MeshPart {
    MeshPart {
        local: Transform::from_xyz_spec(FEMUR_MESH_X, LIMB_MESH_Y, LIMB_MESH_Z).with_rotation_spec(
            Rotation::from_axis_angle_spec(Axis::Z, MESH_TURN),
        ).with_scale_spec(Vec3::splat_spec(mesh_scale)),
        renderable,
    }
}

/// The mesh of a tibia, scaled uniformly by `mesh_scale` millionths.
pub open spec fn build_tibia_spec(renderable: Renderable, mesh_scale: i64) -> MeshPart {
    MeshPart {
        local: Transform::from_xyz_spec(TIBIA_MESH_X, LIMB_MESH_Y, LIMB_MESH_Z).with_rotation_spec(
            Rotation::from_axis_angle_spec(Axis::Z, MESH_TURN),
        ).with_scale_spec(Vec3::splat_spec(mesh_scale)),
        renderable,
    }
}

/// The mesh of the main body, scaled uniformly by `mesh_scale` millionths.
pub fn build_main_body(renderable: Renderable, mesh_scale: i64) -> (m: MeshPart)
    ensures
        m == build_main_body_spec(renderable, mesh_scale),
{
    MeshPart {
        local: Transform::from_xyz(MAIN_BODY_MESH_X, 0, MAIN_BODY_MESH_Z).with_scale(
            Vec3::splat(mesh_scale),
        ),
        renderable,
    }
}

/// The mesh of a coxa, scaled uniformly by `mesh_scale` millionths.
pub fn build_coxa(renderable: Renderable, mesh_scale: i64) -> (m: MeshPart)
    ensures
        m == build_coxa_spec(renderable, mesh_scale),
{
    MeshPart {
        local: Transform::from_xyz(0, 0, COXA_MESH_Z).with_rotation(
            Rotation::from_axis_angle(Axis::X, MESH_TURN),
        ).with_scale(Vec3::splat(mesh_scale)),
        renderable,
    }
}

/// The mesh of a femur, scaled uniformly by `mesh_scale` millionths.
pub fn build_femur(renderable: Renderable, mesh_scale: i64) -> (m: MeshPart)
    ensures
        m == build_femur_spec(renderable, mesh_scale),
{
    MeshPart {
        local: Transform::from_xyz(FEMUR_MESH_X, LIMB_MESH_Y, LIMB_MESH_Z).with_rotation(
            Rotation::from_axis_angle(Axis::Z, MESH_TURN),
        ).with_scale(Vec3::splat(mesh_scale)),
        renderable,
    }
}

/// The mesh of a tibia, scaled uniformly by `mesh_scale` millionths.
pub fn build_tibia(renderable: Renderable, mesh_scale: i64) -> (m: MeshPart)
    ensures
        m == build_tibia_spec(renderable, mesh_scale),
{
    MeshPart {
        local: Transform::from_xyz(TIBIA_MESH_X, LIMB_MESH_Y, LIMB_MESH_Z).with_rotation(
            Rotation::from_axis_angle(Axis::Z, MESH_TURN),
        ).with_scale(Vec3::splat(mesh_scale)),
        renderable,
    }
}

/// Whether `table` mounts every leg exactly once: it has six rows, and no two
/// of them name the same leg.
pub open spec fn complete(table: Seq<LegOffset>) -> bool {
    &&& table.len() == LEG_COUNT
    &&& forall|i: int, j: int|
        0 <= i < j < table.len() ==> (#[trigger] table[i]).leg != (#[trigger] table[j]).leg
}

/// Where the given leg is mounted on the robot as it is made: left legs on
/// the positive lateral side and turned a quarter turn outwards, right legs
/// mirrored; front legs towards negative Z, rear legs towards positive Z.
pub open spec fn hexapod_offset_spec(leg: LegIdentity) -> LegOffset {
    match leg {
        LegIdentity::LeftFront => LegOffset {
            lateral: CORNER_LATERAL,
            longitudinal: (-CORNER_LONGITUDINAL) as i64,
            yaw: QUARTER_TURN,
            leg,
        },
        LegIdentity::LeftMiddle => LegOffset {
            lateral: MIDDLE_LATERAL,
            longitudinal: 0,
            yaw: QUARTER_TURN,
            leg,
        },
        LegIdentity::LeftRear => LegOffset {
            lateral: CORNER_LATERAL,
            longitudinal: CORNER_LONGITUDINAL,
            yaw: QUARTER_TURN,
            leg,
        },
        LegIdentity::RightFront => LegOffset {
            lateral: (-CORNER_LATERAL) as i64,
            longitudinal: (-CORNER_LONGITUDINAL) as i64,
            yaw: (-QUARTER_TURN) as i64,
            leg,
        },
        LegIdentity::RightMiddle => LegOffset {
            lateral: (-MIDDLE_LATERAL) as i64,
            longitudinal: 0,
            yaw: (-QUARTER_TURN) as i64,
            leg,
        },
        LegIdentity::RightRear => LegOffset {
            lateral: (-CORNER_LATERAL) as i64,
            longitudinal: CORNER_LONGITUDINAL,
            yaw: (-QUARTER_TURN) as i64,
            leg,
        },
    }
}

/// The mounting table of the robot as it is made: left side first, each side
/// front to rear.
pub open spec fn hexapod_table() -> Seq<LegOffset> {
    seq![
        hexapod_offset_spec(LegIdentity::LeftFront),
        hexapod_offset_spec(LegIdentity::LeftMiddle),
        hexapod_offset_spec(LegIdentity::LeftRear),
        hexapod_offset_spec(LegIdentity::RightFront),
        hexapod_offset_spec(LegIdentity::RightMiddle),
        hexapod_offset_spec(LegIdentity::RightRear),
    ]
}

/// Where the given leg is mounted on the robot as it is made.
pub fn hexapod_offset(leg: LegIdentity) -> (row: LegOffset)
    ensures
        row == hexapod_offset_spec(leg),
{
    match leg {
        LegIdentity::LeftFront => LegOffset {
            lateral: CORNER_LATERAL,
            longitudinal: -CORNER_LONGITUDINAL,
            yaw: QUARTER_TURN,
            leg,
        },
        LegIdentity::LeftMiddle => LegOffset {
            lateral: MIDDLE_LATERAL,
            longitudinal: 0,
            yaw: QUARTER_TURN,
            leg,
        },
        LegIdentity::LeftRear => LegOffset {
            lateral: CORNER_LATERAL,
            longitudinal: CORNER_LONGITUDINAL,
            yaw: QUARTER_TURN,
            leg,
        },
        LegIdentity::RightFront => LegOffset {
            lateral: -CORNER_LATERAL,
            longitudinal: -CORNER_LONGITUDINAL,
            yaw: -QUARTER_TURN,
            leg,
        },
        LegIdentity::RightMiddle => LegOffset {
            lateral: -MIDDLE_LATERAL,
            longitudinal: 0,
            yaw: -QUARTER_TURN,
            leg,
        },
        LegIdentity::RightRear => LegOffset {
            lateral: -CORNER_LATERAL,
            longitudinal: CORNER_LONGITUDINAL,
            yaw: -QUARTER_TURN,
            leg,
        },
    }
}

/// Id of the root.
pub open spec fn root_id() -> int {
    0
}

/// Id of the main body.
pub open spec fn main_body_id() -> int {
    1
}

/// Id of the main body's mesh.
pub open spec fn main_body_mesh_id() -> int {
    2
}

/// Id of the coxa joint of the leg in row `row` of the table.
pub open spec fn coxa_id(row: int) -> int {
    3 + 2 * row
}

/// Id of the femur joint of the leg in row `row` of the table.
pub open spec fn femur_id(row: int) -> int {
    15 + 2 * row
}

/// Id of the tibia joint of the leg in row `row` of the table.
pub open spec fn tibia_id(row: int) -> int {
    27 + 2 * row
}

/// Placement of a coxa joint on the main body.
pub open spec fn coxa_joint(row: LegOffset) -> Transform {
    Transform::from_xyz_spec(row.lateral, 0, row.longitudinal).with_rotation_spec(
        Rotation::from_axis_angle_spec(Axis::Y, row.yaw),
    )
}

/// A joint: a tagged node with nothing to draw.
pub open spec fn joint_node(local: Transform, parent: int, tag: Tag) -> Node {
    Node { local, parent: Some(NodeId { index: parent as usize }), tag: Some(tag), renderable: None }
}

/// A mesh: an untagged node that carries something to draw.
pub open spec fn mesh_node(mesh: MeshPart, parent: int) -> Node {
    Node {
        local: mesh.local,
        parent: Some(NodeId { index: parent as usize }),
        tag: None,
        renderable: Some(mesh.renderable),
    }
}

/// Node `k` of the scene built from `table`: the root, the main body and its
/// mesh, then the coxa of every leg with its mesh, then the femurs, then the
/// tibias, each group in table order.
pub open spec fn scene_node(
    table: Seq<LegOffset>,
    mesh_scale: i64,
    assets: PartAssets,
    k: int,
) -> Node {
    if k == root_id() {
        Node { local: Transform::identity_spec(), parent: None, tag: None, renderable: None }
    } else if k == main_body_id() {
        joint_node(Transform::identity_spec(), root_id(), Tag::MainBody)
    } else if k == main_body_mesh_id() {
        mesh_node(build_main_body_spec(assets.main_body, mesh_scale), main_body_id())
    } else if k < femur_id(0) {
        let row = (k - coxa_id(0)) / 2;
        if k == coxa_id(row) {
            joint_node(coxa_joint(table[row]), main_body_id(), Tag::Coxa(table[row].leg))
        } else {
            mesh_node(build_coxa_spec(assets.coxa, mesh_scale), coxa_id(row))
        }
    } else if k < tibia_id(0) {
        let row = (k - femur_id(0)) / 2;
        if k == femur_id(row) {
            joint_node(
                Transform::from_xyz_spec(0, 0, FEMUR_OFFSET),
                coxa_id(row),
                Tag::Femur(table[row].leg),
            )
        } else {
            mesh_node(build_femur_spec(assets.femur, mesh_scale), femur_id(row))
        }
    } else {
        let row = (k - tibia_id(0)) / 2;
        if k == tibia_id(row) {
            joint_node(
                Transform::from_xyz_spec(0, 0, TIBIA_OFFSET),
                femur_id(row),
                Tag::Tibia(table[row].leg),
            )
        } else {
            mesh_node(build_tibia_spec(assets.tibia, mesh_scale), tibia_id(row))
        }
    }
}

/// The nodes of the scene built from `table`, in insertion order.
pub open spec fn scene_nodes(table: Seq<LegOffset>, mesh_scale: i64, assets: PartAssets) -> Seq<
    Node,
> {
    Seq::new(SCENE_NODE_COUNT as nat, |k: int| scene_node(table, mesh_scale, assets, k))
}

/// The ids of the joints of one kind, one per table row, in table order.
pub open spec fn joint_ids(first: int) -> Seq<NodeId> {
    Seq::new(LEG_COUNT as nat, |row: int| NodeId { index: (first + 2 * row) as usize })
}

/// Whether the leg segment `k` hangs on a complete chain: it is a tibia on a
/// femur on a coxa on the main body on the root.
pub open spec fn on_leg_chain(nodes: Seq<Node>, k: int) -> bool {
    let femur = nodes[k].parent->0.index as int;
    let coxa = nodes[femur].parent->0.index as int;
    let body = nodes[coxa].parent->0.index as int;
    let root = nodes[body].parent->0.index as int;
    &&& has_part(nodes, k, Part::Tibia)
    &&& nodes[k].parent is Some
    &&& 0 <= femur < k
    &&& has_part(nodes, femur, Part::Femur)
    &&& nodes[femur].parent is Some
    &&& 0 <= coxa < femur
    &&& has_part(nodes, coxa, Part::Coxa)
    &&& nodes[coxa].parent is Some
    &&& 0 <= body < coxa
    &&& has_part(nodes, body, Part::MainBody)
    &&& nodes[body].parent is Some
    &&& root == root_id()
    &&& nodes[root].parent is None
    &&& nodes[root].tag is None
}

/// The built scene is a tree of [`SCENE_NODE_COUNT`] nodes.
pub proof fn lemma_scene_is_tree(table: Seq<LegOffset>, mesh_scale: i64, assets: PartAssets)
    ensures
        scene_nodes(table, mesh_scale, assets).len() == SCENE_NODE_COUNT,
        is_tree(scene_nodes(table, mesh_scale, assets)),
{
}

/// A built scene holds one main body and, of coxas, femurs and tibias, six
/// each, listed in table order; and from every tibia the way up leads through
/// one femur and one coxa to the main body and from there to the root.
pub proof fn lemma_scene_has_six_legs(table: Seq<LegOffset>, mesh_scale: i64, assets: PartAssets)
    ensures
        tagged(scene_nodes(table, mesh_scale, assets), Part::MainBody) == seq![
            NodeId { index: main_body_id() as usize },
        ],
        tagged(scene_nodes(table, mesh_scale, assets), Part::Coxa) == joint_ids(coxa_id(0)),
        tagged(scene_nodes(table, mesh_scale, assets), Part::Femur) == joint_ids(femur_id(0)),
        tagged(scene_nodes(table, mesh_scale, assets), Part::Tibia) == joint_ids(tibia_id(0)),
        tagged(scene_nodes(table, mesh_scale, assets), Part::Coxa).len() == LEG_COUNT,
        tagged(scene_nodes(table, mesh_scale, assets), Part::Femur).len() == LEG_COUNT,
        tagged(scene_nodes(table, mesh_scale, assets), Part::Tibia).len() == LEG_COUNT,
        forall|k: int|
            0 <= k < SCENE_NODE_COUNT && #[trigger] has_part(
                scene_nodes(table, mesh_scale, assets),
                k,
                Part::Tibia,
            ) ==> on_leg_chain(scene_nodes(table, mesh_scale, assets), k),
{
    let nodes = scene_nodes(table, mesh_scale, assets);
    let bodies = seq![NodeId { index: main_body_id() as usize }];
    let coxas = joint_ids(coxa_id(0));
    let femurs = joint_ids(femur_id(0));
    let tibias = joint_ids(tibia_id(0));
    assert forall|i: int| 0 <= i < nodes.len() && has_part(nodes, i, Part::MainBody) implies bodies.contains(
        NodeId { index: i as usize },
    ) by {
        assert(bodies[0] == NodeId { index: i as usize });
    }
    lemma_tagged_unique(nodes, Part::MainBody, bodies);
    assert forall|i: int| 0 <= i < nodes.len() && has_part(nodes, i, Part::Coxa) implies coxas.contains(
        NodeId { index: i as usize },
    ) by {
        assert(coxas[(i - coxa_id(0)) / 2] == NodeId { index: i as usize });
    }
    lemma_tagged_unique(nodes, Part::Coxa, coxas);
    assert forall|i: int| 0 <= i < nodes.len() && has_part(nodes, i, Part::Femur) implies femurs.contains(
        NodeId { index: i as usize },
    ) by {
        assert(femurs[(i - femur_id(0)) / 2] == NodeId { index: i as usize });
    }
    lemma_tagged_unique(nodes, Part::Femur, femurs);
    assert forall|i: int| 0 <= i < nodes.len() && has_part(nodes, i, Part::Tibia) implies tibias.contains(
        NodeId { index: i as usize },
    ) by {
        assert(tibias[(i - tibia_id(0)) / 2] == NodeId { index: i as usize });
    }
    lemma_tagged_unique(nodes, Part::Tibia, tibias);
    assert forall|k: int| 0 <= k < SCENE_NODE_COUNT && #[trigger] has_part(
        nodes,
        k,
        Part::Tibia,
    ) implies on_leg_chain(nodes, k) by {
        let row = (k - tibia_id(0)) / 2;
        assert(k == tibia_id(row));
        assert(nodes[k].parent->0.index == femur_id(row));
        assert(nodes[femur_id(row)].parent->0.index == coxa_id(row));
        assert(nodes[coxa_id(row)].parent->0.index == main_body_id());
        assert(nodes[main_body_id()].parent->0.index == root_id());
    }
}

/// In a table that mounts every leg once, every leg has its row.
pub proof fn lemma_complete_table_has_leg(table: Seq<LegOffset>, leg: LegIdentity) -> (row: int)
    requires
        complete(table),
    ensures
        0 <= row < LEG_COUNT,
        table[row].leg == leg,
        forall|other: int| 0 <= other < LEG_COUNT && table[other].leg == leg ==> other == row,
{
    let found = exists|r: int| 0 <= r < LEG_COUNT && (#[trigger] table[r]).leg == leg;
    if !found {
        // Six rows that differ pairwise would have to share the five other legs.
        assert(table[0].leg != leg && table[1].leg != leg && table[2].leg != leg);
        assert(table[3].leg != leg && table[4].leg != leg && table[5].leg != leg);
        assert(false);
    }
    let row = choose|r: int| 0 <= r < LEG_COUNT && (#[trigger] table[r]).leg == leg;
    row
}

/// In a scene built from a table that mounts every leg once, every leg is
/// carried by exactly one coxa, one femur and one tibia, and these three form
/// one chain: the tibia hangs on the femur, the femur on the coxa, the coxa on
/// the main body.
pub proof fn lemma_scene_one_chain_per_leg(
    table: Seq<LegOffset>,
    mesh_scale: i64,
    assets: PartAssets,
    leg: LegIdentity,
) -> (row: int)
    requires
        complete(table),
    ensures
        0 <= row < LEG_COUNT,
        table[row].leg == leg,
        forall|k: int|
            0 <= k < SCENE_NODE_COUNT ==> ((#[trigger] scene_nodes(
                table,
                mesh_scale,
                assets,
            )[k]).tag == Some(Tag::Coxa(leg)) <==> k == coxa_id(row)),
        forall|k: int|
            0 <= k < SCENE_NODE_COUNT ==> ((#[trigger] scene_nodes(
                table,
                mesh_scale,
                assets,
            )[k]).tag == Some(Tag::Femur(leg)) <==> k == femur_id(row)),
        forall|k: int|
            0 <= k < SCENE_NODE_COUNT ==> ((#[trigger] scene_nodes(
                table,
                mesh_scale,
                assets,
            )[k]).tag == Some(Tag::Tibia(leg)) <==> k == tibia_id(row)),
        scene_nodes(table, mesh_scale, assets)[tibia_id(row)].parent == Some(
            NodeId { index: femur_id(row) as usize },
        ),
        scene_nodes(table, mesh_scale, assets)[femur_id(row)].parent == Some(
            NodeId { index: coxa_id(row) as usize },
        ),
        scene_nodes(table, mesh_scale, assets)[coxa_id(row)].parent == Some(
            NodeId { index: main_body_id() as usize },
        ),
{
    let row = lemma_complete_table_has_leg(table, leg);
    let nodes = scene_nodes(table, mesh_scale, assets);
    assert forall|k: int| 0 <= k < SCENE_NODE_COUNT implies ((#[trigger] nodes[k]).tag == Some(
        Tag::Coxa(leg),
    ) <==> k == coxa_id(row)) by {
        if nodes[k].tag == Some(Tag::Coxa(leg)) {
            let r = (k - coxa_id(0)) / 2;
            assert(table[r].leg == leg);
        }
    }
    assert forall|k: int| 0 <= k < SCENE_NODE_COUNT implies ((#[trigger] nodes[k]).tag == Some(
        Tag::Femur(leg),
    ) <==> k == femur_id(row)) by {
        if nodes[k].tag == Some(Tag::Femur(leg)) {
            let r = (k - femur_id(0)) / 2;
            assert(table[r].leg == leg);
        }
    }
    assert forall|k: int| 0 <= k < SCENE_NODE_COUNT implies ((#[trigger] nodes[k]).tag == Some(
        Tag::Tibia(leg),
    ) <==> k == tibia_id(row)) by {
        if nodes[k].tag == Some(Tag::Tibia(leg)) {
            let r = (k - tibia_id(0)) / 2;
            assert(table[r].leg == leg);
        }
    }
    row
}

/// Builds the robot's hierarchy from a table that mounts every leg once.
pub struct SceneBuilder {
    table: Vec<LegOffset>,
    mesh_scale: i64,
    assets: PartAssets,
}

impl SceneBuilder {
    #[verifier::type_invariant]
    closed spec fn table_is_complete(&self) -> bool {
        complete(self.table@)
    }

    /// The mounting table, one row per leg.
    pub closed spec fn table(&self) -> Seq<LegOffset> {
        self.table@
    }

    /// The uniform scale given to every mesh, in millionths.
    pub closed spec fn mesh_scale(&self) -> i64 {
        self.mesh_scale
    }

    /// What is drawn for each kind of part.
    pub closed spec fn assets(&self) -> PartAssets {
        self.assets
    }

    /// A builder for the given table, or `None` if the table does not mount
    /// every leg exactly once.
    pub fn new(table: Vec<LegOffset>, mesh_scale: i64, assets: PartAssets) -> (r: Option<
        SceneBuilder,
    >)
        ensures
            r is Some <==> complete(table@),
            r matches Some(b) ==> b.table() == table@ && b.mesh_scale() == mesh_scale && b.assets()
                == assets,
    {
        if table.len() != LEG_COUNT {
            return None;
        }
        let mut j: usize = 1;
        while j < LEG_COUNT
            invariant
                table@.len() == LEG_COUNT,
                1 <= j <= LEG_COUNT,
                forall|a: int, b: int|
                    0 <= a < b < j ==> (#[trigger] table@[a]).leg != (#[trigger] table@[b]).leg,
            decreases LEG_COUNT - j,
        {
            let mut i: usize = 0;
            while i < j
                invariant
                    table@.len() == LEG_COUNT,
                    i <= j < LEG_COUNT,
                    forall|a: int| 0 <= a < i ==> (#[trigger] table@[a]).leg != table@[j as int].leg,
                decreases j - i,
            {
                if table[i].leg == table[j].leg {
                    return None;
                }
                i = i + 1;
            }
            j = j + 1;
        }
        Some(SceneBuilder { table, mesh_scale, assets })
    }

    /// The builder for the robot as it is made: the fixed mounting table, and
    /// meshes authored in millimetres.
    pub fn hexapod(assets: PartAssets) -> (b: SceneBuilder)
        ensures
            b.table() == hexapod_table(),
            b.mesh_scale() == MM_TO_METER_SCALE,
            b.assets() == assets,
    {
        let mut table: Vec<LegOffset> = Vec::new();
        table.push(hexapod_offset(LegIdentity::LeftFront));
        table.push(hexapod_offset(LegIdentity::LeftMiddle));
        table.push(hexapod_offset(LegIdentity::LeftRear));
        table.push(hexapod_offset(LegIdentity::RightFront));
        table.push(hexapod_offset(LegIdentity::RightMiddle));
        table.push(hexapod_offset(LegIdentity::RightRear));
        proof {
            assert(table@ =~= hexapod_table());
        }
        SceneBuilder { table, mesh_scale: MM_TO_METER_SCALE, assets }
    }

    /// Builds the hierarchy: the root, the main body at the origin, and for
    /// every row of the table a coxa on the main body, a femur on the coxa
    /// and a tibia on the femur, each with its mesh below it.
    pub fn build(&self) -> (h: TransformHierarchy)
        ensures
            h.well_formed(),
            h@ == scene_nodes(self.table(), self.mesh_scale(), self.assets()),
    {
        proof {
            use_type_invariant(self);
        }
        let ghost table = self.table@;
        let ghost scale = self.mesh_scale;
        let ghost assets = self.assets;
        let mut h = TransformHierarchy::new();
        let root = h.root();
        let main_body = h.attach(root, Transform::identity(), Some(Tag::MainBody)).unwrap();
        let body_mesh = build_main_body(self.assets.main_body, self.mesh_scale);
        let _ = h.attach_mesh(main_body, body_mesh.local, body_mesh.renderable);

        let mut coxas: Vec<NodeId> = Vec::new();
        let mut i: usize = 0;
        while i < LEG_COUNT
            invariant
                table == self.table@,
                scale == self.mesh_scale,
                assets == self.assets,
                table.len() == LEG_COUNT,
                main_body.index == main_body_id(),
                i <= LEG_COUNT,
                h.well_formed(),
                h@.len() == coxa_id(i as int),
                forall|k: int|
                    0 <= k < h@.len() ==> #[trigger] h@[k] == scene_node(table, scale, assets, k),
                coxas@.len() == i,
                forall|r: int| 0 <= r < i ==> (#[trigger] coxas@[r]).index == coxa_id(r),
            decreases LEG_COUNT - i,
        {
            let row = self.table[i];
            let joint = Transform::from_xyz(row.lateral, 0, row.longitudinal).with_rotation(
                Rotation::from_axis_angle(Axis::Y, row.yaw),
            );
            let coxa = h.attach(main_body, joint, Some(Tag::Coxa(row.leg))).unwrap();
            let mesh = build_coxa(self.assets.coxa, self.mesh_scale);
            let _ = h.attach_mesh(coxa, mesh.local, mesh.renderable);
            coxas.push(coxa);
            i = i + 1;
        }

        let mut femurs: Vec<NodeId> = Vec::new();
        let mut i: usize = 0;
        while i < LEG_COUNT
            invariant
                table == self.table@,
                scale == self.mesh_scale,
                assets == self.assets,
                table.len() == LEG_COUNT,
                i <= LEG_COUNT,
                h.well_formed(),
                h@.len() == femur_id(i as int),
                forall|k: int|
                    0 <= k < h@.len() ==> #[trigger] h@[k] == scene_node(table, scale, assets, k),
                coxas@.len() == LEG_COUNT,
                forall|r: int| 0 <= r < LEG_COUNT ==> (#[trigger] coxas@[r]).index == coxa_id(r),
                femurs@.len() == i,
                forall|r: int| 0 <= r < i ==> (#[trigger] femurs@[r]).index == femur_id(r),
            decreases LEG_COUNT - i,
        {
            let row = self.table[i];
            let femur = h.attach(
                coxas[i],
                Transform::from_xyz(0, 0, FEMUR_OFFSET),
                Some(Tag::Femur(row.leg)),
            ).unwrap();
            let mesh = build_femur(self.assets.femur, self.mesh_scale);
            let _ = h.attach_mesh(femur, mesh.local, mesh.renderable);
            femurs.push(femur);
            i = i + 1;
        }

        let mut i: usize = 0;
        while i < LEG_COUNT
            invariant
                table == self.table@,
                scale == self.mesh_scale,
                assets == self.assets,
                table.len() == LEG_COUNT,
                i <= LEG_COUNT,
                h.well_formed(),
                h@.len() == tibia_id(i as int),
                forall|k: int|
                    0 <= k < h@.len() ==> #[trigger] h@[k] == scene_node(table, scale, assets, k),
                femurs@.len() == LEG_COUNT,
                forall|r: int| 0 <= r < LEG_COUNT ==> (#[trigger] femurs@[r]).index == femur_id(r),
            decreases LEG_COUNT - i,
        {
            let row = self.table[i];
            let tibia = h.attach(
                femurs[i],
                Transform::from_xyz(0, 0, TIBIA_OFFSET),
                Some(Tag::Tibia(row.leg)),
            ).unwrap();
            let mesh = build_tibia(self.assets.tibia, self.mesh_scale);
            let _ = h.attach_mesh(tibia, mesh.local, mesh.renderable);
            i = i + 1;
        }
        proof {
            assert(h@ =~= scene_nodes(table, scale, assets));
        }
        h
    }
}

} // verus!
