//! The per-frame update of the robot's pose.
//!
//! The main body drifts and turns with the keys that are held; every leg
//! segment swings with the sine of the elapsed time. The update only
//! overwrites local transforms of tagged nodes: it creates and removes
//! nothing.

use vstd::prelude::*;
use crate::hierarchy::{
    has_part, is_tree, lemma_tagged_lists, lemma_tagged_prefix_agrees, tagged, Node, NodeId,
    TransformHierarchy,
};
use crate::leg::{LegIdentity, Part, Side, Tag};
use crate::transform::{Axis, Rotation, Transform, Vec3, QUARTER_TURN};

verus! {

/// Distance the main body travels per microsecond along each axis whose key
/// is held, in nanometres: half a metre per second.
pub const TRAVEL_PER_MICRO: i64 = 500;

/// Swing of a leg segment per millionth of sine, in nanoradians: half a
/// radian at a sine of one.
pub const SWING_PER_MILLIONTH: i64 = 500;

/// Microseconds in a second.
pub const MICROS_PER_SECOND: u64 = 1_000_000;

/// The keys of the host, as they stand at the start of a frame.
#[derive(Clone, Copy, Debug, PartialEq, Eq, Structural)]
pub struct InputState {
    /// Held: travel towards negative Z.
    pub forward: bool,
    /// Held: travel towards positive Z.
    pub back: bool,
    /// Held: travel towards negative X.
    pub left: bool,
    /// Held: travel towards positive X.
    pub right: bool,
    /// Held: turn counter-clockwise as seen from above (positive yaw).
    pub rotate_ccw: bool,
    /// Held: turn clockwise as seen from above (negative yaw).
    pub rotate_cw: bool,
    /// Pressed during this frame: put the main body back at the origin.
    pub reset: bool,
}

/// What the host's clock and keys report for one frame.
#[derive(Clone, Copy, Debug, PartialEq, Eq, Structural)]
pub struct Frame {
    /// Sine of the time elapsed since start, in millionths.
    pub sine: i32,
    /// Time since the previous frame, in microseconds.
    pub delta_micros: u32,
    /// The keys.
    pub input: InputState,
}

/// What two opposing keys contribute along their axis: `magnitude` for the
/// positive key, its negative for the negative key. Held together they
/// cancel.
pub open spec fn signed_by_spec(negative: bool, positive: bool, magnitude: int) -> int {
    (if positive { magnitude } else { 0 }) - (if negative { magnitude } else { 0 })
}

/// Angle of a femur or tibia about the lateral axis, in nanoradians: half the
/// sine, taken as radians.
pub open spec fn swing_angle_spec(sine: i32) -> int {
    SWING_PER_MILLIONTH * sine
}

/// Angle of a coxa about the vertical axis, in nanoradians: the swing, a
/// quarter turn further on a left leg and a quarter turn back on a right one.
pub open spec fn coxa_angle_spec(sine: i32, leg: LegIdentity) -> int {
    swing_angle_spec(sine) + if leg.side_spec() == Side::Left {
        QUARTER_TURN as int
    } else {
        -QUARTER_TURN
    }
}

/// Distance travelled in `delta_micros` along an axis whose key is held, in
/// nanometres.
pub open spec fn travel_spec(delta_micros: u32) -> int {
    TRAVEL_PER_MICRO * delta_micros
}

/// Angle turned in `delta_micros` while a rotation key is held, in
/// nanoradians, rounded down: a quarter turn per second.
pub open spec fn yaw_step_spec(delta_micros: u32) -> int {
    (QUARTER_TURN * delta_micros) / (MICROS_PER_SECOND as int)
}

/// The placement of a body steered by the keys for one frame, from its
/// placement before. A reset puts it at the origin, unturned, whatever else
/// is held; otherwise it travels in the horizontal plane, diagonally if keys
/// of both axes are held, and turns about the vertical axis. The scale stays.
pub open spec fn steer_spec(prior: Transform, delta_micros: u32, input: InputState) -> Transform {
    if input.reset {
        Transform {
            translation: Vec3::zero_spec(),
            rotation: Rotation::identity_spec(),
            scale: prior.scale,
        }
    } else {
        Transform {
            translation: prior.translation.saturating_add_spec(
                Vec3 {
                    x: signed_by_spec(input.left, input.right, travel_spec(delta_micros)) as i64,
                    y: 0,
                    z: signed_by_spec(input.forward, input.back, travel_spec(delta_micros)) as i64,
                },
            ),
            rotation: prior.rotation.rotate_y_spec(
                signed_by_spec(input.rotate_cw, input.rotate_ccw, yaw_step_spec(delta_micros)) as i64,
            ),
            scale: prior.scale,
        }
    }
}

/// The local transform of a node after a frame, from its tag and its local
/// transform before: the main body is steered, a coxa is set to its angle
/// about the vertical axis, a femur or tibia to the swing about the lateral
/// axis, and an untagged node stays as it is.
pub open spec fn animate_local(tag: Option<Tag>, local: Transform, frame: Frame) -> Transform {
    match tag {
        Some(Tag::MainBody) => steer_spec(local, frame.delta_micros, frame.input),
        Some(Tag::Coxa(leg)) => local.with_rotation_spec(
            Rotation::from_axis_angle_spec(Axis::Y, coxa_angle_spec(frame.sine, leg) as i64),
        ),
        Some(Tag::Femur(_)) | Some(Tag::Tibia(_)) => local.with_rotation_spec(
            Rotation::from_axis_angle_spec(Axis::X, swing_angle_spec(frame.sine) as i64),
        ),
        None => local,
    }
}

/// `node` with its local transform as after the frame.
pub open spec fn animate_node(node: Node, frame: Frame) -> Node {
    Node { local: animate_local(node.tag, node.local, frame), ..node }
}

/// The nodes after the nodes tagged with `part` have been updated for the
/// frame; all others stay as they are.
pub open spec fn animate_part(nodes: Seq<Node>, part: Part, frame: Frame) -> Seq<Node> {
    Seq::new(
        nodes.len(),
        |i: int|
            if has_part(nodes, i, part) {
                animate_node(nodes[i], frame)
            } else {
                nodes[i]
            },
    )
}

/// The nodes after every tagged node has been updated for the frame.
pub open spec fn animate(nodes: Seq<Node>, frame: Frame) -> Seq<Node> {
    Seq::new(nodes.len(), |i: int| animate_node(nodes[i], frame))
}

/// A frame creates and removes nothing: the nodes keep their number, their
/// parents, their tags and what is drawn for them, so a tree stays a tree and
/// every list of tagged nodes stays as it was.
pub proof fn lemma_animate_keeps_structure(nodes: Seq<Node>, frame: Frame)
    ensures
        animate(nodes, frame).len() == nodes.len(),
        forall|i: int|
            0 <= i < nodes.len() ==> {
                &&& (#[trigger] animate(nodes, frame)[i]).parent == nodes[i].parent
                &&& animate(nodes, frame)[i].tag == nodes[i].tag
                &&& animate(nodes, frame)[i].renderable == nodes[i].renderable
                &&& animate(nodes, frame)[i].local.scale == nodes[i].local.scale
            },
        is_tree(nodes) ==> is_tree(animate(nodes, frame)),
        forall|part: Part| #[trigger] tagged(animate(nodes, frame), part) == tagged(nodes, part),
{
    assert forall|part: Part| #[trigger]
        tagged(animate(nodes, frame), part) == tagged(nodes, part) by {
        lemma_tagged_prefix_agrees(animate(nodes, frame), nodes, part, nodes.len());
    }
}

/// The pose of a leg segment is set, not accumulated: it depends on the
/// frame's sine alone, not on the rotation the segment had before, so the
/// same sine always gives the same pose.
pub proof fn lemma_leg_pose_is_absolute(tag: Tag, a: Transform, b: Transform, frame: Frame)
    requires
        tag.part_spec() != Part::MainBody,
        a.translation == b.translation,
        a.scale == b.scale,
    ensures
        animate_local(Some(tag), a, frame) == animate_local(Some(tag), b, frame),
        animate_local(Some(tag), animate_local(Some(tag), a, frame), frame) == animate_local(
            Some(tag),
            a,
            frame,
        ),
{
}

/// A reset puts a steered body at the origin with no turn, whatever its
/// placement was and whatever else is held.
pub proof fn lemma_reset_returns_to_origin(prior: Transform, delta_micros: u32, input: InputState)
    requires
        input.reset,
    ensures
        steer_spec(prior, delta_micros, input).translation == Vec3::zero_spec(),
        steer_spec(prior, delta_micros, input).rotation == Rotation::identity_spec(),
        steer_spec(prior, delta_micros, input).scale == prior.scale,
{
}

/// Angle of a femur or tibia about the lateral axis, in nanoradians.
pub fn swing_angle(sine: i32) -> (angle: i64)
    ensures
        angle == swing_angle_spec(sine),
{
    let s: i64 = sine as i64;
    SWING_PER_MILLIONTH * s
}

/// Angle of a coxa about the vertical axis, in nanoradians.
pub fn coxa_angle(sine: i32, leg: LegIdentity) -> (angle: i64)
    ensures
        angle == coxa_angle_spec(sine, leg),
{
    let offset: i64 = if leg.is_left() {
        QUARTER_TURN
    } else {
        -QUARTER_TURN
    };
    swing_angle(sine) + offset
}

/// What two opposing keys contribute along their axis.
pub fn signed_by(negative: bool, positive: bool, magnitude: i64) -> (r: i64)
    requires
        0 <= magnitude,
    ensures
        r == signed_by_spec(negative, positive, magnitude as int),
{
    let mut r: i64 = 0;
    if negative {
        r = r - magnitude;
    }
    if positive {
        r = r + magnitude;
    }
    r
}

/// Angle turned in `delta_micros` while a rotation key is held, in
/// nanoradians.
pub fn yaw_step(delta_micros: u32) -> (step: i64)
    ensures
        step == yaw_step_spec(delta_micros),
        0 <= step,
{
    let quarter: u64 = QUARTER_TURN as u64;
    let elapsed: u64 = delta_micros as u64;
    assert(quarter * elapsed <= 1_570_796_327 * 0xffff_ffff) by (nonlinear_arith)
        requires
            quarter == 1_570_796_327,
            elapsed <= 0xffff_ffff,
    ;
    ((quarter * elapsed) / MICROS_PER_SECOND) as i64
}

/// The placement of a body steered by the keys for one frame.
pub fn steer(prior: &Transform, delta_micros: u32, input: &InputState) -> (next: Transform)
    ensures
        next == steer_spec(*prior, delta_micros, *input),
{
    let d: i64 = delta_micros as i64;
    let travel: i64 = TRAVEL_PER_MICRO * d;
    let direction = Vec3::new(
        signed_by(input.left, input.right, travel),
        0,
        signed_by(input.forward, input.back, travel),
    );
    let turn = signed_by(input.rotate_cw, input.rotate_ccw, yaw_step(delta_micros));
    let moved = Transform {
        translation: prior.translation.saturating_add(&direction),
        rotation: prior.rotation.rotate_y(turn),
        scale: prior.scale,
    };
    if input.reset {
        Transform { translation: Vec3::zero(), rotation: Rotation::identity(), scale: moved.scale }
    } else {
        moved
    }
}

/// The local transform of a node after a frame.
pub fn pose(tag: Option<Tag>, local: &Transform, frame: &Frame) -> (next: Transform)
    ensures
        next == animate_local(tag, *local, *frame),
{
    match tag {
        Some(Tag::MainBody) => steer(local, frame.delta_micros, &frame.input),
        Some(Tag::Coxa(leg)) => local.with_rotation(
            Rotation::from_axis_angle(Axis::Y, coxa_angle(frame.sine, leg)),
        ),
        Some(Tag::Femur(_)) | Some(Tag::Tibia(_)) => local.with_rotation(
            Rotation::from_axis_angle(Axis::X, swing_angle(frame.sine)),
        ),
        None => *local,
    }
}

/// Whether node `i` has been updated once the first `done` of the ids in
/// `ids` have been: it carries the part and lies before the next id.
spec fn reached(nodes: Seq<Node>, part: Part, ids: Seq<NodeId>, done: int, i: int) -> bool {
    has_part(nodes, i, part) && (done >= ids.len() || i < ids[done].index)
}

/// Updates the nodes tagged with `part` for the frame, in insertion order.
pub fn update_part(h: &mut TransformHierarchy, part: Part, frame: &Frame)
    requires
        old(h).well_formed(),
    ensures
        final(h).well_formed(),
        final(h)@ == animate_part(old(h)@, part, *frame),
{
    let ids = h.nodes_with_tag(part);
    let ghost before = h@;
    proof {
        h.lemma_well_formed_is_tree();
        lemma_tagged_lists(before, part);
    }
    let mut k: usize = 0;
    while k < ids.len()
        invariant
            k <= ids@.len(),
            before.len() <= usize::MAX,
            forall|j: int|
                0 <= j < ids@.len() ==> (#[trigger] ids@[j]).index < before.len() && has_part(
                    before,
                    ids@[j].index as int,
                    part,
                ),
            forall|a: int, b: int|
                0 <= a < b < ids@.len() ==> (#[trigger] ids@[a]).index < (#[trigger] ids@[b]).index,
            forall|i: int|
                0 <= i < before.len() && has_part(before, i, part) ==> ids@.contains(
                    NodeId { index: i as usize },
                ),
            h.well_formed(),
            h@.len() == before.len(),
            forall|i: int|
                0 <= i < before.len() ==> #[trigger] h@[i] == if reached(
                    before,
                    part,
                    ids@,
                    k as int,
                    i,
                ) {
                    animate_node(before[i], *frame)
                } else {
                    before[i]
                },
        decreases ids@.len() - k,
    {
        let id = ids[k];
        let node = h.node(id).unwrap();
        let next = pose(node.tag, &node.local, frame);
        let _ = h.set_local(id, next);
        proof {
            // The ids rise strictly, so the nodes that carry the part and lie
            // before the next id are those reached so far and this one.
            assert forall|i: int| 0 <= i < before.len() implies #[trigger] h@[i] == if reached(
                before,
                part,
                ids@,
                k + 1,
                i,
            ) {
                animate_node(before[i], *frame)
            } else {
                before[i]
            } by {
                if has_part(before, i, part) {
                    let j = choose|j: int|
                        0 <= j < ids@.len() && ids@[j] == NodeId { index: i as usize };
                    if j < k {
                        assert(ids@[j].index < ids@[k as int].index);
                    } else if j > k {
                        assert(ids@[k as int].index < ids@[j].index);
                        if k + 1 < ids@.len() && j > k + 1 {
                            assert(ids@[k + 1].index < ids@[j].index);
                        }
                    }
                }
            }
        }
        k = k + 1;
    }
    proof {
        assert(h@ =~= animate_part(before, part, *frame));
    }
}

/// Steers the main body by the keys held during the frame.
pub fn rotate(h: &mut TransformHierarchy, frame: &Frame)
    requires
        old(h).well_formed(),
    ensures
        final(h).well_formed(),
        final(h)@ == animate_part(old(h)@, Part::MainBody, *frame),
{
    update_part(h, Part::MainBody, frame);
}

/// Sets every tibia to the frame's swing about the lateral axis.
pub fn rotate_tibias(h: &mut TransformHierarchy, frame: &Frame)
    requires
        old(h).well_formed(),
    ensures
        final(h).well_formed(),
        final(h)@ == animate_part(old(h)@, Part::Tibia, *frame),
{
    update_part(h, Part::Tibia, frame);
}

/// Sets every femur to the frame's swing about the lateral axis.
pub fn rotate_femurs(h: &mut TransformHierarchy, frame: &Frame)
    requires
        old(h).well_formed(),
    ensures
        final(h).well_formed(),
        final(h)@ == animate_part(old(h)@, Part::Femur, *frame),
{
    update_part(h, Part::Femur, frame);
}

/// Sets every coxa to the frame's swing about the vertical axis, offset by a
/// quarter turn to the side of its leg.
pub fn rotate_coxas(h: &mut TransformHierarchy, frame: &Frame)
    requires
        old(h).well_formed(),
    ensures
        final(h).well_formed(),
        final(h)@ == animate_part(old(h)@, Part::Coxa, *frame),
{
    update_part(h, Part::Coxa, frame);
}

/// Advances the whole pose by one frame: the main body, then the tibias, the
/// femurs and the coxas.
pub fn tick(h: &mut TransformHierarchy, frame: &Frame)
    requires
        old(h).well_formed(),
    ensures
        final(h).well_formed(),
        final(h)@ == animate(old(h)@, *frame),
{
    rotate(h, frame);
    rotate_tibias(h, frame);
    rotate_femurs(h, frame);
    rotate_coxas(h, frame);
    proof {
        assert(h@ =~= animate(old(h)@, *frame));
    }
}

} // verus!
