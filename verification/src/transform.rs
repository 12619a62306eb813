//! Fixed-point rigid-body transforms.
//!
//! Lengths are whole nanometres, angles whole nanoradians and scale factors
//! whole millionths. A rotation is held as three angles about the coordinate
//! axes rather than as a quaternion: the quaternion it stands for is derived
//! from the angles whenever it is needed, so it is of unit length by
//! construction and no drift can build up.

use vstd::prelude::*;

verus! {

/// One metre, in nanometres.
pub const METRE: i64 = 1_000_000_000;

/// One millimetre, in nanometres.
pub const MILLIMETRE: i64 = 1_000_000;

/// A quarter turn (ninety degrees), in nanoradians.
pub const QUARTER_TURN: i64 = 1_570_796_327;

/// The scale factor one, in millionths.
pub const UNIT_SCALE: i64 = 1_000_000;

/// The scale factor that turns millimetres into metres, in millionths.
pub const MM_TO_METER_SCALE: i64 = 1_000;

/// The value of `i64` nearest to `v`.
pub open spec fn clamp_i64(v: int) -> int {
    if v < i64::MIN {
        i64::MIN as int
    } else if v > i64::MAX {
        i64::MAX as int
    } else {
        v
    }
}

/// Adds two values, stopping at the ends of the `i64` range.
pub fn saturating_sum(a: i64, b: i64) -> (r: i64)
    ensures
        r == clamp_i64(a + b),
{
    match a.checked_add(b) {
        Some(r) => r,
        None => if b < 0 {
            i64::MIN
        } else {
            i64::MAX
        },
    }
}

/// A coordinate axis. `Y` points up; `X` is the lateral axis and `Z` the
/// longitudinal one.
#[derive(Clone, Copy, Debug, PartialEq, Eq, Structural)]
pub enum Axis {
    X,
    Y,
    Z,
}

/// Three components along the coordinate axes.
#[derive(Clone, Copy, Debug, PartialEq, Eq, Structural)]
pub struct Vec3 {
    pub x: i64,
    pub y: i64,
    pub z: i64,
}

impl Vec3 {
    /// The vector with all components zero.
    pub open spec fn zero_spec() -> Vec3 {
        Vec3 { x: 0, y: 0, z: 0 }
    }

    /// The vector with all components equal to `v`.
    pub open spec fn splat_spec(v: i64) -> Vec3 {
        Vec3 { x: v, y: v, z: v }
    }

    /// Component-wise sum, each component stopping at the ends of the `i64`
    /// range.
    pub open spec fn saturating_add_spec(self, other: Vec3) -> Vec3 {
        Vec3 {
            x: clamp_i64(self.x + other.x) as i64,
            y: clamp_i64(self.y + other.y) as i64,
            z: clamp_i64(self.z + other.z) as i64,
        }
    }

    /// The vector with the given components.
    pub fn new(x: i64, y: i64, z: i64) -> (v: Vec3)
        ensures
            v == (Vec3 { x, y, z }),
    {
        Vec3 { x, y, z }
    }

    /// The vector with all components zero.
    pub fn zero() -> (v: Vec3)
        ensures
            v == Vec3::zero_spec(),
    {
        Vec3 { x: 0, y: 0, z: 0 }
    }

    /// The vector with all components equal to `v`.
    pub fn splat(v: i64) -> (r: Vec3)
        ensures
            r == Vec3::splat_spec(v),
    {
        Vec3 { x: v, y: v, z: v }
    }

    /// Component-wise sum, each component stopping at the ends of the `i64`
    /// range.
    pub fn saturating_add(&self, other: &Vec3) -> (r: Vec3)
        ensures
            r == self.saturating_add_spec(*other),
    {
        Vec3 {
            x: saturating_sum(self.x, other.x),
            y: saturating_sum(self.y, other.y),
            z: saturating_sum(self.z, other.z),
        }
    }
}

/// A rotation, given by three angles in nanoradians: first `roll` about the
/// longitudinal axis Z, then `pitch` about the lateral axis X, then `yaw`
/// about the vertical axis Y.
///
/// A rotation about a single coordinate axis has one non-zero angle; the
/// identity has none.
#[derive(Clone, Copy, Debug, PartialEq, Eq, Structural)]
pub struct Rotation {
    pub yaw: i64,
    pub pitch: i64,
    pub roll: i64,
}

impl Rotation {
    /// The rotation that turns nothing.
    pub open spec fn identity_spec() -> Rotation {
        Rotation { yaw: 0, pitch: 0, roll: 0 }
    }

    /// The rotation by `angle` about `axis`.
    pub open spec fn from_axis_angle_spec(axis: Axis, angle: i64) -> Rotation {
        match axis {
            Axis::X => Rotation { yaw: 0, pitch: angle, roll: 0 },
            Axis::Y => Rotation { yaw: angle, pitch: 0, roll: 0 },
            Axis::Z => Rotation { yaw: 0, pitch: 0, roll: angle },
        }
    }

    /// This rotation followed by a turn of `angle` about the vertical axis.
    /// The yaw stops at the ends of the `i64` range.
    pub open spec fn rotate_y_spec(self, angle: i64) -> Rotation {
        Rotation { yaw: clamp_i64(self.yaw + angle) as i64, pitch: self.pitch, roll: self.roll }
    }

    /// The rotation that turns nothing.
    pub fn identity() -> (r: Rotation)
        ensures
            r == Rotation::identity_spec(),
    {
        Rotation { yaw: 0, pitch: 0, roll: 0 }
    }

    /// The rotation by `angle` nanoradians about `axis`.
    pub fn from_axis_angle(axis: Axis, angle: i64) -> (r: Rotation)
        ensures
            r == Rotation::from_axis_angle_spec(axis, angle),
    {
        match axis {
            Axis::X => Rotation { yaw: 0, pitch: angle, roll: 0 },
            Axis::Y => Rotation { yaw: angle, pitch: 0, roll: 0 },
            Axis::Z => Rotation { yaw: 0, pitch: 0, roll: angle },
        }
    }

    /// This rotation followed by a turn of `angle` nanoradians about the
    /// vertical axis.
    pub fn rotate_y(&self, angle: i64) -> (r: Rotation)
        ensures
            r == self.rotate_y_spec(angle),
    {
        Rotation { yaw: saturating_sum(self.yaw, angle), pitch: self.pitch, roll: self.roll }
    }
}

/// A parent-relative placement: scale first, then rotate, then translate.
#[derive(Clone, Copy, Debug, PartialEq, Eq, Structural)]
pub struct Transform {
    /// Offset in nanometres.
    pub translation: Vec3,
    pub rotation: Rotation,
    /// Scale factors in millionths.
    pub scale: Vec3,
}

impl Transform {
    /// The transform that moves nothing.
    pub open spec fn identity_spec() -> Transform {
        Transform {
            translation: Vec3::zero_spec(),
            rotation: Rotation::identity_spec(),
            scale: Vec3::splat_spec(UNIT_SCALE),
        }
    }

    /// The pure translation by `(x, y, z)`.
    pub open spec fn from_xyz_spec(x: i64, y: i64, z: i64) -> Transform {
        Transform { translation: Vec3 { x, y, z }, ..Transform::identity_spec() }
    }

    /// This transform with its rotation replaced.
    pub open spec fn with_rotation_spec(self, rotation: Rotation) -> Transform {
        Transform { rotation, ..self }
    }

    /// This transform with its scale replaced.
    pub open spec fn with_scale_spec(self, scale: Vec3) -> Transform {
        Transform { scale, ..self }
    }

    /// The transform that moves nothing.
    pub fn identity() -> (t: Transform)
        ensures
            t == Transform::identity_spec(),
    {
        Transform {
            translation: Vec3::zero(),
            rotation: Rotation::identity(),
            scale: Vec3::splat(UNIT_SCALE),
        }
    }

    /// The pure translation by `(x, y, z)` nanometres.
    pub fn from_xyz(x: i64, y: i64, z: i64) -> (t: Transform)
        ensures
            t == Transform::from_xyz_spec(x, y, z),
    {
        Transform {
            translation: Vec3::new(x, y, z),
            rotation: Rotation::identity(),
            scale: Vec3::splat(UNIT_SCALE),
        }
    }

    /// This transform with its rotation replaced.
    pub fn with_rotation(&self, rotation: Rotation) -> (t: Transform)
        ensures
            t == self.with_rotation_spec(rotation),
    {
        Transform { translation: self.translation, rotation, scale: self.scale }
    }

    /// This transform with its scale replaced.
    pub fn with_scale(&self, scale: Vec3) -> (t: Transform)
        ensures
            t == self.with_scale_spec(scale),
    {
        Transform { translation: self.translation, rotation: self.rotation, scale }
    }
}

/// The composition of no transform at all.
pub open spec fn identity_chain() -> Seq<Transform> {
    Seq::empty()
}

/// The composition `outer ∘ inner` of two chains of transforms: `outer` is
/// applied in the frame of the world, `inner` in the frame that `outer`
/// leaves.
pub open spec fn compose(outer: Seq<Transform>, inner: Seq<Transform>) -> Seq<Transform> {
    outer + inner
}

/// Composition has [`identity_chain`] as its neutral element on both sides.
pub proof fn lemma_compose_identity(chain: Seq<Transform>)
    ensures
        compose(identity_chain(), chain) == chain,
        compose(chain, identity_chain()) == chain,
{
    assert(Seq::<Transform>::empty() + chain =~= chain);
    assert(chain + Seq::<Transform>::empty() =~= chain);
}

/// Composition is associative.
pub proof fn lemma_compose_associative(
    a: Seq<Transform>,
    b: Seq<Transform>,
    c: Seq<Transform>,
)
    ensures
        compose(compose(a, b), c) == compose(a, compose(b, c)),
{
    assert((a + b) + c =~= a + (b + c));
}

} // verus!
