use hexapod::leg::{LegIdentity, Part, Side, Tag};
use hexapod::transform::{
    saturating_sum, Axis, Rotation, Transform, Vec3, METRE, MILLIMETRE, MM_TO_METER_SCALE,
    QUARTER_TURN, UNIT_SCALE,
};

#[test]
fn left_legs_are_left_and_right_legs_are_right() {
    let left = [LegIdentity::LeftFront, LegIdentity::LeftMiddle, LegIdentity::LeftRear];
    let right = [LegIdentity::RightFront, LegIdentity::RightMiddle, LegIdentity::RightRear];
    for leg in left {
        assert!(leg.is_left());
        assert!(!leg.is_right());
        assert_eq!(leg.side(), Side::Left);
    }
    for leg in right {
        assert!(!leg.is_left());
        assert!(leg.is_right());
        assert_eq!(leg.side(), Side::Right);
    }
}

#[test]
fn tag_gives_part_and_leg() {
    assert_eq!(Tag::MainBody.part(), Part::MainBody);
    assert_eq!(Tag::MainBody.leg(), None);
    assert_eq!(Tag::Coxa(LegIdentity::LeftRear).part(), Part::Coxa);
    assert_eq!(Tag::Coxa(LegIdentity::LeftRear).leg(), Some(LegIdentity::LeftRear));
    assert_eq!(Tag::Femur(LegIdentity::RightFront).part(), Part::Femur);
    assert_eq!(Tag::Femur(LegIdentity::RightFront).leg(), Some(LegIdentity::RightFront));
    assert_eq!(Tag::Tibia(LegIdentity::RightMiddle).part(), Part::Tibia);
    assert_eq!(Tag::Tibia(LegIdentity::RightMiddle).leg(), Some(LegIdentity::RightMiddle));
}

#[test]
fn units_are_consistent() {
    assert_eq!(METRE, 1000 * MILLIMETRE);
    assert_eq!(MILLIMETRE, 1_000_000);
    assert_eq!(UNIT_SCALE, 1000 * MM_TO_METER_SCALE);
    // pi / 2 = 1.5707963267948966...
    assert_eq!(QUARTER_TURN, 1_570_796_327);
    assert_eq!(QUARTER_TURN, (std::f64::consts::FRAC_PI_2 * 1e9).round() as i64);
}

#[test]
fn saturating_sum_stops_at_the_ends_of_the_range() {
    assert_eq!(saturating_sum(2, 3), 5);
    assert_eq!(saturating_sum(-2, -3), -5);
    assert_eq!(saturating_sum(i64::MAX, 1), i64::MAX);
    assert_eq!(saturating_sum(i64::MAX - 1, 1), i64::MAX);
    assert_eq!(saturating_sum(i64::MIN, -1), i64::MIN);
    assert_eq!(saturating_sum(i64::MIN + 1, -1), i64::MIN);
    assert_eq!(saturating_sum(i64::MAX, i64::MIN), -1);
    assert_eq!(saturating_sum(i64::MIN, i64::MIN), i64::MIN);
    assert_eq!(saturating_sum(i64::MAX, i64::MAX), i64::MAX);
}

#[test]
fn vec3_constructors_and_saturating_add() {
    assert_eq!(Vec3::new(1, 2, 3), Vec3 { x: 1, y: 2, z: 3 });
    assert_eq!(Vec3::zero(), Vec3 { x: 0, y: 0, z: 0 });
    assert_eq!(Vec3::splat(7), Vec3 { x: 7, y: 7, z: 7 });
    let a = Vec3::new(1, i64::MAX, i64::MIN);
    let b = Vec3::new(-4, 5, -6);
    assert_eq!(a.saturating_add(&b), Vec3 { x: -3, y: i64::MAX, z: i64::MIN });
}

#[test]
fn rotation_about_one_axis_sets_one_angle() {
    assert_eq!(Rotation::identity(), Rotation { yaw: 0, pitch: 0, roll: 0 });
    assert_eq!(Rotation::from_axis_angle(Axis::X, 5), Rotation { yaw: 0, pitch: 5, roll: 0 });
    assert_eq!(Rotation::from_axis_angle(Axis::Y, -6), Rotation { yaw: -6, pitch: 0, roll: 0 });
    assert_eq!(Rotation::from_axis_angle(Axis::Z, 7), Rotation { yaw: 0, pitch: 0, roll: 7 });
    assert_eq!(Rotation::from_axis_angle(Axis::Y, 0), Rotation::identity());
}

#[test]
fn rotate_y_adds_to_the_yaw_alone() {
    let r = Rotation { yaw: 10, pitch: 20, roll: 30 };
    assert_eq!(r.rotate_y(5), Rotation { yaw: 15, pitch: 20, roll: 30 });
    assert_eq!(r.rotate_y(-25), Rotation { yaw: -15, pitch: 20, roll: 30 });
    assert_eq!(r.rotate_y(0), r);
    assert_eq!(r.rotate_y(i64::MAX), Rotation { yaw: i64::MAX, pitch: 20, roll: 30 });
    let low = Rotation { yaw: -10, pitch: 0, roll: 0 };
    assert_eq!(low.rotate_y(i64::MIN), Rotation { yaw: i64::MIN, pitch: 0, roll: 0 });
}

#[test]
fn transform_builders_replace_one_component() {
    let id = Transform::identity();
    assert_eq!(id.translation, Vec3::zero());
    assert_eq!(id.rotation, Rotation::identity());
    assert_eq!(id.scale, Vec3::splat(UNIT_SCALE));
    let t = Transform::from_xyz(1, 2, 3);
    assert_eq!(t.translation, Vec3::new(1, 2, 3));
    assert_eq!(t.rotation, Rotation::identity());
    assert_eq!(t.scale, Vec3::splat(1_000_000));
    let r = Rotation::from_axis_angle(Axis::Z, 9);
    let s = Vec3::new(4, 5, 6);
    let u = t.with_rotation(r).with_scale(s);
    assert_eq!(u, Transform { translation: Vec3::new(1, 2, 3), rotation: r, scale: s });
    assert_eq!(t.with_rotation(r).translation, t.translation);
    assert_eq!(t.with_scale(s).rotation, t.rotation);
}
