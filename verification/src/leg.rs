//! Leg identities and the structural tags carried by the robot's segments.

use vstd::prelude::*;

verus! {

/// The side of the body a leg is mounted on.
#[derive(Clone, Copy, Debug, PartialEq, Eq, Structural)]
pub enum Side {
    Left,
    Right,
}

/// One of the six legs, named by side and by position along the body.
#[derive(Clone, Copy, Debug, PartialEq, Eq, Structural)]
pub enum LegIdentity {
    LeftFront,
    LeftMiddle,
    LeftRear,
    RightFront,
    RightMiddle,
    RightRear,
}

/// Number of legs of the robot.
pub const LEG_COUNT: usize = 6;

impl LegIdentity {
    /// The side this leg is mounted on.
    pub open spec fn side_spec(self) -> Side {
        match self {
            LegIdentity::LeftFront | LegIdentity::LeftMiddle | LegIdentity::LeftRear => Side::Left,
            LegIdentity::RightFront | LegIdentity::RightMiddle | LegIdentity::RightRear => {
                Side::Right
            },
        }
    }

    /// The side this leg is mounted on.
    pub fn side(&self) -> (s: Side)
        ensures
            s == self.side_spec(),
    {
        match self {
            LegIdentity::LeftFront | LegIdentity::LeftMiddle | LegIdentity::LeftRear => Side::Left,
            LegIdentity::RightFront | LegIdentity::RightMiddle | LegIdentity::RightRear => {
                Side::Right
            },
        }
    }

    /// Whether this leg is one of the three left legs.
    pub fn is_left(&self) -> (b: bool)
        ensures
            b == (self.side_spec() == Side::Left),
    {
        match self {
            LegIdentity::LeftFront | LegIdentity::LeftMiddle | LegIdentity::LeftRear => true,
            LegIdentity::RightFront | LegIdentity::RightMiddle | LegIdentity::RightRear => false,
        }
    }

    /// Whether this leg is one of the three right legs.
    pub fn is_right(&self) -> (b: bool)
        ensures
            b == (self.side_spec() == Side::Right),
    {
        !self.is_left()
    }
}

/// The kind of rigid body a node stands for.
#[derive(Clone, Copy, Debug, PartialEq, Eq, Structural)]
pub enum Part {
    MainBody,
    Coxa,
    Femur,
    Tibia,
}

/// Structural tag of a node: its part, and for a leg segment the leg it
/// belongs to. The main body belongs to no leg.
#[derive(Clone, Copy, Debug, PartialEq, Eq, Structural)]
pub enum Tag {
    MainBody,
    Coxa(LegIdentity),
    Femur(LegIdentity),
    Tibia(LegIdentity),
}

impl Tag {
    /// The part this tag names.
    pub open spec fn part_spec(self) -> Part {
        match self {
            Tag::MainBody => Part::MainBody,
            Tag::Coxa(_) => Part::Coxa,
            Tag::Femur(_) => Part::Femur,
            Tag::Tibia(_) => Part::Tibia,
        }
    }

    /// The leg this tag names, if it is a leg segment.
    pub open spec fn leg_spec(self) -> Option<LegIdentity> {
        match self {
            Tag::MainBody => None,
            Tag::Coxa(leg) => Some(leg),
            Tag::Femur(leg) => Some(leg),
            Tag::Tibia(leg) => Some(leg),
        }
    }

    /// The part this tag names.
    pub fn part(&self) -> (p: Part)
        ensures
            p == self.part_spec(),
    {
        match self {
            Tag::MainBody => Part::MainBody,
            Tag::Coxa(_) => Part::Coxa,
            Tag::Femur(_) => Part::Femur,
            Tag::Tibia(_) => Part::Tibia,
        }
    }

    /// The leg this tag names, if it is a leg segment.
    pub fn leg(&self) -> (l: Option<LegIdentity>)
        ensures
            l == self.leg_spec(),
    {
        match self {
            Tag::MainBody => None,
            Tag::Coxa(leg) => Some(*leg),
            Tag::Femur(leg) => Some(*leg),
            Tag::Tibia(leg) => Some(*leg),
        }
    }
}

} // verus!
