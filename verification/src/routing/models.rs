//! The states that plans start from and end in.
use vstd::prelude::*;
use crate::rl::OCTANE_NEUTRAL_Z;
use crate::strategy::behavior::PlayerInput;
use crate::vector::{Point2, Point3, Rotation2, Rotation3, Vector2, Vector3};

verus! {

/// Where a car is, how it is turned, how it moves and how much boost it has.
#[derive(Clone, Copy, PartialEq, Eq, Structural, Debug)]
pub struct CarState {
    pub loc: Point3,
    pub rot: Rotation3,
    pub vel: Vector3,
    /// Boost reserve, in thousandths of a boost point.
    pub boost: i64,
}

/// The state of a car on the ground, seen from above.
#[derive(Clone, Copy, PartialEq, Eq, Structural, Debug)]
pub struct CarState2D {
    pub loc: Point2,
    pub rot: Rotation2,
    pub vel: Vector2,
    /// Boost reserve, in thousandths of a boost point.
    pub boost: i64,
}

impl CarState {
    /// The state seen from above.
    pub open spec fn to_2d_spec(self) -> CarState2D {
        CarState2D {
            loc: self.loc.to_2d_spec(),
            rot: self.rot.to_2d_spec(),
            vel: self.vel.to_2d_spec(),
            boost: self.boost,
        }
    }

    /// The unit vector, in millionths, along which the car points in the
    /// ground plane.
    pub open spec fn forward_axis_2d_spec(self) -> Vector2 {
        self.rot.heading.axis_spec()
    }

    /// Place and velocity in the ground plane are within `COORD_LIMIT`, and
    /// the heading is a rotation.
    pub open spec fn bounded(self) -> bool {
        self.to_2d_spec().bounded()
    }

    /// Two states agree in the ground plane on place, velocity and boost:
    /// what a segment that follows another takes over from it.
    pub open spec fn continues(self, before: CarState) -> bool {
        &&& self.loc.to_2d_spec() == before.loc.to_2d_spec()
        &&& self.vel.to_2d_spec() == before.vel.to_2d_spec()
        &&& self.boost == before.boost
    }

    /// The state seen from above.
    pub fn to_2d(&self) -> (state: CarState2D)
        ensures
            state == self.to_2d_spec(),
    {
        CarState2D {
            loc: self.loc.to_2d(),
            rot: self.rot.to_2d(),
            vel: self.vel.to_2d(),
            boost: self.boost,
        }
    }

    /// The unit vector along which the car points in the ground plane.
    pub fn forward_axis_2d(&self) -> (axis: Vector2)
        ensures
            axis == self.forward_axis_2d_spec(),
    {
        self.rot.heading.axis()
    }

    /// Whether place, velocity and heading are within their limits.
    pub fn is_bounded(&self) -> (r: bool)
        ensures
            r == self.bounded(),
    {
        self.to_2d().is_bounded()
    }
}

impl CarState2D {
    /// The state of a car that stands level on the ground: at the height at
    /// which a car rests, without pitch or roll, and without vertical speed.
    pub open spec fn to_3d_spec(self) -> CarState {
        CarState {
            loc: Point3 { x: self.loc.x, y: self.loc.y, z: OCTANE_NEUTRAL_Z },
            rot: Rotation3::level_spec(self.rot),
            vel: Vector3 { x: self.vel.x, y: self.vel.y, z: 0 },
            boost: self.boost,
        }
    }

    /// Place and velocity are within `COORD_LIMIT`, and the heading is a
    /// rotation.
    pub open spec fn bounded(self) -> bool {
        self.loc.bounded() && self.vel.bounded() && self.rot.wf()
    }

    /// The state of a car that stands level on the ground.
    pub fn to_3d(&self) -> (state: CarState)
        ensures
            state == self.to_3d_spec(),
    {
        CarState {
            loc: Point3 { x: self.loc.x, y: self.loc.y, z: OCTANE_NEUTRAL_Z },
            rot: Rotation3::level(self.rot),
            vel: Vector3 { x: self.vel.x, y: self.vel.y, z: 0 },
            boost: self.boost,
        }
    }

    /// Whether place, velocity and heading are within their limits.
    pub fn is_bounded(&self) -> (r: bool)
        ensures
            r == self.bounded(),
    {
        self.loc.is_bounded() && self.vel.is_bounded() && self.rot.is_wf()
    }
}

/// A state on the ground loses nothing on the way to space and back.
pub proof fn lemma_round_trip(state: CarState2D)
    ensures
        state.to_3d_spec().to_2d_spec() == state,
        state.to_3d_spec().bounded() == state.bounded(),
        state.to_3d_spec().forward_axis_2d_spec() == state.rot.axis_spec(),
{
}

/// What one tick of running a segment results in.
#[derive(Clone, Copy, PartialEq, Eq, Structural, Debug)]
pub enum SegmentRunAction {
    /// The segment goes on; the command is this tick's output.
    Yield(PlayerInput),
    /// The segment has been driven to its end.
    Success,
    /// The segment cannot be driven any further.
    Failure,
}

} // verus!
