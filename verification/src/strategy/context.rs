//! The snapshot of the world that a behavior sees on one tick.
use vstd::prelude::*;
use crate::vector::{Point3, Rotation3, Vector3};

verus! {

/// One car as the snapshot shows it.
#[derive(Clone, Copy, PartialEq, Eq, Structural, Debug)]
pub struct PlayerInfo {
    pub loc: Point3,
    pub rot: Rotation3,
    pub vel: Vector3,
    /// Boost reserve in whole boost points, from 0 to 100.
    pub boost: i32,
    pub on_ground: bool,
}

/// What a behavior is given on each tick: the game clock and the car it
/// drives.
#[derive(Clone, Copy, PartialEq, Eq, Structural, Debug)]
pub struct Context {
    /// The game clock, in microseconds.
    pub time: i64,
    pub me: PlayerInfo,
}

impl Context {
    /// The car that the behavior drives.
    pub fn me(&self) -> (car: &PlayerInfo)
        ensures
            *car == self.me,
    {
        &self.me
    }
}

} // verus!
