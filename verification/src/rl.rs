//! Constants of the game, in the library's fixed-point units.
use vstd::prelude::*;

verus! {

/// Thousandths per whole.
pub const MILLI: i64 = 1_000;

/// Millionths per whole; microseconds per second.
pub const MICRO: i64 = 1_000_000;

/// Half a turn, in microradians, rounded down.
pub const PI: i64 = 3_141_592;

/// A full turn, in microradians, rounded down. It is odd, so the angles from
/// `-PI` to `PI` are exactly one turn's worth.
pub const TAU: i64 = 6_283_185;

/// The distance from the middle of the field to a side wall.
pub const FIELD_MAX_X: i64 = 4_096_000;

/// The distance from the middle of the field to a back wall.
pub const FIELD_MAX_Y: i64 = 5_120_000;

/// The height of the crossbar.
pub const CROSSBAR_Z: i64 = 642_775;

/// The distance of a goalpost from the middle of its goal.
pub const GOALPOST_X: i64 = 892_755;

/// The radius of the ball.
pub const BALL_RADIUS: i64 = 91_240;

/// The z coordinate of the car when it sits on the ground.
pub const OCTANE_NEUTRAL_Z: i64 = 17_010;

/// The frequency of the physics engine, in ticks per second.
pub const PHYSICS_TICK_FREQ: i64 = 120;

/// The time between two physics ticks, in microseconds, rounded down.
pub const PHYSICS_DT: i64 = 8_333;

/// The top speed a car reaches with the throttle alone.
pub const CAR_NORMAL_SPEED: i64 = 1_410_000;

/// The top speed a car reaches by boosting.
pub const CAR_MAX_SPEED: i64 = 2_299_980;

/// Just under top speed.
pub const CAR_ALMOST_MAX_SPEED: i64 = 2_289_980;

/// Boost is spent at `BOOST_DEPLETION_NUM / BOOST_DEPLETION_DEN` boost points
/// a second: a full tank in three seconds.
pub const BOOST_DEPLETION_NUM: i64 = 100;

/// See `BOOST_DEPLETION_NUM`.
pub const BOOST_DEPLETION_DEN: i64 = 3;

/// A control axis pushed all the way.
pub const AXIS_FULL: i32 = 1_000;

/// The largest magnitude of a coordinate or velocity component that the
/// geometry accepts.
pub const COORD_LIMIT: i64 = 0x8000_0000;

/// The largest magnitude of a vector's part that the arithmetic has room
/// for.
pub const WIDE_LIMIT: i64 = 0x100_0000_0000;

/// The largest magnitude of a factor by which a vector is stretched.
pub const SCALE_LIMIT: i64 = 0x20_0000;

} // verus!
