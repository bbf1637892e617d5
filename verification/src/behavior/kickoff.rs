//! The kickoff: which way to go at the ball from where the car is set down.
use vstd::prelude::*;
use crate::math::abs;
use crate::vector::{Point2, Point3};

verus! {

/// How far off the center line the car stands at an off-center kickoff.
pub const OFF_CENTER_X: i64 = 256_000;

/// How close to `OFF_CENTER_X` the car must stand for the kickoff to count
/// as off-center.
pub const OFF_CENTER_TOLERANCE: i64 = 50_000;

/// How far off the center line the car stands at least at a diagonal
/// kickoff.
pub const DIAGONAL_X: i64 = 1_000_000;

/// The behavior that takes the kickoff.
#[derive(Clone, Copy, PartialEq, Eq, Structural, Debug)]
pub struct Kickoff;

/// How the car approaches the ball at a kickoff.
#[derive(Clone, Copy, PartialEq, Eq, Structural, Debug)]
pub enum KickoffApproach {
    /// Straight to the given point first, without dodging, then at the
    /// ball.
    Via(Point2),
    /// Straight at the ball, without dodging.
    Direct,
}

/// `-1` for a negative number, `1` for any other.
pub open spec fn signum(a: int) -> int {
    if a >= 0 {
        1
    } else {
        -1
    }
}

/// The car stands far off the center line.
pub open spec fn diagonal(car_x: int) -> bool {
    abs(car_x) >= DIAGONAL_X
}

/// The car stands a little off the center line.
pub open spec fn off_center(car_x: int) -> bool {
    abs(abs(car_x) - OFF_CENTER_X) < OFF_CENTER_TOLERANCE
}

/// The approach from `loc`: from a diagonal start via the point 600 wide
/// and 1000 deep on the car's side of the field, from an off-center start
/// via the point 100 wide and 2500 deep, from the center directly.
pub open spec fn approach_from(loc: Point3) -> KickoffApproach {
    if diagonal(loc.x as int) {
        KickoffApproach::Via(
            Point2 { x: (600_000 * signum(loc.x as int)) as i64, y: (1_000_000 * signum(loc.y as int)) as i64 },
        )
    } else if off_center(loc.x as int) {
        KickoffApproach::Via(
            Point2 { x: (100_000 * signum(loc.x as int)) as i64, y: (2_500_000 * signum(loc.y as int)) as i64 },
        )
    } else {
        KickoffApproach::Direct
    }
}

/// `-1` for a negative number, `1` for any other.
fn sign_of(a: i64) -> (s: i64)
    ensures
        s == signum(a as int),
{
    if a >= 0 {
        1
    } else {
        -1
    }
}

/// Whether the car stands a little off the center line.
pub fn is_off_center_kickoff(car_x: i64) -> (r: bool)
    ensures
        r == off_center(car_x as int),
{
    let wide: i128 = if car_x >= 0 {
        car_x as i128
    } else {
        -(car_x as i128)
    };
    let gap = wide - OFF_CENTER_X as i128;
    -(OFF_CENTER_TOLERANCE as i128) < gap && gap < OFF_CENTER_TOLERANCE as i128
}

/// Whether the car stands far off the center line.
pub fn is_diagonal_kickoff(car_x: i64) -> (r: bool)
    ensures
        r == diagonal(car_x as int),
{
    car_x >= DIAGONAL_X || car_x <= -DIAGONAL_X
}

impl Kickoff {
    pub fn new() -> (kickoff: Kickoff)
        ensures
            kickoff == Kickoff,
    {
        Kickoff
    }

    pub fn name(&self) -> (name: &'static str)
        ensures
            name@ == "Kickoff"@,
    {
        "Kickoff"
    }

    /// How to approach the ball from `loc`.
    pub fn approach(&self, loc: Point3) -> (approach: KickoffApproach)
        ensures
            approach == approach_from(loc),
    {
        if is_diagonal_kickoff(loc.x) {
            KickoffApproach::Via(Point2 { x: 600_000 * sign_of(loc.x), y: 1_000_000 * sign_of(loc.y) })
        } else if is_off_center_kickoff(loc.x) {
            KickoffApproach::Via(Point2 { x: 100_000 * sign_of(loc.x), y: 2_500_000 * sign_of(loc.y) })
        } else {
            KickoffApproach::Direct
        }
    }
}

} // verus!
