//! Driving at a point, naively.
use vstd::prelude::*;
use crate::math::{abs, div_trunc};
use crate::rl::{AXIS_FULL, CAR_NORMAL_SPEED, MILLI};
use crate::strategy::behavior::PlayerInput;
use crate::tables::{floor_index, linear_interpolate};
use crate::vector::{clamp, Point2};

verus! {

/// The angle off the target from which a slow car pulls the handbrake: an
/// eighth of a turn.
pub const SLOW_HANDBRAKE_ANGLE: i64 = 785_398;

/// The angle off the target from which a fast car pulls the handbrake: a
/// quarter of a turn.
pub const FAST_HANDBRAKE_ANGLE: i64 = 1_570_796;

/// The angle off the target from which a car at `speed` pulls the
/// handbrake: the slow one below the throttle's top speed, the fast one from
/// there on.
pub open spec fn handbrake_cutoff(speed: int) -> int {
    if speed < CAR_NORMAL_SPEED {
        SLOW_HANDBRAKE_ANGLE as int
    } else {
        FAST_HANDBRAKE_ANGLE as int
    }
}

/// The command that drives at a target that lies `yaw_diff` off the car's
/// heading: full throttle; steering twice as hard as the angle asks for,
/// two thousandths per milliradian, which is full lock from half a radian
/// on; and the handbrake where the target lies further off than the cutoff
/// for the car's speed.
pub open spec fn drive_input(yaw_diff: int, speed: int) -> PlayerInput {
    PlayerInput {
        throttle: AXIS_FULL,
        steer: clamp(2 * div_trunc(yaw_diff, MILLI as int), AXIS_FULL as int) as i32,
        handbrake: abs(yaw_diff) >= handbrake_cutoff(speed),
        ..PlayerInput::neutral()
    }
}

/// In a table of two entries, a lookup lands on the second from its key on
/// and on the first below it.
pub proof fn lemma_table_of_two(xs: Seq<i64>, x: int)
    requires
        xs.len() == 2,
    ensures
        floor_index(xs, x) == if x < xs[1] {
            0int
        } else {
            1int
        },
{
    if x >= xs[1] {
        let tail = xs.subrange(1, 2);
        assert(tail.len() == 1);
        assert(floor_index(tail, x) == 0);
    }
}

/// The command that drives at a target. The caller measures `yaw_diff`,
/// the angle from the car's heading to the target, and gives the car's
/// `speed`.
pub fn drive_towards(yaw_diff: i64, speed: i64) -> (input: PlayerInput)
    ensures
        input == drive_input(yaw_diff as int, speed as int),
        input.wf(),
{
    let twice = 2 * (yaw_diff / MILLI);
    let steer: i32 = if twice < -(AXIS_FULL as i64) {
        -AXIS_FULL
    } else if twice > AXIS_FULL as i64 {
        AXIS_FULL
    } else {
        twice as i32
    };
    let speeds: [i64; 2] = [0, CAR_NORMAL_SPEED];
    let angles: [i64; 2] = [SLOW_HANDBRAKE_ANGLE, FAST_HANDBRAKE_ANGLE];
    proof {
        lemma_table_of_two(speeds@, speed as int);
    }
    let handbrake_cutoff = linear_interpolate(speeds.as_slice(), angles.as_slice(), speed);
    let off = yaw_diff >= handbrake_cutoff || yaw_diff <= -handbrake_cutoff;
    PlayerInput {
        throttle: AXIS_FULL,
        steer,
        pitch: 0,
        yaw: 0,
        roll: 0,
        jump: false,
        boost: false,
        handbrake: off,
    }
}

/// A naive driving behavior that does not even know when it has arrived.
#[derive(Clone, Copy, PartialEq, Eq, Structural, Debug)]
pub struct DriveTowards {
    pub target_loc: Point2,
}

impl DriveTowards {
    pub fn new(target_loc: Point2) -> (behavior: DriveTowards)
        ensures
            behavior.target_loc == target_loc,
    {
        DriveTowards { target_loc }
    }

    pub fn name(&self) -> (name: &'static str)
        ensures
            name@ == "DriveTowards"@,
    {
        "DriveTowards"
    }
}

} // verus!
