//! Getting out of a skid.
use vstd::prelude::*;
use crate::behavior::movement::get_to_flat_ground::{flat, GetToFlatGround};
use crate::math::{div_trunc, is_wrapped, normalize_angle, wrap_angle};
use crate::rl::{AXIS_FULL, MILLI};
use crate::strategy::behavior::{Action, PlayerInput};
use crate::strategy::context::Context;
use crate::vector::{clamp, Point2};

verus! {

/// The largest spin that the behavior reckons with, in microradians a
/// second.
pub const SPIN_LIMIT: i64 = 0x1_0000_0000;

/// Steers a skidding car at a target until the skid is over.
#[derive(Clone, Copy, PartialEq, Eq, Structural, Debug)]
pub struct SkidRecover {
    pub target_loc: Point2,
}

/// The steering out of a skid: toward where the target will be an eighth of
/// a second on, at the rate at which the car spins; one thousandth per
/// milliradian, and full lock from one radian on.
pub open spec fn skid_steer(me_yaw: int, target_yaw: int, spin: int) -> int {
    clamp(
        div_trunc(wrap_angle(target_yaw + div_trunc(spin, 8) - me_yaw), MILLI as int),
        AXIS_FULL as int,
    )
}

/// What one tick of getting out of a skid results in: off level ground the
/// behavior aborts; once the car no longer skids it returns; else it yields
/// full throttle and the steering out of the skid.
pub open spec fn skid_tick(
    on_flat_ground: bool,
    skidding: bool,
    me_yaw: int,
    target_yaw: int,
    spin: int,
) -> Action<SkidRecover> {
    if !on_flat_ground {
        Action::Abort
    } else if !skidding {
        Action::Return
    } else {
        Action::Yield(
            PlayerInput {
                throttle: AXIS_FULL,
                steer: skid_steer(me_yaw, target_yaw, spin) as i32,
                ..PlayerInput::neutral()
            },
        )
    }
}

impl SkidRecover {
    pub fn new(target_loc: Point2) -> (behavior: SkidRecover)
        ensures
            behavior.target_loc == target_loc,
    {
        SkidRecover { target_loc }
    }

    pub fn name(&self) -> (name: &'static str)
        ensures
            name@ == "SkidRecover"@,
    {
        "SkidRecover"
    }

    /// Runs the behavior for one tick. The caller says whether the car is
    /// `skidding`, and measures `me_yaw`, the car's yaw, `target_yaw`, the
    /// direction of the target as seen from the car, and `spin`, the rate at
    /// which the car turns about the vertical, in microradians a second.
    pub fn execute(
        &mut self,
        ctx: &Context,
        skidding: bool,
        me_yaw: i64,
        target_yaw: i64,
        spin: i64,
    ) -> (action: Action<SkidRecover>)
        requires
            is_wrapped(me_yaw as int),
            is_wrapped(target_yaw as int),
            -SPIN_LIMIT <= spin <= SPIN_LIMIT,
        ensures
            action == skid_tick(flat(ctx.me), skidding, me_yaw as int, target_yaw as int, spin as int),
            *final(self) == *old(self),
    {
        if !GetToFlatGround::on_flat_ground(ctx.me()) {
            return Action::Abort;
        }
        if !skidding {
            return Action::Return;
        }
        // Since we're skidding, aim towards where we will be a bit in the
        // future. Otherwise we'll overshoot.
        let future = target_yaw + spin / 8;
        let turn = normalize_angle(future - me_yaw) / MILLI;
        let steer: i32 = if turn < -(AXIS_FULL as i64) {
            -AXIS_FULL
        } else if turn > AXIS_FULL as i64 {
            AXIS_FULL
        } else {
            turn as i32
        };
        Action::Yield(
            PlayerInput {
                throttle: AXIS_FULL,
                steer,
                pitch: 0,
                yaw: 0,
                roll: 0,
                jump: false,
                boost: false,
                handbrake: false,
            },
        )
    }
}

} // verus!
