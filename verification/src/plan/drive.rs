//! How long a straight drive takes, and whether to end it with a dodge.
use vstd::prelude::*;
use crate::car1d::{
    boost_spent, lemma_next_speed, lemma_travel_within_reach, reach, Car1D, Car1DModel,
};
use crate::math::{abs, is_wrapped, normalize_angle, wrap_angle};
use crate::rl::{AXIS_FULL, CAR_ALMOST_MAX_SPEED, MICRO, MILLI, PI};
use crate::routing::models::CarState;
use crate::routing::segments::jump_and_dodge::JumpAndDodge;
use crate::strategy::context::PlayerInfo;
use crate::tables::{SPEED_LIMIT, Tables, TablesModel};
use crate::vector::{norm, norm_3d, Point2, Rotation2};

verus! {

/// The step of the simulation, in microseconds: a sixtieth of a second.
pub const DT: u32 = 16_667;

/// How many steps the estimate simulates before it gives up: a minute.
pub const HORIZON: u32 = 3_600;

/// The time that passes before the car reacts: two physics ticks.
pub const LEAD_TIME: i64 = 16_667;

/// A rough estimate of how long a dodge on the ground takes, in
/// microseconds.
pub const GROUND_DODGE_TIME: i64 = 1_333_333;

/// A guess at the speed that a dodge adds.
pub const DODGE_SPEED_BOOST: i64 = 500_000;

/// The pitch from which the car counts as pointing up: fifteen degrees.
pub const MAX_DODGE_PITCH: i64 = 261_799;

/// How far off the target the car may point and still dodge toward it:
/// three degrees.
pub const MAX_DODGE_YAW_DIFF: i64 = 52_360;

/// The speed below which it is faster to accelerate than to dodge.
pub const MIN_DODGE_SPEED: i64 = 1_300_000;

/// The time lost to turning, in microseconds: three quarters of a second
/// for each radian between the car's yaw and the aim.
pub open spec fn steer_penalty_spec(yaw: int, desired_aim: int) -> int {
    abs(wrap_angle(yaw - desired_aim)) * 3 / 4
}

/// The car after `n` steps of full throttle and boost.
pub open spec fn boosted(car: Car1DModel, tables: TablesModel, n: nat) -> Car1DModel
    decreases n,
{
    if n == 0 {
        car
    } else {
        boosted(car, tables, (n - 1) as nat).step(tables, DT as int, AXIS_FULL as int, true)
    }
}

/// The number of steps of full throttle and boost after which the car has
/// covered `dist`, at least one and at most `left`; or nothing where `left`
/// steps do not cover it.
pub open spec fn steps_to_cover(car: Car1DModel, tables: TablesModel, dist: int, left: nat) -> Option<nat>
    decreases left,
{
    if left == 0 {
        None
    } else {
        let next = car.step(tables, DT as int, AXIS_FULL as int, true);
        if next.loc >= dist {
            Some(1)
        } else {
            match steps_to_cover(next, tables, dist, (left - 1) as nat) {
                Some(n) => Some(n + 1),
                None => None,
            }
        }
    }
}

/// The car that the estimate simulates: at the speed of `car`, with its
/// boost, at the start of time and distance.
pub open spec fn simulated(car: PlayerInfo) -> Car1DModel {
    Car1DModel { time: 0, loc: 0, vel: norm_3d(car.vel), boost: car.boost * MILLI }
}

/// The rough time of a drive to `target_loc`, in microseconds: the lead
/// time, the time lost to turning, and a sixtieth of a second for each step
/// that the simulation takes to cover the distance; or nothing where it is
/// not covered within `HORIZON` steps.
pub open spec fn rough_time(tables: TablesModel, car: PlayerInfo, target_loc: Point2, yaw: int, yaw_diff: int) -> Option<int> {
    let dist = norm(car.loc.to_2d_spec().minus_spec(target_loc));
    match steps_to_cover(simulated(car), tables, dist, HORIZON as nat) {
        Some(n) => Some(LEAD_TIME + steer_penalty_spec(yaw, yaw_diff) + n * DT),
        None => None,
    }
}

/// Whether a car in this state gains from ending a straight drive to a
/// target `target_dist` away with a dodge: it has next to no boost, is on
/// the ground, points neither up nor away from the target, is fast but not
/// yet at top speed, and the drive is long enough for a dodge.
pub open spec fn dodge_pays(car: PlayerInfo, target_dist: int, yaw_diff: int) -> bool {
    &&& car.boost <= 1
    &&& car.on_ground
    &&& car.rot.pitch < MAX_DODGE_PITCH
    &&& abs(yaw_diff) < MAX_DODGE_YAW_DIFF
    &&& norm_3d(car.vel) >= MIN_DODGE_SPEED
    &&& norm_3d(car.vel) < CAR_ALMOST_MAX_SPEED
    &&& target_dist * MICRO >= GROUND_DODGE_TIME * (norm_3d(car.vel) + DODGE_SPEED_BOOST)
}

/// The time lost to turning from `yaw` toward `desired_aim`.
pub fn steer_penalty(yaw: i64, desired_aim: i64) -> (penalty: i64)
    requires
        is_wrapped(yaw as int),
        is_wrapped(desired_aim as int),
    ensures
        penalty == steer_penalty_spec(yaw as int, desired_aim as int),
        0 <= penalty <= PI,
{
    let turn = normalize_angle(yaw - desired_aim);
    let turn = if turn >= 0 {
        turn
    } else {
        -turn
    };
    turn * 3 / 4
}

/// A rough estimate of the time that `car` needs to drive to `target_loc`
/// under full throttle and boost. The caller measures `yaw`, the car's yaw,
/// and `yaw_diff`, the angle from the car's heading to the target.
pub fn rough_time_drive_to_loc(
    tables: &Tables,
    car: &PlayerInfo,
    target_loc: Point2,
    yaw: i64,
    yaw_diff: i64,
) -> (time: Option<i64>)
    requires
        car.loc.to_2d_spec().bounded(),
        car.vel.bounded(),
        target_loc.bounded(),
        is_wrapped(yaw as int),
        is_wrapped(yaw_diff as int),
    ensures
        match time {
            Some(t) => rough_time(tables@, *car, target_loc, yaw as int, yaw_diff as int) == Some(t as int),
            None => rough_time(tables@, *car, target_loc, yaw as int, yaw_diff as int) is None,
        },
{
    let target_dist = car.loc.to_2d().minus(&target_loc).norm();
    let mut t: i64 = LEAD_TIME + steer_penalty(yaw, yaw_diff);
    let mut sim_car = Car1D::new(car.vel.norm()).with_boost(car.boost);
    let ghost start = sim_car@;
    let ghost base = t as int;
    let mut n: u32 = 0;
    while n < HORIZON
        invariant
            n <= HORIZON,
            t == base + n * DT,
            0 <= base <= LEAD_TIME + PI,
            base == LEAD_TIME + steer_penalty_spec(yaw as int, yaw_diff as int),
            start == simulated(*car),
            target_dist == norm(car.loc.to_2d_spec().minus_spec(target_loc)),
            sim_car@.time == n * DT,
            0 <= sim_car@.loc <= n * SPEED_LIMIT,
            0 <= sim_car@.vel <= SPEED_LIMIT,
            -0x400_0000_0000 <= sim_car@.boost <= 0x400_0000_0000,
            steps_to_cover(start, tables@, target_dist as int, HORIZON as nat) == match steps_to_cover(
                sim_car@,
                tables@,
                target_dist as int,
                (HORIZON - n) as nat,
            ) {
                Some(k) => Some(k + n as nat),
                None => None,
            },
        decreases HORIZON - n,
    {
        let ghost before = sim_car@;
        proof {
            lemma_stride(before.vel);
        }
        t = t + DT as i64;
        sim_car.step(tables, DT, AXIS_FULL, true);
        n = n + 1;
        proof {
            lemma_next_speed(before, tables@, DT as int, AXIS_FULL as int, before.burns_boost(true));
            lemma_travel_within_reach(before.vel, before.vel, DT as int);
            assert(sim_car@ == before.step(tables@, DT as int, AXIS_FULL as int, true));
            assert((n - 1) * DT + DT == n * DT) by (nonlinear_arith);
            assert((n - 1) * SPEED_LIMIT + SPEED_LIMIT == n * SPEED_LIMIT) by (nonlinear_arith);
            let left = (HORIZON - (n - 1)) as nat;
            assert(steps_to_cover(before, tables@, target_dist as int, left) == if sim_car@.loc
                >= target_dist {
                Some(1nat)
            } else {
                match steps_to_cover(sim_car@, tables@, target_dist as int, (left - 1) as nat) {
                    Some(k) => Some(k + 1),
                    None => None,
                }
            });
        }
        if sim_car.distance_traveled() >= target_dist {
            return Some(t);
        }
    }
    None
}

/// A car no faster than `SPEED_LIMIT` covers no more than `SPEED_LIMIT` in
/// one step, and burns 555 thousandths of a boost point.
pub proof fn lemma_stride(vel: int)
    requires
        0 <= vel <= SPEED_LIMIT,
    ensures
        0 <= reach(vel, DT as int) <= SPEED_LIMIT,
        boost_spent(DT as int) == 555,
{
    assert(crate::rl::BOOST_DEPLETION_DEN * MILLI == 3_000) by (nonlinear_arith);
    assert(DT * crate::rl::BOOST_DEPLETION_NUM == 1_666_700) by (nonlinear_arith);
    assert(SPEED_LIMIT * DT / (MICRO as int) <= SPEED_LIMIT) by (nonlinear_arith);
}

/// Whether to end a straight drive to `target_loc` with a dodge, and the
/// plan of that dodge: straight ahead, from the state of the car. The
/// caller measures `yaw_diff`, the angle from the car's heading to the
/// target.
pub fn get_route_dodge(car: &PlayerInfo, target_loc: Point2, yaw_diff: i64) -> (dodge: Option<JumpAndDodge>)
    requires
        car.loc.to_2d_spec().bounded(),
        car.vel.bounded(),
        target_loc.bounded(),
    ensures
        dodge == if dodge_pays(
            *car,
            norm(car.loc.to_2d_spec().minus_spec(target_loc)),
            yaw_diff as int,
        ) {
            Some(
                JumpAndDodge {
                    start: CarState {
                        loc: car.loc,
                        rot: car.rot,
                        vel: car.vel,
                        boost: (car.boost * MILLI) as i64,
                    },
                    direction: Rotation2::identity_spec(),
                },
            )
        } else {
            None
        },
{
    // A car with boost to burn is better off burning it.
    if car.boost > 1 {
        return None;
    }
    if !car.on_ground {
        return None;
    }
    if car.rot.pitch >= MAX_DODGE_PITCH {
        return None;
    }
    if yaw_diff >= MAX_DODGE_YAW_DIFF || yaw_diff <= -MAX_DODGE_YAW_DIFF {
        return None;
    }
    let speed = car.vel.norm();
    if speed < MIN_DODGE_SPEED {
        // It's faster to accelerate.
        return None;
    }
    if speed >= CAR_ALMOST_MAX_SPEED {
        // We can't get any faster.
        return None;
    }
    let target_dist = car.loc.to_2d().minus(&target_loc).norm();
    let dodge_vel = speed + DODGE_SPEED_BOOST;
    if (target_dist as i128) * (MICRO as i128) < (GROUND_DODGE_TIME as i128) * (dodge_vel as i128) {
        return None;
    }
    Some(
        JumpAndDodge::new(
            CarState { loc: car.loc, rot: car.rot, vel: car.vel, boost: car.boost as i64 * MILLI },
            Rotation2::identity(),
        ),
    )
}

} // verus!
