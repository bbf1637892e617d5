//! Whether to fall back or to go for the ball.
use vstd::prelude::*;
use crate::behavior::movement::drive_towards::lemma_table_of_two;
use crate::math::{abs, div_trunc};
use crate::tables::linear_interpolate;
use crate::vector::{dot, norm, Point2};

verus! {

/// By how much further from the goal than the car the ball must be, where
/// the retreat is a panicky one, for the car to count as between the two.
pub const PANIC_FACTOR: i64 = 2_000_000;

/// The angle at the goal between ball and car from which the car counts as
/// off the line: a twelfth of a turn.
pub const DEFENDING_ANGLE: i64 = 523_599;

/// The distance from the goal within which the angle does not matter.
pub const IN_NET_DISTANCE: i64 = 1_200_000;

/// The lead in possession, in thousandths of a second, below which the enemy
/// counts as able to attack.
pub const ATTACK_POSSESSION: i64 = -2_000;

/// The angle within which the enemy counts as pointing the right way to
/// attack: a sixth of a turn.
pub const ATTACK_ANGLE: i64 = 1_047_198;

/// The distance of the ball from the goal up to which the enemy's angle is
/// judged generously.
pub const NEAR_SHOT_DISTANCE: i64 = 2_500_000;

/// The distance of the ball from the goal from which the enemy's angle is
/// judged strictly.
pub const FAR_SHOT_DISTANCE: i64 = 7_500_000;

/// The angle off the goal within which a shot from near counts: a quarter
/// of a turn.
pub const NEAR_SHOT_ANGLE: i64 = 1_570_796;

/// The angle off the goal within which a shot from afar counts: an eighth
/// of a turn.
pub const FAR_SHOT_ANGLE: i64 = 785_398;

/// The distance from the goal within which the car hits straight on.
pub const STRAIGHT_ON_DISTANCE: i64 = 2_500_000;

/// The behavior that defends the goal.
#[derive(Clone, Copy, PartialEq, Eq, Structural, Debug)]
pub struct Defense;

/// What the defense does next.
#[derive(Clone, Copy, PartialEq, Eq, Structural, Debug)]
pub enum DefenseMove {
    /// Fall back toward the goal.
    Retreat,
    /// Go for the ball without haste.
    TepidHit,
}

/// How a defensive hit is aimed.
#[derive(Clone, Copy, PartialEq, Eq, Structural, Debug)]
pub enum GroundedHitTargetAdjust {
    StraightOn,
    RoughAim,
}

/// How far `me_loc` is from the goal along the line from the goal to the
/// ball, rounded toward zero.
pub open spec fn distance_along(goal_loc: Point2, ball_loc: Point2, me_loc: Point2) -> int {
    div_trunc(
        dot(me_loc.minus_spec(goal_loc), ball_loc.minus_spec(goal_loc)),
        norm(ball_loc.minus_spec(goal_loc)),
    )
}

/// The car stands between the ball and its own goal: it is done panicking;
/// or the ball is further from the goal than the car is along the line from
/// the goal to the ball, by more than `PANIC_FACTOR` where the retreat is a
/// panicky one, and the car is within `DEFENDING_ANGLE` of that line as
/// seen from the goal or within `IN_NET_DISTANCE` of the goal. A ball in
/// the very mouth of the goal has the car between it and the goal.
pub open spec fn between(
    goal_loc: Point2,
    me_loc: Point2,
    ball_loc: Point2,
    finished_panicking: bool,
    panicky: bool,
    defending_angle: int,
) -> bool {
    let ball_dist = norm(ball_loc.minus_spec(goal_loc));
    let panic_factor = if panicky {
        PANIC_FACTOR as int
    } else {
        0
    };
    finished_panicking || ball_dist == 0 || (ball_dist > distance_along(goal_loc, ball_loc, me_loc)
        + panic_factor && (abs(defending_angle) < DEFENDING_ANGLE || norm(me_loc.minus_spec(goal_loc))
        < IN_NET_DISTANCE))
}

/// The angle off the line to the goal within which an enemy counts as able
/// to shoot, with the ball `dist` from the goal: the near one below
/// `FAR_SHOT_DISTANCE`, the far one from there on.
pub open spec fn shot_angle(dist: int) -> int {
    if dist < FAR_SHOT_DISTANCE {
        NEAR_SHOT_ANGLE as int
    } else {
        FAR_SHOT_ANGLE as int
    }
}

/// The enemy gets to the ball, has possession by more than `contestable`,
/// and one of its cars comes at the ball within `shot_angle` of the line
/// from the ball to the goal.
pub open spec fn can_shoot(
    intercepts: bool,
    possession: int,
    contestable: int,
    dist_ball_to_goal: int,
    angle_diffs: Seq<i64>,
) -> bool {
    intercepts && possession < -contestable && exists|i: int|
        0 <= i < angle_diffs.len() && abs(#[trigger] angle_diffs[i] as int) < shot_angle(dist_ball_to_goal)
}

/// The enemy has possession by more than two seconds, gets to the ball,
/// comes at the ball within `ATTACK_ANGLE` of the way to the goal, and
/// points within `ATTACK_ANGLE` of the ball.
pub open spec fn can_attack(possession: int, intercepts: bool, to_goal: int, to_ball: int) -> bool {
    possession < ATTACK_POSSESSION && intercepts && abs(to_goal) < ATTACK_ANGLE && abs(to_ball)
        < ATTACK_ANGLE
}

impl Defense {
    pub fn new() -> (behavior: Defense)
        ensures
            behavior == Defense,
    {
        Defense
    }

    pub fn name(&self) -> (name: &'static str)
        ensures
            name@ == "Defense"@,
    {
        "Defense"
    }

    /// Whether the car stands between the ball and its own goal. The caller
    /// says whether the car is done panicking and whether the retreat is a
    /// panicky one, and measures `defending_angle`, the angle at the goal
    /// between the ball and the car.
    pub fn is_between_ball_and_own_goal(
        goal_loc: Point2,
        me_loc: Point2,
        ball_loc: Point2,
        finished_panicking: bool,
        panicky: bool,
        defending_angle: i64,
    ) -> (r: bool)
        requires
            goal_loc.bounded(),
            me_loc.bounded(),
            ball_loc.bounded(),
        ensures
            r == between(goal_loc, me_loc, ball_loc, finished_panicking, panicky, defending_angle as int),
    {
        if finished_panicking {
            // Avoid an infinite loop.
            return true;
        }
        // Project our location on a line drawn from the goal to the ball.
        let goal_to_ball = ball_loc.minus(&goal_loc);
        let goal_to_me = me_loc.minus(&goal_loc);
        let ball_dist = goal_to_ball.norm();
        if ball_dist == 0 {
            return true;
        }
        let me_dist = goal_to_me.dot(&goal_to_ball) / ball_dist as i128;
        // If the play is rapidly moving towards the danger zone and we don't
        // have possession, bias towards panicking rather than trying to
        // intercept, this way at least we're between the ball and our goal.
        let panic_factor: i64 = if panicky {
            PANIC_FACTOR
        } else {
            0
        };
        if ball_dist as i128 <= me_dist + panic_factor as i128 {
            return false;
        }
        if defending_angle >= DEFENDING_ANGLE || defending_angle <= -DEFENDING_ANGLE {
            // If we're in net, chances are our angle of defense is fine
            // already.
            if goal_to_me.norm() >= IN_NET_DISTANCE {
                return false;
            }
        }
        true
    }

    /// Whether the enemy can shoot. The caller says whether the enemy gets
    /// to the ball, gives the possession and the lead from which it counts
    /// as settled, and the distance of the ball from the goal; and measures,
    /// for each enemy car, the angle between its line to the ball and the
    /// line from the ball to the goal.
    pub fn enemy_can_shoot(
        intercepts: bool,
        possession: i64,
        contestable: i64,
        dist_ball_to_goal: i64,
        angle_diffs: &Vec<i64>,
    ) -> (r: bool)
        requires
            contestable > i64::MIN,
        ensures
            r == can_shoot(
                intercepts,
                possession as int,
                contestable as int,
                dist_ball_to_goal as int,
                angle_diffs@,
            ),
    {
        if !intercepts {
            return false;
        }
        if possession >= -contestable {
            return false;
        }
        let distances: [i64; 2] = [NEAR_SHOT_DISTANCE, FAR_SHOT_DISTANCE];
        let angles: [i64; 2] = [NEAR_SHOT_ANGLE, FAR_SHOT_ANGLE];
        proof {
            lemma_table_of_two(distances@, dist_ball_to_goal as int);
        }
        let max_angle_diff = linear_interpolate(distances.as_slice(), angles.as_slice(), dist_ball_to_goal);
        let mut i: usize = 0;
        while i < angle_diffs.len()
            invariant
                i <= angle_diffs.len(),
                intercepts,
                possession < -contestable,
                max_angle_diff == shot_angle(dist_ball_to_goal as int),
                max_angle_diff > 0,
                forall|k: int| 0 <= k < i ==> abs(#[trigger] angle_diffs@[k] as int) >= max_angle_diff,
            decreases angle_diffs.len() - i,
        {
            let angle_diff = angle_diffs[i];
            if -max_angle_diff < angle_diff && angle_diff < max_angle_diff {
                assert(abs(angle_diffs@[i as int] as int) < shot_angle(dist_ball_to_goal as int));
                return true;
            }
            i = i + 1;
        }
        false
    }

    /// Whether the enemy can attack. The caller gives the possession in
    /// thousandths of a second and says whether the enemy gets to the ball;
    /// and measures `to_goal`, the angle between the enemy's line to the
    /// ball and the way to the goal, and `to_ball`, the angle between the
    /// enemy's heading and its line to the ball.
    pub fn enemy_can_attack(possession: i64, intercepts: bool, to_goal: i64, to_ball: i64) -> (r: bool)
        ensures
            r == can_attack(possession as int, intercepts, to_goal as int, to_ball as int),
    {
        if possession >= ATTACK_POSSESSION {
            return false;
        }
        if !intercepts {
            return false;
        }
        -ATTACK_ANGLE < to_goal && to_goal < ATTACK_ANGLE && -ATTACK_ANGLE < to_ball && to_ball
            < ATTACK_ANGLE
    }

    /// What the defense does next: it falls back unless the car is between
    /// ball and goal, no save is called for, and the enemy can neither shoot
    /// nor attack; then it goes for the ball.
    pub fn execute(&mut self, between: bool, save: bool, can_shoot: bool, can_attack: bool) -> (next: DefenseMove)
        ensures
            next == if between && !save && !can_shoot && !can_attack {
                DefenseMove::TepidHit
            } else {
                DefenseMove::Retreat
            },
    {
        // If we're not between the ball and our goal, get there.
        if !between {
            return DefenseMove::Retreat;
        }
        // If we need to make a save, do so.
        if save {
            return DefenseMove::Retreat;
        }
        if can_shoot {
            return DefenseMove::Retreat;
        }
        if can_attack {
            return DefenseMove::Retreat;
        }
        // If we're already in goal, try to take control of the ball.
        DefenseMove::TepidHit
    }
}

/// How a defensive hit is aimed: straight on from close to the goal and
/// from within a sixth of a turn of the line from the goal to the ball,
/// roughly otherwise.
pub fn defensive_hit(dist_defense: i64, defense_angle: i64) -> (adjust: GroundedHitTargetAdjust)
    ensures
        adjust == if dist_defense < STRAIGHT_ON_DISTANCE && abs(defense_angle as int) < ATTACK_ANGLE {
            GroundedHitTargetAdjust::StraightOn
        } else {
            GroundedHitTargetAdjust::RoughAim
        },
{
    if dist_defense < STRAIGHT_ON_DISTANCE && -ATTACK_ANGLE < defense_angle && defense_angle
        < ATTACK_ANGLE {
        GroundedHitTargetAdjust::StraightOn
    } else {
        GroundedHitTargetAdjust::RoughAim
    }
}

} // verus!
