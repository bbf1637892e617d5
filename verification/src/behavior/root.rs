//! Sizing up the play: where the ball is headed, who gets to it first, and
//! whether to attack or to defend.
use vstd::prelude::*;
use crate::car1d::{lemma_next_speed, lemma_travel_within_reach, Car1D, Car1DModel};
use crate::plan::drive::{boosted, lemma_stride, simulated, DT, HORIZON};
use crate::rl::AXIS_FULL;
use crate::strategy::context::PlayerInfo;
use crate::tables::{Tables, TablesModel, SPEED_LIMIT};
use crate::vector::{norm, Point3, Vector3};

verus! {

/// How far up the field the boxes and corners begin.
pub const BOX_DEPTH: i64 = 2_500_000;

/// Half the width of a box.
pub const BOX_HALF_WIDTH: i64 = 1_800_000;

/// The speed toward our goal from which the ball counts as coming at us.
pub const BALL_RETREAT_SPEED: i64 = 500_000;

/// How far behind the ball the car may be and still count as retreating
/// with it.
pub const RETREAT_MARGIN: i64 = 500_000;

/// The speed toward our goal from which the car counts as retreating.
pub const CAR_RETREAT_SPEED: i64 = 100_000;

/// How long an evaluation stays good, in microseconds.
pub const EVAL_PERIOD: i64 = 1_000_000;

/// The angle off the enemy goal's center line within which a strike ends in
/// the enemy goal.
pub const ENEMY_GOAL_ANGLE: i64 = 172_631;

/// The angle within which a strike ends on the enemy back wall.
pub const ENEMY_BACK_WALL_ANGLE: i64 = 1_176_005;

/// The angle within which a strike ends on a side wall.
pub const MIDFIELD_ANGLE: i64 = 1_965_587;

/// The angle within which a strike ends on our own back wall.
pub const OWN_BACK_WALL_ANGLE: i64 = 2_968_962;

/// Where on the field something is. Our own goal is at the low end of y.
#[derive(Clone, Copy, PartialEq, Eq, Structural, Debug)]
pub enum Place {
    OwnBox,
    OwnCorner,
    Midfield,
    EnemyCorner,
    EnemyBox,
}

/// Which wall a strike drives the ball into.
#[derive(Clone, Copy, PartialEq, Eq, Structural, Debug)]
pub enum Wall {
    EnemyGoal,
    EnemyBackWall,
    Midfield,
    OwnBackWall,
    OwnGoal,
}

/// Who gets to the ball first.
#[derive(Clone, Copy, PartialEq, Eq, Structural, Debug)]
pub enum Possession {
    Me,
    Enemy,
    Unsure,
}

/// Whether the play is running against us.
#[derive(Clone, Copy, PartialEq, Eq, Structural, Debug)]
pub enum Situation {
    Retreat,
    Unsure,
}

/// What to do about it.
#[derive(Clone, Copy, PartialEq, Eq, Structural, Debug)]
pub enum Plan {
    Offense,
    Defense,
}

/// The place of `loc`: a box where it is deep in one end and near the
/// middle, a corner where it is deep and wide, midfield elsewhere.
pub open spec fn place_of(loc: Point3) -> Place {
    if loc.y > BOX_DEPTH && -BOX_HALF_WIDTH < loc.x < BOX_HALF_WIDTH {
        Place::EnemyBox
    } else if loc.y > BOX_DEPTH {
        Place::EnemyCorner
    } else if loc.y < -BOX_DEPTH && -BOX_HALF_WIDTH < loc.x < BOX_HALF_WIDTH {
        Place::OwnBox
    } else if loc.y < -BOX_DEPTH {
        Place::OwnCorner
    } else {
        Place::Midfield
    }
}

/// The ball is coming at us fast, and the car is either upfield of it or
/// barely downfield of it and heading home itself.
pub open spec fn retreating(ball_loc: Point3, ball_vel: Vector3, me_loc: Point3, me_vel: Vector3) -> bool {
    ball_vel.y < -BALL_RETREAT_SPEED && (me_loc.y > ball_loc.y || (me_loc.y > ball_loc.y
        - RETREAT_MARGIN && me_vel.y < -CAR_RETREAT_SPEED))
}

/// Who gets to the ball first, from the time each side needs: me where my
/// time is under three quarters of the enemy's, the enemy where it is 1.33
/// times the enemy's or more, and nobody for sure in between. An enemy who
/// needs no time at all is first.
pub open spec fn possession_of(me_time: int, enemy_time: int) -> Possession {
    if enemy_time == 0 {
        Possession::Enemy
    } else if me_time * 100 < 75 * enemy_time {
        Possession::Me
    } else if me_time * 100 < 133 * enemy_time {
        Possession::Unsure
    } else {
        Possession::Enemy
    }
}

/// The wall that lies at the angle `strike_angle` off the line from the
/// middle of the field to the enemy goal.
pub open spec fn wall_at(strike_angle: int) -> Wall {
    if strike_angle < ENEMY_GOAL_ANGLE {
        Wall::EnemyGoal
    } else if strike_angle < ENEMY_BACK_WALL_ANGLE {
        Wall::EnemyBackWall
    } else if strike_angle < MIDFIELD_ANGLE {
        Wall::Midfield
    } else if strike_angle < OWN_BACK_WALL_ANGLE {
        Wall::OwnBackWall
    } else {
        Wall::OwnGoal
    }
}

/// Defend where a strike would drive the ball into our own end; attack
/// otherwise.
pub open spec fn plan_for(push_wall: Wall) -> Plan {
    if push_wall == Wall::OwnGoal || push_wall == Wall::OwnBackWall {
        Plan::Defense
    } else {
        Plan::Offense
    }
}

/// Where on the field `loc` is.
pub fn eval_ball(loc: Point3) -> (place: Place)
    ensures
        place == place_of(loc),
{
    if loc.y > BOX_DEPTH && -BOX_HALF_WIDTH < loc.x && loc.x < BOX_HALF_WIDTH {
        Place::EnemyBox
    } else if loc.y > BOX_DEPTH {
        Place::EnemyCorner
    } else if loc.y < -BOX_DEPTH && -BOX_HALF_WIDTH < loc.x && loc.x < BOX_HALF_WIDTH {
        Place::OwnBox
    } else if loc.y < -BOX_DEPTH {
        Place::OwnCorner
    } else {
        Place::Midfield
    }
}

/// Whether the play is running against us.
pub fn eval_situation(ball_loc: Point3, ball_vel: Vector3, me_loc: Point3, me_vel: Vector3) -> (situation:
    Situation)
    ensures
        situation == if retreating(ball_loc, ball_vel, me_loc, me_vel) {
            Situation::Retreat
        } else {
            Situation::Unsure
        },
{
    if ball_vel.y < -BALL_RETREAT_SPEED {
        if me_loc.y > ball_loc.y {
            return Situation::Retreat;
        } else if me_loc.y as i128 > ball_loc.y as i128 - RETREAT_MARGIN as i128 && me_vel.y
            < -CAR_RETREAT_SPEED {
            return Situation::Retreat;
        }
    }
    Situation::Unsure
}

/// Who gets to the ball first, given the time that each side needs.
pub fn eval_possession(me_time: u64, enemy_time: u64) -> (possession: Possession)
    ensures
        possession == possession_of(me_time as int, enemy_time as int),
{
    if enemy_time == 0 {
        Possession::Enemy
    } else if (me_time as u128) * 100 < 75 * (enemy_time as u128) {
        Possession::Me
    } else if (me_time as u128) * 100 < 133 * (enemy_time as u128) {
        Possession::Unsure
    } else {
        Possession::Enemy
    }
}

/// The wall that a strike drives the ball into, given the angle of the
/// point where the line from the car through the ball meets the wall, off
/// the line from the middle of the field to the enemy goal.
pub fn eval_push_wall(strike_angle: i64) -> (wall: Wall)
    ensures
        wall == wall_at(strike_angle as int),
{
    if strike_angle < ENEMY_GOAL_ANGLE {
        Wall::EnemyGoal
    } else if strike_angle < ENEMY_BACK_WALL_ANGLE {
        Wall::EnemyBackWall
    } else if strike_angle < MIDFIELD_ANGLE {
        Wall::Midfield
    } else if strike_angle < OWN_BACK_WALL_ANGLE {
        Wall::OwnBackWall
    } else {
        Wall::OwnGoal
    }
}

/// Whether to attack or to defend. Of all that is known about the play, only
/// the wall that a strike would hit decides.
pub fn eval(situation: Situation, place: Place, possession: Possession, push_wall: Wall) -> (plan: Plan)
    ensures
        plan == plan_for(push_wall),
{
    match (situation, place, possession, push_wall) {
        (_, _, _, Wall::OwnGoal) => Plan::Defense,
        (_, _, _, Wall::OwnBackWall) => Plan::Defense,
        (_, _, _, _) => Plan::Offense,
    }
}

/// How far the ball at `ball` is from the car, in the ground plane.
pub open spec fn gap(car: PlayerInfo, ball: Point3) -> int {
    norm(car.loc.to_2d_spec().minus_spec(ball.to_2d_spec()))
}

/// After `k` steps of full throttle and boost, no more than `HORIZON` of
/// them, the car has covered the distance that then lies between where it
/// started and where the ball is after as many steps, which is
/// `path[k - 1]`.
pub open spec fn reached(tables: TablesModel, car: PlayerInfo, path: Seq<Point3>, k: int) -> bool {
    1 <= k <= path.len() && k <= HORIZON && boosted(simulated(car), tables, k as nat).loc >= gap(
        car,
        path[k - 1],
    )
}

/// The first step from `from` on at which the car has reached the ball, or
/// nothing where it never does along the path or within `HORIZON` steps.
pub open spec fn arrival_from(tables: TablesModel, car: PlayerInfo, path: Seq<Point3>, from: int) -> Option<int>
    decreases path.len() - from + 1,
{
    if from < 1 || from > path.len() || from > HORIZON {
        None
    } else if reached(tables, car, path, from) {
        Some(from)
    } else {
        arrival_from(tables, car, path, from + 1)
    }
}

/// The race to the ball: the time that each car needs to reach the ball,
/// in microseconds, and the place of the ball when the first of them gets
/// there; or nothing where one of them does not reach it along the path or
/// within `HORIZON` steps.
pub open spec fn blitz(tables: TablesModel, me: PlayerInfo, enemy: PlayerInfo, path: Seq<Point3>) -> Option<
    (int, int, Point3),
> {
    match (arrival_from(tables, me, path, 1), arrival_from(tables, enemy, path, 1)) {
        (Some(a), Some(b)) => Some(
            (
                a * DT,
                b * DT,
                path[if a <= b {
                    a - 1
                } else {
                    b - 1
                }],
            ),
        ),
        _ => None,
    }
}

/// The first step at which a car reaches the ball is one at which it has
/// reached it, and it has not reached it at any step before.
pub proof fn lemma_arrival(tables: TablesModel, car: PlayerInfo, path: Seq<Point3>, from: int)
    requires
        1 <= from,
    ensures
        arrival_from(tables, car, path, from) matches Some(k) ==> from <= k <= path.len() && reached(
            tables,
            car,
            path,
            k,
        ) && forall|j: int| from <= j < k ==> !reached(tables, car, path, j),
        arrival_from(tables, car, path, from) is None ==> forall|j: int|
            from <= j <= path.len() ==> !reached(tables, car, path, j),
    decreases path.len() - from + 1,
{
    if from <= path.len() && from <= HORIZON && !reached(tables, car, path, from) {
        lemma_arrival(tables, car, path, from + 1);
    }
}

/// Simulates a race to the ball: both cars drive at the ball under full
/// throttle and boost, in steps of a sixtieth of a second, and `path[k]` is
/// where the ball is after `k + 1` steps. Gives the time that each car
/// needs to reach the ball and the place of the ball when the first of them
/// gets there. The race is given up after `HORIZON` steps.
pub fn simulate_ball_blitz(tables: &Tables, me: &PlayerInfo, enemy: &PlayerInfo, path: &Vec<Point3>) -> (r:
    Option<(i64, i64, Point3)>)
    requires
        me.loc.to_2d_spec().bounded(),
        me.vel.bounded(),
        enemy.loc.to_2d_spec().bounded(),
        enemy.vel.bounded(),
        forall|i: int| 0 <= i < path.len() ==> (#[trigger] path[i]).to_2d_spec().bounded(),
    ensures
        match r {
            Some((me_time, enemy_time, ball)) => blitz(tables@, *me, *enemy, path@) == Some(
                (me_time as int, enemy_time as int, ball),
            ),
            None => blitz(tables@, *me, *enemy, path@) is None,
        },
{
    let mut sim_me = Car1D::new(me.vel.norm()).with_boost(me.boost);
    let mut sim_enemy = Car1D::new(enemy.vel.norm()).with_boost(enemy.boost);
    let mut me_time: Option<i64> = None;
    let mut enemy_time: Option<i64> = None;
    let mut ball_at_interception: Option<Point3> = None;
    let mut t: i64 = 0;
    let mut k: usize = 0;
    let ghost mut me_step: Option<int> = None;
    let ghost mut enemy_step: Option<int> = None;
    while k < path.len() && k < HORIZON as usize && (me_time.is_none() || enemy_time.is_none())
        invariant
            k <= path.len(),
            k <= HORIZON,
            t == k * DT,
            me.loc.to_2d_spec().bounded(),
            enemy.loc.to_2d_spec().bounded(),
            forall|i: int| 0 <= i < path.len() ==> (#[trigger] path[i]).to_2d_spec().bounded(),
            me_time is None ==> still_racing(sim_me@, tables@, *me, path@, k as int),
            enemy_time is None ==> still_racing(sim_enemy@, tables@, *enemy, path@, k as int),
            me_time is Some <==> me_step is Some,
            enemy_time is Some <==> enemy_step is Some,
            me_step matches Some(a) ==> 1 <= a <= k && me_time == Some((a * DT) as i64)
                && arrival_from(tables@, *me, path@, 1) == Some(a),
            enemy_step matches Some(b) ==> 1 <= b <= k && enemy_time == Some((b * DT) as i64)
                && arrival_from(tables@, *enemy, path@, 1) == Some(b),
            ball_at_interception is None <==> me_time is None && enemy_time is None,
            ball_at_interception matches Some(ball) ==> ball == path[first_of(me_step, enemy_step) - 1],
        decreases path.len() - k,
    {
        k = k + 1;
        t = t + DT as i64;
        let ball = path[k - 1];
        assert((k - 1) * DT + DT == k * DT) by (nonlinear_arith);
        assert(0 <= k * DT <= HORIZON * DT) by (nonlinear_arith)
            requires
                0 <= k <= HORIZON,
        ;
        if me_time.is_none() {
            let arrived = advance(&mut sim_me, tables, me, path, k, ball);
            if arrived {
                me_time = Some(t);
                proof {
                    me_step = Some(k as int);
                }
                if ball_at_interception.is_none() {
                    ball_at_interception = Some(ball);
                }
            }
        }
        if enemy_time.is_none() {
            let arrived = advance(&mut sim_enemy, tables, enemy, path, k, ball);
            if arrived {
                enemy_time = Some(t);
                proof {
                    enemy_step = Some(k as int);
                }
                if ball_at_interception.is_none() {
                    ball_at_interception = Some(ball);
                }
            }
        }
    }
    proof {
        if me_time is None {
            lemma_arrival(tables@, *me, path@, k + 1);
        }
        if enemy_time is None {
            lemma_arrival(tables@, *enemy, path@, k + 1);
        }
    }
    match (me_time, enemy_time, ball_at_interception) {
        (Some(a), Some(b), Some(ball)) => Some((a, b, ball)),
        _ => None,
    }
}

/// The step at which the first car arrived, given the step of each car
/// that has arrived.
pub open spec fn first_of(me_step: Option<int>, enemy_step: Option<int>) -> int {
    match (me_step, enemy_step) {
        (Some(a), Some(b)) => if a <= b {
            a
        } else {
            b
        },
        (Some(a), None) => a,
        (None, Some(b)) => b,
        (None, None) => 0,
    }
}

/// A car that has not reached the ball in `k` steps: it is where `k` steps
/// take it, within the limits that leave room for another step, and the
/// first step at which it reaches the ball, if any, is a later one.
pub open spec fn still_racing(sim: Car1DModel, tables: TablesModel, car: PlayerInfo, path: Seq<Point3>, k: int) -> bool {
    &&& sim == boosted(simulated(car), tables, k as nat)
    &&& sim.time == k * DT
    &&& 0 <= sim.loc <= k * SPEED_LIMIT
    &&& 0 <= sim.vel <= SPEED_LIMIT
    &&& -0x400_0000_0000 <= sim.boost <= 0x400_0000_0000
    &&& arrival_from(tables, car, path, 1) == arrival_from(tables, car, path, k + 1)
}

/// Takes a car of the race one step further, its `k`th, and says whether it
/// has reached the ball, which is at `ball` after that step.
fn advance(sim: &mut Car1D, tables: &Tables, car: &PlayerInfo, path: &Vec<Point3>, k: usize, ball: Point3) -> (arrived:
    bool)
    requires
        1 <= k <= path.len(),
        k <= HORIZON,
        ball == path[k - 1],
        car.loc.to_2d_spec().bounded(),
        ball.to_2d_spec().bounded(),
        still_racing(old(sim)@, tables@, *car, path@, k - 1),
    ensures
        arrived ==> arrival_from(tables@, *car, path@, 1) == Some(k as int),
        !arrived ==> still_racing(final(sim)@, tables@, *car, path@, k as int),
{
    let ghost before = sim@;
    proof {
        lemma_stride(before.vel);
        assert((k - 1) * SPEED_LIMIT + SPEED_LIMIT == k * SPEED_LIMIT) by (nonlinear_arith);
        assert((k - 1) * DT + DT == k * DT) by (nonlinear_arith);
        assert((k - 1) * DT <= HORIZON * DT) by (nonlinear_arith)
            requires
                k - 1 <= HORIZON,
        ;
        assert((k - 1) * SPEED_LIMIT <= HORIZON * SPEED_LIMIT) by (nonlinear_arith)
            requires
                0 <= k - 1 <= HORIZON,
        ;
    }
    sim.step(tables, DT, AXIS_FULL, true);
    proof {
        lemma_next_speed(before, tables@, DT as int, AXIS_FULL as int, before.burns_boost(true));
        lemma_travel_within_reach(before.vel, before.vel, DT as int);
        assert(sim@ == boosted(simulated(*car), tables@, k as nat));
    }
    let dist = car.loc.to_2d().minus(&ball.to_2d()).norm();
    sim.distance_traveled() >= dist
}

/// The behavior at the root: it sizes up the play and hands over to offense
/// or defense.
#[derive(Clone, Copy, PartialEq, Eq, Structural, Debug)]
pub struct RootBehavior {
    /// The game clock at the last evaluation.
    pub last_eval: Option<i64>,
}

impl RootBehavior {
    pub fn new() -> (root: RootBehavior)
        ensures
            root.last_eval is None,
    {
        RootBehavior { last_eval: None }
    }

    /// An evaluation is due at the time `now`: there was none yet, or the
    /// last one was `EVAL_PERIOD` ago or longer.
    pub open spec fn due(self, now: int) -> bool {
        match self.last_eval {
            Some(t) => now >= t + EVAL_PERIOD,
            None => true,
        }
    }

    pub fn name(&self) -> (name: &'static str)
        ensures
            name@ == "RootBehavior"@,
    {
        "RootBehavior"
    }

    /// Between two ticks: where an evaluation is due, makes one and gives
    /// the plan to interrupt with; else gives nothing and leaves the
    /// behavior as it is.
    pub fn capture(
        &mut self,
        now: i64,
        situation: Situation,
        place: Place,
        possession: Possession,
        push_wall: Wall,
    ) -> (plan: Option<Plan>)
        ensures
            old(self).due(now as int) ==> plan == Some(plan_for(push_wall)) && final(self).last_eval
                == Some(now),
            !old(self).due(now as int) ==> plan is None && *final(self) == *old(self),
    {
        match self.last_eval {
            // If we have already checked recently, bail.
            Some(t) => {
                if (now as i128) < t as i128 + EVAL_PERIOD as i128 {
                    return None;
                }
            },
            // If we haven't, continue.
            None => {},
        }
        self.last_eval = Some(now);
        Some(eval(situation, place, possession, push_wall))
    }

    /// On a tick: makes an evaluation and gives the plan to hand over to.
    pub fn execute(
        &mut self,
        now: i64,
        situation: Situation,
        place: Place,
        possession: Possession,
        push_wall: Wall,
    ) -> (plan: Plan)
        ensures
            plan == plan_for(push_wall),
            final(self).last_eval == Some(now),
    {
        self.last_eval = Some(now);
        eval(situation, place, possession, push_wall)
    }
}

} // verus!
