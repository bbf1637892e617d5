//! Getting the car back on its wheels on level ground.
use vstd::prelude::*;
use crate::behavior::higher_order::chain::Chain;
use crate::behavior::movement::drive_towards::{drive_input, drive_towards, lemma_table_of_two};
use crate::rl::AXIS_FULL;
use crate::strategy::behavior::{Action, PlayerInput, Priority};
use crate::strategy::context::{Context, PlayerInfo};
use crate::tables::linear_interpolate;
use crate::vector::{clamp, norm, Point2};

verus! {

/// Fifteen degrees, in microradians.
pub const FLAT_TOLERANCE: i64 = 261_799;

/// The behavior that brings the car back to level ground.
#[derive(Clone, Copy, PartialEq, Eq, Structural, Debug)]
pub struct GetToFlatGround;

/// The car touches the ground and neither pitches nor rolls by fifteen
/// degrees or more.
pub open spec fn flat(car: PlayerInfo) -> bool {
    &&& car.on_ground
    &&& -FLAT_TOLERANCE < car.rot.pitch < FLAT_TOLERANCE
    &&& -FLAT_TOLERANCE < car.rot.roll < FLAT_TOLERANCE
}

impl GetToFlatGround {
    pub fn new() -> (behavior: GetToFlatGround)
        ensures
            behavior == GetToFlatGround,
    {
        GetToFlatGround
    }

    /// Whether the car is on level ground.
    pub fn on_flat_ground(car: &PlayerInfo) -> (r: bool)
        ensures
            r == flat(*car),
    {
        car.on_ground && -FLAT_TOLERANCE < car.rot.pitch && car.rot.pitch < FLAT_TOLERANCE
            && -FLAT_TOLERANCE < car.rot.roll && car.rot.roll < FLAT_TOLERANCE
    }
}

/// The angle between nose and sky below which a car at rest counts as
/// pointing up: an eighth of a turn.
pub const NOSE_UP_ANGLE: i64 = 785_398;

/// The speed along its nose from which a car never counts as pointing up.
pub const NOSE_UP_SPEED: i64 = 2_000_000;

/// The height below which a skid off the wall is worth a jump.
pub const SKID_HEIGHT: i64 = 500_000;

/// The speed from which a skid off the wall is worth a jump.
pub const SKID_SPEED: i64 = 500_000;

/// How much of the velocity, in millionths, lies along the nose of a car
/// that does not skid.
pub const SKID_ALIGNMENT: i64 = 500_000;

/// The angle between roof and ground below which the car counts as lying
/// on its roof: a twentieth of a turn.
pub const UPSIDE_DOWN_ANGLE: i64 = 314_159;

/// The time of a fall, in microseconds, from which the car backs up before
/// it jumps off the wall.
pub const LONG_FALL_TIME: i64 = 2_000_000;

/// The height from which the car backs up before it jumps off the wall.
pub const HIGH_ON_WALL: i64 = 1_000_000;

/// The angle between nose and sky below which a car that moves along its
/// nose at `forward_speed` counts as pointing up: an eighth of a turn below
/// `NOSE_UP_SPEED`, nothing from there on.
pub open spec fn backup_cutoff(forward_speed: int) -> int {
    if forward_speed < NOSE_UP_SPEED {
        NOSE_UP_ANGLE as int
    } else {
        0
    }
}

/// The car on the wall should jump down rather than drive down: its nose
/// points at the sky, or it is low, fast and skidding.
pub open spec fn jump_down(forward_speed: int, nose_to_sky: int, height: int, speed: int, alignment: int) -> bool {
    nose_to_sky < backup_cutoff(forward_speed) || (height < SKID_HEIGHT && speed >= SKID_SPEED
        && alignment < SKID_ALIGNMENT)
}

/// Whether a car on the wall should jump down rather than drive down. The
/// caller gives the speed along the nose, the angle between nose and sky,
/// the height, the speed, and how much of the velocity lies along the nose,
/// in millionths.
pub fn should_jump_down_from_the_wall(
    forward_speed: i64,
    nose_to_sky: i64,
    height: i64,
    speed: i64,
    alignment: i64,
) -> (r: bool)
    ensures
        r == jump_down(forward_speed as int, nose_to_sky as int, height as int, speed as int, alignment as int),
{
    // Check if our nose is pointed towards the sky.
    let speeds: [i64; 2] = [0, NOSE_UP_SPEED];
    let angles: [i64; 2] = [NOSE_UP_ANGLE, 0];
    proof {
        lemma_table_of_two(speeds@, forward_speed as int);
    }
    let backup_cutoff = linear_interpolate(speeds.as_slice(), angles.as_slice(), forward_speed);
    if nose_to_sky < backup_cutoff {
        return true;
    }
    // Check if we're moving fast and skidding. If so, try to conserve
    // momentum.
    if height < SKID_HEIGHT && speed >= SKID_SPEED && alignment < SKID_ALIGNMENT {
        return true;
    }
    // Otherwise, don't jump.
    false
}

/// What a car that is not on level ground does next.
#[derive(Clone, Copy, PartialEq, Eq, Structural, Debug)]
pub enum Recovery {
    /// It is on level ground after all: nothing is left to do.
    Done,
    /// It is in the air: land.
    Land,
    /// It lies on its roof: jump.
    JumpUpsideDown,
    /// It is on the wall and outside the field, in a goal: drive out.
    Escape,
    /// It is on the wall, high up or with a long fall ahead: back up.
    BackUp,
    /// It is on the wall and low enough: jump off.
    JumpOff,
    /// It is on the wall: drive down, steering twice as hard where it is
    /// outside the field.
    DriveDown { steer_twice: bool },
}

/// One step of the chain that takes a car off the wall.
#[derive(Clone, Copy, PartialEq, Eq, Structural, Debug)]
pub enum DismountStep {
    /// Hold a command for a time.
    Hold(YieldAndMaybePanicBoost),
    /// Dodge toward a point.
    Dodge(Point2),
}

/// The behavior that a car off level ground gives way to.
pub enum Successor {
    /// Land on the wheels.
    Land,
    /// Hold a command for a time.
    Hold(YieldAndMaybePanicBoost),
    /// Go through the steps of a chain.
    Chain(Chain<DismountStep>),
}

/// The command that backs the car up: full reverse, and nothing else.
pub open spec fn back_up_input() -> PlayerInput {
    PlayerInput { throttle: (-AXIS_FULL) as i32, ..PlayerInput::neutral() }
}

/// How a car on its roof gets off it: a tenth of a second of jump.
pub open spec fn roof_jump() -> YieldAndMaybePanicBoost {
    YieldAndMaybePanicBoost {
        duration: 100_000,
        input: PlayerInput { jump: true, ..PlayerInput::neutral() },
        start: None,
    }
}

/// The steps of a jump off the wall: the three inputs of `jump_off`, then a
/// dodge toward `dodge` where there is a point to dodge to.
pub open spec fn dismount(inside_field: bool, dodge: Option<Point2>) -> Seq<DismountStep> {
    let steps = seq![
        DismountStep::Hold(jump_off(inside_field)[0]),
        DismountStep::Hold(jump_off(inside_field)[1]),
        DismountStep::Hold(jump_off(inside_field)[2]),
    ];
    match dodge {
        Some(target) => steps.push(DismountStep::Dodge(target)),
        None => steps,
    }
}

/// The command `drive` with twice the steering, kept within the range of
/// the axis.
pub open spec fn steered_twice(drive: PlayerInput) -> PlayerInput {
    PlayerInput { steer: clamp(2 * drive.steer, AXIS_FULL as int) as i32, ..drive }
}

/// `action` is what carries the move `next` out, where `drive` is the
/// command that drives at the point to make for:
/// - done: the behavior returns;
/// - land: it gives way to landing;
/// - on the roof: it gives way to a tenth of a second of jump;
/// - escape: it yields `drive`;
/// - back up: it yields full reverse and nothing else;
/// - jump off: it gives way to an idle chain of the steps of `dismount`;
/// - drive down: it yields `drive`, with twice the steering where asked.
pub open spec fn performs(
    action: Action<Successor>,
    next: Recovery,
    drive: PlayerInput,
    inside_field: bool,
    dodge: Option<Point2>,
) -> bool {
    match next {
        Recovery::Done => action is Return,
        Recovery::Land => action matches Action::TailCall(successor) && successor is Land,
        Recovery::JumpUpsideDown => action matches Action::TailCall(Successor::Hold(hold)) && hold
            == roof_jump(),
        Recovery::Escape => action == Action::<Successor>::Yield(drive),
        Recovery::BackUp => action == Action::<Successor>::Yield(back_up_input()),
        Recovery::JumpOff => action matches Action::TailCall(Successor::Chain(chain))
            && chain.priority == Priority::Idle && chain.children@ == dismount(inside_field, dodge),
        Recovery::DriveDown { steer_twice } => action == Action::<Successor>::Yield(
            if steer_twice {
                steered_twice(drive)
            } else {
                drive
            },
        ),
    }
}

/// The move of a car that is to jump down from a wall on which it is
/// `height` high and from which it would fall for `fall_time`.
pub open spec fn way_down(height: int, fall_time: int) -> Recovery {
    if fall_time >= LONG_FALL_TIME || height >= HIGH_ON_WALL {
        Recovery::BackUp
    } else {
        Recovery::JumpOff
    }
}

/// What the car is found to be doing on the wall.
#[derive(Clone, Copy, PartialEq, Eq, Structural, Debug)]
pub struct WallReading {
    /// The angle between the roof of the car and the ground below it.
    pub roof_to_ground: i64,
    /// Whether the car should jump down.
    pub jump_down: bool,
    /// Whether the car is inside the field.
    pub inside_field: bool,
    /// The time that the car would fall, in microseconds.
    pub fall_time: i64,
}

/// The next move of a car: see `Recovery`.
pub open spec fn recovery(car: PlayerInfo, wall: WallReading) -> Recovery {
    if flat(car) {
        Recovery::Done
    } else if !car.on_ground {
        Recovery::Land
    } else if wall.roof_to_ground < UPSIDE_DOWN_ANGLE {
        Recovery::JumpUpsideDown
    } else if wall.jump_down {
        if !wall.inside_field {
            Recovery::Escape
        } else {
            way_down(car.loc.z as int, wall.fall_time as int)
        }
    } else {
        Recovery::DriveDown { steer_twice: !wall.inside_field }
    }
}

impl GetToFlatGround {
    pub fn name(&self) -> (name: &'static str)
        ensures
            name@ == "GetToFlatGround"@,
    {
        "GetToFlatGround"
    }

    /// Decides the next move of a car, given what it is found to be doing on
    /// the wall.
    pub fn execute(&mut self, ctx: &Context, wall: &WallReading) -> (next: Recovery)
        ensures
            next == recovery(ctx.me, *wall),
    {
        if Self::on_flat_ground(ctx.me()) {
            return Recovery::Done;
        }
        let me = ctx.me();
        if !me.on_ground {
            return Recovery::Land;
        }
        if wall.roof_to_ground < UPSIDE_DOWN_ANGLE {
            // We're probably upside down under the ceiling of a goal
            return Recovery::JumpUpsideDown;
        }
        if wall.jump_down {
            if !wall.inside_field {
                return Recovery::Escape;
            }
            if wall.fall_time >= LONG_FALL_TIME || me.loc.z >= HIGH_ON_WALL {
                return Recovery::BackUp;
            }
            return Recovery::JumpOff;
        }
        Recovery::DriveDown { steer_twice: !wall.inside_field }
    }

    /// Carries the move `next` out. The caller measures `yaw_diff`, the
    /// angle from the car's heading to the point to make for (the middle of
    /// the field to escape, a point down the wall to drive down), gives the
    /// car's `speed`, says whether the car is inside the field, and gives
    /// the point to dodge to after a jump off the wall, if there is one.
    pub fn perform(next: Recovery, yaw_diff: i64, speed: i64, inside_field: bool, dodge: Option<Point2>) -> (action:
        Action<Successor>)
        ensures
            performs(action, next, drive_input(yaw_diff as int, speed as int), inside_field, dodge),
            action matches Action::Yield(input) ==> input.wf(),
    {
        match next {
            Recovery::Done => Action::Return,
            Recovery::Land => Action::TailCall(Successor::Land),
            Recovery::JumpUpsideDown => Action::TailCall(
                Successor::Hold(
                    YieldAndMaybePanicBoost::new(
                        100_000,
                        PlayerInput {
                            throttle: 0,
                            steer: 0,
                            pitch: 0,
                            yaw: 0,
                            roll: 0,
                            jump: true,
                            boost: false,
                            handbrake: false,
                        },
                    ),
                ),
            ),
            Recovery::Escape => Action::Yield(drive_towards(yaw_diff, speed)),
            Recovery::BackUp => back_up(),
            Recovery::JumpOff => jump_off_the_wall(inside_field, dodge),
            Recovery::DriveDown { steer_twice } => {
                let input = drive_towards(yaw_diff, speed);
                if steer_twice {
                    // If we're stuck in a goal, no need for subtlety, steer
                    // as sharply as possible.
                    let twice: i32 = if input.steer < -(AXIS_FULL / 2) {
                        -AXIS_FULL
                    } else if input.steer > AXIS_FULL / 2 {
                        AXIS_FULL
                    } else {
                        2 * input.steer
                    };
                    Action::Yield(
                        PlayerInput {
                            throttle: input.throttle,
                            steer: twice,
                            pitch: input.pitch,
                            yaw: input.yaw,
                            roll: input.roll,
                            jump: input.jump,
                            boost: input.boost,
                            handbrake: input.handbrake,
                        },
                    )
                } else {
                    Action::Yield(input)
                }
            },
        }
    }
}

/// Phase one of a jump down from the wall: back up, so that the car does
/// not jump into the sky.
fn back_up() -> (action: Action<Successor>)
    ensures
        action == Action::<Successor>::Yield(back_up_input()),
{
    Action::Yield(
        PlayerInput {
            throttle: -AXIS_FULL,
            steer: 0,
            pitch: 0,
            yaw: 0,
            roll: 0,
            jump: false,
            boost: false,
            handbrake: false,
        },
    )
}

/// Phase two of a jump down from the wall: jump. The car gives way to an
/// idle chain of the steps of the jump, with a dodge at the end where
/// there is a point to dodge to.
fn jump_off_the_wall(inside_field: bool, dodge: Option<Point2>) -> (action: Action<Successor>)
    ensures
        action matches Action::TailCall(Successor::Chain(chain)) && chain.priority == Priority::Idle
            && chain.children@ == dismount(inside_field, dodge),
{
    let holds = jump_off_steps(inside_field);
    let mut inputs: Vec<DismountStep> = Vec::new();
    inputs.push(DismountStep::Hold(holds[0]));
    inputs.push(DismountStep::Hold(holds[1]));
    inputs.push(DismountStep::Hold(holds[2]));
    // Maybe dodge.
    match dodge {
        Some(target_loc) => {
            inputs.push(DismountStep::Dodge(target_loc));
        },
        None => {},
    }
    assert(inputs@ =~= dismount(inside_field, dodge));
    Action::TailCall(Successor::Chain(Chain { priority: Priority::Idle, children: inputs }))
}

/// How a car that is to jump down from the wall goes about it. From
/// `height` high up, or with a long fall ahead, it backs up first: it
/// yields full reverse and nothing else. Else it jumps: it gives way to an
/// idle chain that holds nothing for a tenth of a second (with the
/// handbrake where the car is inside the field), then jump with the nose
/// pulled up for two tenths, then the nose pulled up for a tenth more, and
/// then dodges toward `dodge` where there is such a point.
pub fn jump_down_from_the_wall(height: i64, fall_time: i64, inside_field: bool, dodge: Option<Point2>) -> (action:
    Action<Successor>)
    ensures
        performs(
            action,
            way_down(height as int, fall_time as int),
            PlayerInput::neutral(),
            inside_field,
            dodge,
        ),
{
    if fall_time >= LONG_FALL_TIME || height >= HIGH_ON_WALL {
        back_up()
    } else {
        jump_off_the_wall(inside_field, dodge)
    }
}

/// The defensiveness, in thousandths, below which the car counts as out of
/// the game.
pub const OUT_OF_THE_GAME: i64 = 500;

/// The distance within which the ball counts as close.
pub const CLOSE_BALL: i64 = 3_000_000;

/// The angle between the enemy's hit and the way to our goal from which the
/// hit counts as a danger: a sixth of a turn.
pub const DANGER_ANGLE: i64 = 1_047_198;

/// How far behind the ball, as seen from the enemy goal, the car dodges to
/// when it goes on the attack.
pub const OFFENSE_DISTANCE: i64 = 1_000_000;

/// The point `OFFENSE_DISTANCE` behind the ball on the line from
/// `goal_point` through the ball; the ball itself where the two are one.
pub open spec fn behind_ball(ball_loc: Point2, goal_point: Point2) -> Point2 {
    let away = ball_loc.minus_spec(goal_point);
    if norm(away) == 0 {
        ball_loc
    } else {
        ball_loc.plus_spec(away.scaled_spec(OFFENSE_DISTANCE as int, norm(away)))
    }
}

/// Where a car that jumps off the wall dodges to: to its own back wall
/// where it is out of the game; nowhere where the ball will be close; to its
/// own back wall where the enemy can hit the ball toward our goal; else to
/// a point behind the ball, to attack.
pub open spec fn dodge_goal(
    defensiveness: int,
    own_back_wall_center: Point2,
    me_loc: Point2,
    ball_loc: Point2,
    danger: Option<i64>,
    goal_point: Point2,
) -> Option<Point2> {
    if defensiveness < OUT_OF_THE_GAME {
        Some(own_back_wall_center)
    } else if norm(ball_loc.minus_spec(me_loc)) < CLOSE_BALL {
        None
    } else if danger matches Some(d) && d >= DANGER_ANGLE {
        Some(own_back_wall_center)
    } else {
        Some(behind_ball(ball_loc, goal_point))
    }
}

/// Where a car that jumps off the wall dodges to. The caller gives the
/// car's defensiveness in thousandths, the center of its own back wall,
/// where the ball will be in two seconds, and the point of the enemy goal
/// nearest to that; and measures `danger`, the angle between the direction
/// in which the enemy will hit the ball and the way to our goal, where the
/// enemy will hit it at all.
pub fn dodge_target(
    defensiveness: i64,
    own_back_wall_center: Point2,
    me_loc: Point2,
    ball_loc: Point2,
    danger: Option<i64>,
    goal_point: Point2,
) -> (target: Option<Point2>)
    requires
        me_loc.bounded(),
        ball_loc.bounded(),
        goal_point.bounded(),
    ensures
        target == dodge_goal(
            defensiveness as int,
            own_back_wall_center,
            me_loc,
            ball_loc,
            danger,
            goal_point,
        ),
{
    if defensiveness < OUT_OF_THE_GAME {
        // We're probably way out of the game. Dodge towards our goal to get
        // back to defense quicker.
        return Some(own_back_wall_center);
    }
    if ball_loc.minus(&me_loc).norm() < CLOSE_BALL {
        return None;
    }
    match danger {
        Some(d) => {
            if d >= DANGER_ANGLE {
                return Some(own_back_wall_center);
            }
        },
        None => {},
    }
    let away = ball_loc.minus(&goal_point);
    let n = away.norm();
    if n == 0 {
        return Some(ball_loc);
    }
    Some(ball_loc.plus(&away.scaled(OFFENSE_DISTANCE, n)))
}

/// The inputs of a jump off the wall, in order: a tenth of a second of
/// nothing, with the handbrake where the car is inside the field, so that
/// the suspension settles; two tenths of jump with the nose pulled up; and
/// a tenth more of the nose pulled up.
pub open spec fn jump_off(inside_field: bool) -> Seq<YieldAndMaybePanicBoost> {
    seq![
        YieldAndMaybePanicBoost {
            duration: 100_000,
            input: PlayerInput { handbrake: inside_field, ..PlayerInput::neutral() },
            start: None,
        },
        YieldAndMaybePanicBoost {
            duration: 200_000,
            input: PlayerInput { pitch: AXIS_FULL, jump: true, ..PlayerInput::neutral() },
            start: None,
        },
        YieldAndMaybePanicBoost {
            duration: 100_000,
            input: PlayerInput { pitch: AXIS_FULL, ..PlayerInput::neutral() },
            start: None,
        },
    ]
}

/// The inputs of a jump off the wall, in order.
pub fn jump_off_steps(inside_field: bool) -> (steps: Vec<YieldAndMaybePanicBoost>)
    ensures
        steps@ == jump_off(inside_field),
{
    let mut inputs: Vec<YieldAndMaybePanicBoost> = Vec::new();
    // Do nothing briefly. In case we've just landed on the wall in the past
    // few frames, this lets the car's suspension stabilize a bit so we get
    // the full force coming off the wall.
    inputs.push(
        YieldAndMaybePanicBoost::new(
            100_000,
            PlayerInput {
                throttle: 0,
                steer: 0,
                pitch: 0,
                yaw: 0,
                roll: 0,
                jump: false,
                boost: false,
                handbrake: inside_field,
            },
        ),
    );
    // Press jump.
    inputs.push(
        YieldAndMaybePanicBoost::new(
            200_000,
            PlayerInput {
                throttle: 0,
                steer: 0,
                pitch: AXIS_FULL,
                yaw: 0,
                roll: 0,
                jump: true,
                boost: false,
                handbrake: false,
            },
        ),
    );
    // Release jump.
    inputs.push(
        YieldAndMaybePanicBoost::new(
            100_000,
            PlayerInput {
                throttle: 0,
                steer: 0,
                pitch: AXIS_FULL,
                yaw: 0,
                roll: 0,
                jump: false,
                boost: false,
                handbrake: false,
            },
        ),
    );
    assert(inputs@ =~= jump_off(inside_field));
    inputs
}

/// Yields a command until `duration` microseconds have passed on the game
/// clock since its first tick, then returns; the boost button of the command
/// is pressed on every tick on which the caller says so.
#[derive(Clone, Copy, PartialEq, Eq, Structural, Debug)]
pub struct YieldAndMaybePanicBoost {
    pub duration: i64,
    pub input: PlayerInput,
    /// The game clock at the first tick; nothing before the first tick.
    pub start: Option<i64>,
}

impl YieldAndMaybePanicBoost {
    /// The game clock at the behavior's first tick, where this tick is at
    /// the time `now`.
    pub open spec fn started(self, now: i64) -> i64 {
        match self.start {
            Some(start) => start,
            None => now,
        }
    }

    /// What a tick at the time `now` results in.
    pub open spec fn tick(self, now: i64, panic_boost: bool) -> Action<YieldAndMaybePanicBoost> {
        if now - self.started(now) < self.duration {
            Action::Yield(PlayerInput { boost: panic_boost, ..self.input })
        } else {
            Action::Return
        }
    }

    pub fn new(duration: i64, input: PlayerInput) -> (behavior: YieldAndMaybePanicBoost)
        ensures
            behavior == (YieldAndMaybePanicBoost { duration, input, start: None }),
    {
        YieldAndMaybePanicBoost { duration, input, start: None }
    }

    pub fn name(&self) -> (name: &'static str)
        ensures
            name@ == "GetToFlatGround"@,
    {
        "GetToFlatGround"
    }

    /// Runs the behavior for one tick. The caller says whether to boost in
    /// panic.
    pub fn execute(&mut self, ctx: &Context, panic_boost: bool) -> (action: Action<YieldAndMaybePanicBoost>)
        ensures
            action == old(self).tick(ctx.time, panic_boost),
            *final(self) == (YieldAndMaybePanicBoost {
                start: Some(old(self).started(ctx.time)),
                ..*old(self)
            }),
    {
        let now = ctx.time;
        let start = match self.start {
            Some(start) => start,
            None => now,
        };
        self.start = Some(start);
        if (now as i128) - (start as i128) < self.duration as i128 {
            Action::Yield(
                PlayerInput {
                    throttle: self.input.throttle,
                    steer: self.input.steer,
                    pitch: self.input.pitch,
                    yaw: self.input.yaw,
                    roll: self.input.roll,
                    jump: self.input.jump,
                    boost: panic_boost,
                    handbrake: self.input.handbrake,
                },
            )
        } else {
            Action::Return
        }
    }
}

} // verus!
