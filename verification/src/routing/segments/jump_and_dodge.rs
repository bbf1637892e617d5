//! Jumping and dodging: a fixed sequence of inputs that ends in a push in a
//! chosen direction.
use vstd::prelude::*;
use crate::behavior::higher_order::chain::{chain_run, lemma_chain_run, Chain};
use crate::behavior::movement::yielder::Yielder;
use crate::math::div_trunc;
use crate::rl::{AXIS_FULL, COORD_LIMIT, MICRO, MILLI};
use crate::routing::models::{CarState, CarState2D, SegmentRunAction};
use crate::strategy::behavior::{Action, Behavior, PlayerInput, Priority};
use crate::strategy::context::Context;
use crate::strategy::runner::MAX_TAIL_CALLS;
use crate::vector::{clamp, lemma_apply_within, within, Point2, Rotation2, Vector2};

verus! {

/// How long the jump button is held, in microseconds: six physics ticks.
pub const JUMP_TIME: i64 = 50_000;

/// How long the car waits between the jump and the dodge: six physics ticks.
pub const WAIT_TIME: i64 = 50_000;

/// How long the dodge input is held: six physics ticks.
pub const DODGE_TIME: i64 = 50_000;

/// How long the car is in the air after the wait.
pub const FLOAT_TIME: i64 = 1_333_333;

/// The speed that a dodge adds. The true value is higher; this one is a
/// lower bound.
pub const DODGE_IMPULSE: i64 = 500_000;

/// The plan of a jump followed by a dodge in a direction given relative to
/// the car's heading.
#[derive(Clone, Copy, PartialEq, Eq, Structural, Debug)]
pub struct JumpAndDodge {
    pub start: CarState,
    pub direction: Rotation2,
}

/// The pitch axis of a dodge in `direction`: forward is nose down.
pub open spec fn dodge_pitch(direction: Rotation2) -> int {
    clamp(-div_trunc(direction.cos as int, MILLI as int), AXIS_FULL as int)
}

/// The yaw axis of a dodge in `direction`.
pub open spec fn dodge_yaw(direction: Rotation2) -> int {
    clamp(div_trunc(direction.sin as int, MILLI as int), AXIS_FULL as int)
}

/// The command that holds the jump button.
pub open spec fn jump_input() -> PlayerInput {
    PlayerInput { jump: true, ..PlayerInput::neutral() }
}

/// The command that dodges in `direction`.
pub open spec fn dodge_input(direction: Rotation2) -> PlayerInput {
    PlayerInput {
        pitch: dodge_pitch(direction) as i32,
        yaw: dodge_yaw(direction) as i32,
        jump: true,
        ..PlayerInput::neutral()
    }
}

/// The four phases of the maneuver: hold the jump button, let go, dodge, and
/// float.
pub open spec fn phases(direction: Rotation2) -> Seq<Yielder> {
    seq![
        Yielder { duration: JUMP_TIME, input: jump_input(), start: None },
        Yielder { duration: WAIT_TIME, input: PlayerInput::neutral(), start: None },
        Yielder { duration: DODGE_TIME, input: dodge_input(direction), start: None },
        Yielder { duration: (FLOAT_TIME - DODGE_TIME) as i64, input: PlayerInput::neutral(), start: None },
    ]
}

/// The time that the maneuver `plan` takes, in microseconds.
pub open spec fn duration_of(plan: JumpAndDodge) -> int {
    JumpAndDodge::duration_spec()
}

/// What the runner of a segment makes of the action of the behavior that it
/// runs.
pub open spec fn segment_action<B>(action: Action<B>) -> SegmentRunAction {
    match action {
        Action::Yield(input) => SegmentRunAction::Yield(input),
        Action::Return => SegmentRunAction::Success,
        _ => SegmentRunAction::Failure,
    }
}

impl JumpAndDodge {
    /// The start is within the limits and the direction is a rotation.
    pub open spec fn wf(self) -> bool {
        self.start.bounded() && self.direction.wf()
    }

    /// The push of the dodge: `DODGE_IMPULSE` along the direction of the
    /// dodge, which is given relative to the heading.
    pub open spec fn impulse_spec(self) -> Vector2 {
        self.direction.apply_spec(self.start.forward_axis_2d_spec()).scaled_spec(
            DODGE_IMPULSE as int,
            MICRO as int,
        )
    }

    /// The velocity after the dodge.
    pub open spec fn dodge_vel_spec(self) -> Vector2 {
        self.start.vel.to_2d_spec().plus_spec(self.impulse_spec())
    }

    /// Where the maneuver ends: the car moves at its first velocity while
    /// it jumps and waits, and at the velocity after the dodge while it
    /// floats.
    pub open spec fn end_loc_spec(self) -> Point2 {
        self.start.loc.to_2d_spec().plus_spec(
            self.start.vel.to_2d_spec().scaled_spec(JUMP_TIME + WAIT_TIME, MICRO as int),
        ).plus_spec(self.dodge_vel_spec().scaled_spec(FLOAT_TIME as int, MICRO as int))
    }

    /// The state in which the maneuver ends: on the ground, with the
    /// heading and the boost of the start.
    pub open spec fn end_spec(self) -> CarState {
        (CarState2D {
            loc: self.end_loc_spec(),
            rot: self.start.rot.to_2d_spec(),
            vel: self.dodge_vel_spec(),
            boost: self.start.boost,
        }).to_3d_spec()
    }

    /// The time the maneuver takes, in microseconds.
    pub open spec fn duration_spec() -> int {
        JUMP_TIME + WAIT_TIME + FLOAT_TIME
    }

    pub fn new(start: CarState, direction: Rotation2) -> (plan: JumpAndDodge)
        ensures
            plan == (JumpAndDodge { start, direction }),
    {
        JumpAndDodge { start, direction }
    }

    /// Whether the start is within the limits and the direction is a
    /// rotation.
    pub fn is_wf(&self) -> (r: bool)
        ensures
            r == self.wf(),
    {
        self.start.is_bounded() && self.direction.is_wf()
    }

    pub fn name(&self) -> (name: &'static str)
        ensures
            name@ == "JumpAndDodge"@,
    {
        "JumpAndDodge"
    }

    /// The state in which the maneuver starts.
    pub fn start(&self) -> (state: CarState)
        ensures
            state == self.start,
    {
        self.start
    }

    /// The state in which the maneuver ends.
    pub fn end(&self) -> (state: CarState)
        requires
            self.wf(),
        ensures
            state == self.end_spec(),
            within(state.vel.x as int, COORD_LIMIT + MICRO),
            within(state.vel.y as int, COORD_LIMIT + MICRO),
            within(state.loc.x as int, 3 * COORD_LIMIT),
            within(state.loc.y as int, 3 * COORD_LIMIT),
            state.boost == self.start.boost,
            state.rot.heading == self.start.rot.heading,
    {
        let forward = self.start.forward_axis_2d();
        proof {
            lemma_apply_within(self.direction, forward);
        }
        let impulse = self.direction.apply(&forward).scaled(DODGE_IMPULSE, MICRO);
        let vel = self.start.vel.to_2d();
        let dodge_vel = vel.plus(&impulse);
        let loc = self.start.loc.to_2d().plus(&vel.scaled(JUMP_TIME + WAIT_TIME, MICRO)).plus(
            &dodge_vel.scaled(FLOAT_TIME, MICRO),
        );
        (CarState2D { loc, rot: self.start.rot.to_2d(), vel: dodge_vel, boost: self.start.boost }).to_3d()
    }

    /// The time the maneuver takes, in microseconds: the same whatever the
    /// start and the direction.
    pub fn duration(&self) -> (d: i64)
        ensures
            d == duration_of(*self),
            d == 1_433_333,
    {
        JUMP_TIME + WAIT_TIME + FLOAT_TIME
    }

    /// What carries the maneuver out.
    pub fn run(&self) -> (runner: JumpAndDodgeRunner)
        ensures
            runner.behavior.priority == Priority::Idle,
            runner.behavior.children@ == phases(self.direction),
    {
        JumpAndDodgeRunner::new(*self)
    }
}

/// Carries a jump and dodge out, tick by tick.
pub struct JumpAndDodgeRunner {
    pub behavior: Chain<Yielder>,
}

/// `a` in thousandths, kept within one.
fn axis(a: i64) -> (r: i32)
    ensures
        r == clamp(a as int, AXIS_FULL as int),
{
    if a < -(AXIS_FULL as i64) {
        -AXIS_FULL
    } else if a > AXIS_FULL as i64 {
        AXIS_FULL
    } else {
        a as i32
    }
}

impl JumpAndDodgeRunner {
    pub fn new(plan: JumpAndDodge) -> (runner: JumpAndDodgeRunner)
        ensures
            runner.behavior.priority == Priority::Idle,
            runner.behavior.children@ == phases(plan.direction),
    {
        let mut steps: Vec<Yielder> = Vec::new();
        steps.push(
            Yielder::new(
                JUMP_TIME,
                PlayerInput {
                    throttle: 0,
                    steer: 0,
                    pitch: 0,
                    yaw: 0,
                    roll: 0,
                    jump: true,
                    boost: false,
                    handbrake: false,
                },
            ),
        );
        steps.push(Yielder::new(WAIT_TIME, PlayerInput::default()));
        steps.push(
            Yielder::new(
                DODGE_TIME,
                PlayerInput {
                    throttle: 0,
                    steer: 0,
                    pitch: axis(-(plan.direction.cos / MILLI)),
                    yaw: axis(plan.direction.sin / MILLI),
                    roll: 0,
                    jump: true,
                    boost: false,
                    handbrake: false,
                },
            ),
        );
        steps.push(Yielder::new(FLOAT_TIME - DODGE_TIME, PlayerInput::default()));
        assert(steps@ =~= phases(plan.direction));
        JumpAndDodgeRunner { behavior: Chain::new(Priority::Idle, steps) }
    }

    pub fn name(&self) -> (name: &'static str)
        ensures
            name@ == "JumpAndDodgeRunner"@,
    {
        "JumpAndDodgeRunner"
    }

    /// Runs the maneuver for one tick: the command of the phase that the
    /// game clock has reached, and success once the last phase is over.
    pub fn execute(&mut self, ctx: &Context) -> (action: SegmentRunAction)
        ensures
            action == segment_action(old(self).behavior.emits(*ctx)),
            old(self).behavior.settles(*ctx, final(self).behavior),
    {
        proof {
            lemma_chain_run(self.behavior.children@, *ctx, MAX_TAIL_CALLS as nat);
        }
        match self.behavior.execute(ctx) {
            Action::Yield(input) => SegmentRunAction::Yield(input),
            Action::TailCall(_) => SegmentRunAction::Failure,
            Action::Return => SegmentRunAction::Success,
            Action::Abort => SegmentRunAction::Failure,
        }
    }
}

/// The maneuver takes the same time whatever the start and the direction:
/// the jump, the wait and the float, which is 1 433 333 microseconds; and
/// that is how long its four phases take together.
pub proof fn lemma_duration_is_constant(a: JumpAndDodge, b: JumpAndDodge)
    ensures
        duration_of(a) == duration_of(b),
        duration_of(a) == JUMP_TIME + WAIT_TIME + FLOAT_TIME,
        duration_of(a) == 1_433_333,
        phases(a.direction).len() == 4,
        duration_of(a) == phases(a.direction)[0].duration + phases(a.direction)[1].duration + phases(
            a.direction,
        )[2].duration + phases(a.direction)[3].duration,
{
}

/// A runner that has not run yet holds the jump button on its first tick,
/// whenever that is, and the tick leaves all four phases in place.
pub proof fn lemma_first_tick_jumps(direction: Rotation2, ctx: Context)
    ensures
        chain_run(phases(direction), ctx, MAX_TAIL_CALLS as nat) == (
            phases(direction),
            Action::<Chain<Yielder>>::Yield(jump_input()),
        ),
{
    let p = phases(direction);
    assert(p[0].emits(ctx) == Action::<Yielder>::Yield(jump_input()));
}

} // verus!
