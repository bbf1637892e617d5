//! The contract between a behavior and whoever runs it.
use vstd::prelude::*;
use crate::rl::AXIS_FULL;
use crate::strategy::context::Context;

verus! {

/// The command that goes out at the end of a tick. The five axes are in
/// thousandths, from `-AXIS_FULL` to `AXIS_FULL`.
#[derive(Clone, Copy, PartialEq, Eq, Structural, Debug)]
pub struct PlayerInput {
    pub throttle: i32,
    pub steer: i32,
    pub pitch: i32,
    pub yaw: i32,
    pub roll: i32,
    pub jump: bool,
    pub boost: bool,
    pub handbrake: bool,
}

impl PlayerInput {
    /// The command that does nothing: every axis at rest, no button pressed.
    pub open spec fn neutral() -> PlayerInput {
        PlayerInput {
            throttle: 0,
            steer: 0,
            pitch: 0,
            yaw: 0,
            roll: 0,
            jump: false,
            boost: false,
            handbrake: false,
        }
    }

    /// The command with every axis brought within its range.
    pub open spec fn clamped_spec(self) -> PlayerInput {
        PlayerInput {
            throttle: within_axis(self.throttle),
            steer: within_axis(self.steer),
            pitch: within_axis(self.pitch),
            yaw: within_axis(self.yaw),
            roll: within_axis(self.roll),
            ..self
        }
    }

    /// The command with every axis brought within its range: an axis
    /// beyond full is taken as full.
    pub fn clamped(self) -> (input: PlayerInput)
        ensures
            input == self.clamped_spec(),
            input.wf(),
            self.wf() ==> input == self,
    {
        PlayerInput {
            throttle: axis(self.throttle),
            steer: axis(self.steer),
            pitch: axis(self.pitch),
            yaw: axis(self.yaw),
            roll: axis(self.roll),
            jump: self.jump,
            boost: self.boost,
            handbrake: self.handbrake,
        }
    }

    /// Every axis is within its range.
    pub open spec fn wf(self) -> bool {
        &&& -AXIS_FULL <= self.throttle <= AXIS_FULL
        &&& -AXIS_FULL <= self.steer <= AXIS_FULL
        &&& -AXIS_FULL <= self.pitch <= AXIS_FULL
        &&& -AXIS_FULL <= self.yaw <= AXIS_FULL
        &&& -AXIS_FULL <= self.roll <= AXIS_FULL
    }
}

/// The value of an axis, taken as full where it is beyond full.
pub open spec fn within_axis(a: i32) -> i32 {
    if a < -AXIS_FULL {
        (-AXIS_FULL) as i32
    } else if a > AXIS_FULL {
        AXIS_FULL
    } else {
        a
    }
}

fn axis(a: i32) -> (r: i32)
    ensures
        r == within_axis(a),
{
    if a < -AXIS_FULL {
        -AXIS_FULL
    } else if a > AXIS_FULL {
        AXIS_FULL
    } else {
        a
    }
}

impl Default for PlayerInput {
    fn default() -> (input: PlayerInput)
        ensures
            input == PlayerInput::neutral(),
    {
        PlayerInput {
            throttle: 0,
            steer: 0,
            pitch: 0,
            yaw: 0,
            roll: 0,
            jump: false,
            boost: false,
            handbrake: false,
        }
    }
}

/// How urgent a behavior is. A higher priority preempts a lower one where
/// both apply on the same tick.
#[derive(Clone, Copy, PartialEq, Eq, Structural, PartialOrd, Ord, Debug)]
pub enum Priority {
    Idle,
    Defense,
    Strike,
    Taunt,
    Force,
}

impl Priority {
    /// The place of the priority in the order, from 0 for `Idle` to 4 for
    /// `Force`.
    pub open spec fn rank_spec(self) -> int {
        match self {
            Priority::Idle => 0,
            Priority::Defense => 1,
            Priority::Strike => 2,
            Priority::Taunt => 3,
            Priority::Force => 4,
        }
    }

    /// The place of the priority in the order.
    pub fn rank(&self) -> (r: u8)
        ensures
            r == self.rank_spec(),
    {
        match self {
            Priority::Idle => 0,
            Priority::Defense => 1,
            Priority::Strike => 2,
            Priority::Taunt => 3,
            Priority::Force => 4,
        }
    }

    /// Whether a behavior of this priority preempts one of priority `other`.
    pub fn preempts(&self, other: &Priority) -> (r: bool)
        ensures
            r == (self.rank_spec() > other.rank_spec()),
    {
        self.rank() > other.rank()
    }

    /// The higher of two priorities.
    pub fn highest(a: Priority, b: Priority) -> (r: Priority)
        ensures
            r == if a.rank_spec() >= b.rank_spec() {
                a
            } else {
                b
            },
    {
        if a.rank() >= b.rank() {
            a
        } else {
            b
        }
    }
}

/// Two priorities of the same rank are the same priority, and of two
/// different ones exactly one preempts the other.
pub proof fn lemma_priority_order(a: Priority, b: Priority)
    ensures
        a.rank_spec() == b.rank_spec() <==> a == b,
        0 <= a.rank_spec() <= 4,
        Priority::Idle.rank_spec() < Priority::Defense.rank_spec() < Priority::Strike.rank_spec()
            < Priority::Taunt.rank_spec() < Priority::Force.rank_spec(),
{
}

/// What one tick of a behavior of type `B` results in.
pub enum Action<B> {
    /// The behavior goes on: the command is this tick's output, and the same
    /// behavior is run again on the next tick.
    Yield(PlayerInput),
    /// The behavior gives way to another, which is run at once, on the same
    /// tick.
    TailCall(B),
    /// The behavior is done and has succeeded.
    Return,
    /// The behavior has failed.
    Abort,
}

impl<B> Action<B> {
    /// The action of giving way to `behavior`.
    pub fn tail_call(behavior: B) -> (action: Action<B>)
        ensures
            action == Action::TailCall(behavior),
    {
        Action::TailCall(behavior)
    }
}

/// Something that drives the car, one tick at a time.
///
/// A behavior is a state machine. `emits` says which action a tick results
/// in, and `settles` in which states the tick may leave the behavior; both
/// depend on the behavior's state and on the snapshot alone.
pub trait Behavior: Sized {
    /// The action that a tick on `ctx` results in. A behavior that does not
    /// say is taken to result in some action, always the same one.
    open spec fn emits(self, ctx: Context) -> Action<Self> {
        arbitrary()
    }

    /// Whether a tick on `ctx` may leave the behavior in the state `after`.
    /// A behavior that does not say may be left in any state.
    open spec fn settles(self, ctx: Context, after: Self) -> bool {
        true
    }

    /// One line that identifies the behavior: its name, unless the behavior
    /// says otherwise.
    fn blurb(&self) -> (blurb: &'static str)
        default_ensures
            blurb@ == self.label(),
    {
        self.name()
    }

    /// A very short name of the behavior.
    fn name(&self) -> (name: &'static str)
        ensures
            name@ == self.label(),
    ;

    /// The name of the behavior, as a value. A behavior that does not say is
    /// taken to have some name, always the same one.
    open spec fn label(self) -> Seq<char> {
        arbitrary()
    }

    /// How urgent the behavior is: idle, unless the behavior says otherwise.
    fn priority(&self) -> (priority: Priority)
        default_ensures
            priority == Priority::Idle,
    {
        Priority::Idle
    }

    /// Runs the behavior for one tick.
    fn execute(&mut self, ctx: &Context) -> (action: Action<Self>)
        ensures
            action == old(self).emits(*ctx),
            old(self).settles(*ctx, *final(self)),
    ;
}

} // verus!
