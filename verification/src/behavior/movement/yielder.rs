//! The behavior that holds one command for a given time.
use vstd::prelude::*;
use crate::strategy::behavior::{Action, Behavior, PlayerInput};
use crate::strategy::context::Context;

verus! {

/// Yields the same command on every tick until `duration` microseconds have
/// passed on the game clock since its first tick, then returns.
#[derive(Clone, Copy, PartialEq, Eq, Structural, Debug)]
pub struct Yielder {
    pub duration: i64,
    pub input: PlayerInput,
    /// The game clock at the first tick; nothing before the first tick.
    pub start: Option<i64>,
}

impl Yielder {
    /// The game clock at the behavior's first tick, where this tick is on
    /// `ctx`.
    pub open spec fn started(self, ctx: Context) -> i64 {
        match self.start {
            Some(start) => start,
            None => ctx.time,
        }
    }

    /// A yielder that has not started yet.
    pub fn new(duration: i64, input: PlayerInput) -> (yielder: Yielder)
        ensures
            yielder == (Yielder { duration, input, start: None }),
    {
        Yielder { duration, input, start: None }
    }
}

impl Behavior for Yielder {
    open spec fn emits(self, ctx: Context) -> Action<Self> {
        if ctx.time - self.started(ctx) < self.duration {
            Action::Yield(self.input)
        } else {
            Action::Return
        }
    }

    open spec fn settles(self, ctx: Context, after: Self) -> bool {
        after == (Yielder { start: Some(self.started(ctx)), ..self })
    }

    open spec fn label(self) -> Seq<char> {
        "Yielder"@
    }

    fn name(&self) -> (name: &'static str)
        ensures
            name@ == "Yielder"@,
    {
        "Yielder"
    }

    fn execute(&mut self, ctx: &Context) -> (action: Action<Self>) {
        let start = match self.start {
            Some(start) => start,
            None => ctx.time,
        };
        self.start = Some(start);
        if (ctx.time as i128) - (start as i128) < self.duration as i128 {
            Action::Yield(self.input)
        } else {
            Action::Return
        }
    }
}

/// A yielder yields from its first tick until its time is up and returns
/// from then on, whatever happened in between: on any later tick the answer
/// depends on the clock alone.
pub proof fn lemma_yielder_runs_its_time(yielder: Yielder, first: Context, later: Context, after: Yielder)
    requires
        yielder.start is None,
        yielder.settles(first, after),
    ensures
        yielder.duration > 0 ==> yielder.emits(first) == Action::<Yielder>::Yield(yielder.input),
        after.emits(later) == if later.time - first.time < yielder.duration {
            Action::<Yielder>::Yield(yielder.input)
        } else {
            Action::<Yielder>::Return
        },
        after.settles(later, after),
{
}

} // verus!
