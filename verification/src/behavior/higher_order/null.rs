//! The behavior that does nothing.
use vstd::prelude::*;
use crate::strategy::behavior::{Action, Behavior, PlayerInput};
use crate::strategy::context::Context;

verus! {

/// A behavior that never finishes and never acts: on every tick it yields
/// the neutral command.
#[derive(Clone, Copy, PartialEq, Eq, Structural, Debug)]
pub struct NullBehavior;

impl NullBehavior {
    pub fn new() -> (behavior: NullBehavior)
        ensures
            behavior == NullBehavior,
    {
        NullBehavior
    }
}

impl Behavior for NullBehavior {
    open spec fn emits(self, ctx: Context) -> Action<Self> {
        Action::Yield(PlayerInput::neutral())
    }

    open spec fn settles(self, ctx: Context, after: Self) -> bool {
        after == self
    }

    open spec fn label(self) -> Seq<char> {
        "NullBehavior"@
    }

    fn name(&self) -> (name: &'static str)
        ensures
            name@ == "NullBehavior"@,
    {
        "NullBehavior"
    }

    fn execute(&mut self, ctx: &Context) -> (action: Action<Self>) {
        Action::Yield(PlayerInput::default())
    }
}

} // verus!
