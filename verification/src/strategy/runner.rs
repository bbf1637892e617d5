//! The loop that runs a behavior for one tick and follows its tail calls.
use vstd::prelude::*;
use crate::strategy::behavior::{Action, Behavior};
use crate::strategy::context::Context;

verus! {

/// How many tail calls are followed within one tick, by `run_tick` and by a
/// `Chain` on behalf of each of its steps. Behaviors that tail-call each
/// other in a cycle would otherwise hold the tick forever.
pub const MAX_TAIL_CALLS: u32 = 32;

/// The behavior that gives the tick's result, where `fuel` tail calls may
/// still be followed: `behavior` itself, unless it tail-calls and fuel is
/// left, in which case it is the one that the behavior it gives way to
/// leads to.
pub open spec fn last_called<B: Behavior>(behavior: B, ctx: Context, fuel: nat) -> B
    decreases fuel,
{
    match behavior.emits(ctx) {
        Action::TailCall(next) => if fuel == 0 {
            behavior
        } else {
            last_called(next, ctx, (fuel - 1) as nat)
        },
        _ => behavior,
    }
}

/// The result of the tick, where `fuel` tail calls may still be followed:
/// the action of the behavior that `last_called` names. It is a tail call
/// only where the fuel ran out.
pub open spec fn outcome<B: Behavior>(behavior: B, ctx: Context, fuel: nat) -> Action<B> {
    last_called(behavior, ctx, fuel).emits(ctx)
}

/// The tail calls that were followed to reach the tick's result.
pub open spec fn calls_followed<B: Behavior>(behavior: B, ctx: Context, fuel: nat) -> nat
    decreases fuel,
{
    match behavior.emits(ctx) {
        Action::TailCall(next) => if fuel == 0 {
            0
        } else {
            1 + calls_followed(next, ctx, (fuel - 1) as nat)
        },
        _ => 0,
    }
}

/// A tick ends in a tail call only where all the fuel was used on tail
/// calls before it; and never more tail calls are followed than there is
/// fuel.
pub proof fn lemma_outcome<B: Behavior>(behavior: B, ctx: Context, fuel: nat)
    ensures
        calls_followed(behavior, ctx, fuel) <= fuel,
        outcome(behavior, ctx, fuel) is TailCall ==> calls_followed(behavior, ctx, fuel) == fuel,
    decreases fuel,
{
    match behavior.emits(ctx) {
        Action::TailCall(next) => {
            if fuel > 0 {
                lemma_outcome(next, ctx, (fuel - 1) as nat);
            }
        },
        _ => {},
    }
}

/// Runs `behavior` for one tick. Where it gives way to another behavior,
/// that one takes its place and is run at once, on the same snapshot, and so
/// on for at most `MAX_TAIL_CALLS` tail calls. The result is the action of
/// the last behavior run, which is left in `behavior`: a tail call comes
/// back only where the limit was reached, and is then not followed.
pub fn run_tick<B: Behavior>(behavior: &mut B, ctx: &Context) -> (action: Action<B>)
    ensures
        action == outcome(*old(behavior), *ctx, MAX_TAIL_CALLS as nat),
        last_called(*old(behavior), *ctx, MAX_TAIL_CALLS as nat).settles(*ctx, *final(behavior)),
{
    let mut fuel: u32 = MAX_TAIL_CALLS;
    loop
        invariant
            outcome(*behavior, *ctx, fuel as nat) == outcome(*old(behavior), *ctx, MAX_TAIL_CALLS as nat),
            last_called(*behavior, *ctx, fuel as nat) == last_called(
                *old(behavior),
                *ctx,
                MAX_TAIL_CALLS as nat,
            ),
        decreases fuel,
    {
        let action = behavior.execute(ctx);
        match action {
            Action::TailCall(next) => {
                if fuel == 0 {
                    return Action::TailCall(next);
                }
                *behavior = next;
                fuel = fuel - 1;
            },
            other => {
                return other;
            },
        }
    }
}

} // verus!
