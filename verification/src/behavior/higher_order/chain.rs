//! The behavior that runs a list of behaviors one after the other.
use vstd::prelude::*;
use crate::strategy::behavior::{Action, Behavior, Priority};
use crate::strategy::context::Context;
use crate::strategy::runner::MAX_TAIL_CALLS;

verus! {

/// Runs its steps in order. The first step is run until it returns; then it
/// is dropped and the next one is run, at once, on the same tick. The chain
/// returns when no step is left and aborts as soon as a step aborts. A step
/// that gives way to another behavior is replaced by it, which is run at
/// once; after `MAX_TAIL_CALLS` such replacements on one tick the chain
/// aborts.
pub struct Chain<B> {
    pub priority: Priority,
    pub children: Vec<B>,
}

/// Where one tick of a chain stops: the steps that are left when it stops,
/// the first of them being the step that was run last (in the state before
/// that run), and the action of the chain. No step is left where the chain
/// returns.
pub open spec fn chain_run<B: Behavior>(children: Seq<B>, ctx: Context, fuel: nat) -> (Seq<B>, Action<Chain<B>>)
    decreases fuel, children.len(),
{
    if children.len() == 0 {
        (children, Action::Return)
    } else {
        match children[0].emits(ctx) {
            Action::Yield(input) => (children, Action::Yield(input)),
            Action::Abort => (children, Action::Abort),
            Action::Return => chain_run(children.drop_first(), ctx, fuel),
            Action::TailCall(next) => if fuel == 0 {
                (children, Action::Abort)
            } else {
                chain_run(children.update(0, next), ctx, (fuel - 1) as nat)
            },
        }
    }
}

/// A chain never tail-calls. It returns exactly where no step is left. It
/// yields exactly where the step it stops on yields, and then the same
/// command. It aborts exactly where the step it stops on aborts, or gives
/// way to another when the limit is reached. It never has more steps left
/// than it started with; and what is left behind the step it stops on are
/// steps it started with, untouched and in order.
pub proof fn lemma_chain_run<B: Behavior>(children: Seq<B>, ctx: Context, fuel: nat)
    ensures
        !(chain_run(children, ctx, fuel).1 is TailCall),
        chain_run(children, ctx, fuel).0.len() <= children.len(),
        chain_run(children, ctx, fuel).1 is Return <==> chain_run(children, ctx, fuel).0.len() == 0,
        chain_run(children, ctx, fuel).0.len() > 0 ==> !(chain_run(children, ctx, fuel).0[0].emits(ctx) is Return),
        chain_run(children, ctx, fuel).1 matches Action::Yield(input) ==> chain_run(
            children,
            ctx,
            fuel,
        ).0.len() > 0 && chain_run(children, ctx, fuel).0[0].emits(ctx) == Action::<B>::Yield(input),
        chain_run(children, ctx, fuel).1 is Abort ==> chain_run(children, ctx, fuel).0.len() > 0 && (
        chain_run(children, ctx, fuel).0[0].emits(ctx) is Abort || chain_run(children, ctx, fuel).0[0].emits(
            ctx,
        ) is TailCall),
        ({
            let rest = chain_run(children, ctx, fuel).0;
            forall|i: int| 1 <= i < rest.len() ==> rest[i] == children[children.len() - rest.len() + i]
        }),
    decreases fuel, children.len(),
{
    if children.len() > 0 {
        match children[0].emits(ctx) {
            Action::Return => {
                lemma_chain_run(children.drop_first(), ctx, fuel);
            },
            Action::TailCall(next) => {
                if fuel > 0 {
                    lemma_chain_run(children.update(0, next), ctx, (fuel - 1) as nat);
                }
            },
            _ => {},
        }
    }
}

impl<B: Behavior> Chain<B> {
    /// A chain of the given steps, first to last.
    pub fn new(priority: Priority, children: Vec<B>) -> (chain: Chain<B>)
        ensures
            chain.priority == priority,
            chain.children@ == children@,
    {
        Chain { priority, children }
    }
}

impl<B: Behavior> Behavior for Chain<B> {
    open spec fn emits(self, ctx: Context) -> Action<Self> {
        chain_run(self.children@, ctx, MAX_TAIL_CALLS as nat).1
    }

    open spec fn settles(self, ctx: Context, after: Self) -> bool {
        let rest = chain_run(self.children@, ctx, MAX_TAIL_CALLS as nat).0;
        &&& after.priority == self.priority
        &&& after.children@.len() == rest.len()
        &&& rest.len() > 0 ==> rest[0].settles(ctx, after.children@[0])
        &&& forall|i: int| 1 <= i < rest.len() ==> after.children@[i] == rest[i]
    }

    open spec fn label(self) -> Seq<char> {
        "Chain"@
    }

    fn name(&self) -> (name: &'static str)
        ensures
            name@ == "Chain"@,
    {
        "Chain"
    }

    fn priority(&self) -> (priority: Priority)
        ensures
            priority == self.priority,
    {
        self.priority
    }

    fn execute(&mut self, ctx: &Context) -> (action: Action<Self>) {
        let mut fuel: u32 = MAX_TAIL_CALLS;
        loop
            invariant
                self.priority == old(self).priority,
                chain_run(self.children@, *ctx, fuel as nat) == chain_run(
                    old(self).children@,
                    *ctx,
                    MAX_TAIL_CALLS as nat,
                ),
            decreases fuel, self.children.len(),
        {
            if self.children.len() == 0 {
                return Action::Return;
            }
            let ghost before = self.children@;
            let action = self.children[0].execute(ctx);
            assert(self.children@.len() == before.len());
            assert(forall|i: int| 1 <= i < before.len() ==> self.children@[i] == before[i]);
            match action {
                Action::Yield(input) => {
                    return Action::Yield(input);
                },
                Action::Abort => {
                    return Action::Abort;
                },
                Action::Return => {
                    self.children.remove(0);
                    assert(self.children@ =~= before.drop_first());
                },
                Action::TailCall(next) => {
                    if fuel == 0 {
                        return Action::Abort;
                    }
                    self.children.set(0, next);
                    assert(self.children@ =~= before.update(0, next));
                    fuel = fuel - 1;
                },
            }
        }
    }
}

} // verus!
