//! A deferred-init cell inside a guarded cell: what holds of every
//! interleaving of steps on the pair.
//!
//! A constructor takes time. Between the compare-and-set that claims it and
//! the store of what it built, the inner cell holds no value yet, and other
//! contexts go on taking steps. On a bare deferred-init cell a read can fall
//! into that gap. Behind a lock it cannot: the inner cell is reached only
//! through the handle, and the handle's holder is the one who builds.

use vstd::prelude::*;
use crate::sync::flag::Flag;
use crate::sync::history::lemma_step_keeps_consistent;
use crate::sync::history::LockState;
use crate::sync::history::Step;

verus! {

/// How far the inner cell is.
pub enum Phase {
    /// The init flag is clear: the constructor has not been claimed.
    Pending,
    /// The init flag is set and the constructor is running in `context`; no
    /// value is stored yet.
    Building { context: nat },
    /// The value is stored.
    Ready,
}

/// One step of one context on the pair.
pub enum CellStep {
    /// A step on the lock: an attempt, or the destruction of a handle.
    Lock { step: Step },
    /// The compare-and-set of `LazyLock::try_init`, at the start of a
    /// dereference.
    Claim { context: nat },
    /// The store of what the constructor built, which ends a `try_init` that
    /// won.
    Finish { context: nat },
    /// The read of the value, at the end of a dereference.
    Observe { context: nat },
}

/// The pair as a run of steps leaves it: the lock, the inner cell, and the
/// contexts whose `try_init` has made its claim under the handle that they
/// hold.
pub struct CellState {
    pub lock: LockState,
    pub phase: Phase,
    pub claimed: Set<nat>,
}

impl CellState {
    /// A pair as `Mutex::new(LazyLock::new(..))` makes it.
    pub open spec fn fresh() -> CellState {
        CellState { lock: LockState::fresh(), phase: Phase::Pending, claimed: Set::empty() }
    }

    /// Whether the init flag is set.
    pub open spec fn inited(self) -> bool {
        !(self.phase is Pending)
    }

    /// Whether `context` is in the middle of the constructor.
    pub open spec fn builds(self, context: nat) -> bool {
        self.phase == (Phase::Building { context })
    }

    /// Whether `step` can happen here.
    ///
    /// The lock admits what `LockState` admits; but a context destroys its
    /// handle only after its dereference has returned, so not while it
    /// builds. The inner cell is the lock's payload, so only a context that
    /// holds a handle takes a step on it. Within a dereference the claim
    /// comes first, the store follows if the claim won, and the read comes
    /// last.
    pub open spec fn admits(self, step: CellStep) -> bool {
        match step {
            CellStep::Lock { step } => self.lock.admits(step) && (step matches Step::Release {
                context,
            } ==> !self.builds(context)),
            CellStep::Claim { context } => self.lock.handles.contains(context) && !self.builds(
                context,
            ),
            CellStep::Finish { context } => self.builds(context),
            CellStep::Observe { context } => self.lock.handles.contains(context)
                && self.claimed.contains(context) && !self.builds(context),
        }
    }

    /// The pair after `step`.
    pub open spec fn next(self, step: CellStep) -> CellState {
        match step {
            CellStep::Lock { step } => CellState {
                lock: self.lock.next(step),
                claimed: match step {
                    Step::TryAcquire { context } => self.claimed,
                    Step::Release { context } => self.claimed.remove(context),
                },
                ..self
            },
            CellStep::Claim { context } => CellState {
                phase: if Flag::cas_outcome(self.inited(), false) is Ok {
                    Phase::Building { context }
                } else {
                    self.phase
                },
                claimed: self.claimed.insert(context),
                ..self
            },
            CellStep::Finish { context } => CellState { phase: Phase::Ready, ..self },
            CellStep::Observe { context } => self,
        }
    }

    /// The pair after a run of steps on a fresh pair.
    pub open spec fn after(steps: Seq<CellStep>) -> CellState
        decreases steps.len(),
    {
        if steps.len() == 0 {
            Self::fresh()
        } else {
            Self::after(steps.drop_last()).next(steps.last())
        }
    }

    /// Whether a run can happen: each step is admitted by the pair that the
    /// steps before it leave.
    pub open spec fn admissible(steps: Seq<CellStep>) -> bool
        decreases steps.len(),
    {
        steps.len() == 0 || (Self::admissible(steps.drop_last()) && Self::after(
            steps.drop_last(),
        ).admits(steps.last()))
    }

    /// At most one handle is out; whoever builds holds it; and whoever has
    /// made its claim holds it and has found or set the init flag.
    pub open spec fn consistent(self) -> bool {
        &&& self.lock.consistent()
        &&& forall|context: nat| self.builds(context) ==> self.lock.handles.contains(context)
        &&& forall|context: nat| #[trigger]
            self.claimed.contains(context) ==> self.lock.handles.contains(context)
                && self.inited()
    }
}

proof fn lemma_one_handle_one_holder(lock: LockState, one: nat, other: nat)
    requires
        lock.consistent(),
        lock.handles.contains(one),
        lock.handles.contains(other),
    ensures
        one == other,
        lock.handles.remove(one).len() == 0,
{
    let rest = lock.handles.remove(one);
    assert(rest.len() == 0);
    if one != other {
        assert(rest.count(other) == lock.handles.count(other));
        assert(rest.count(other) <= rest.len());
    }
}

proof fn lemma_next_keeps_consistent(state: CellState, step: CellStep)
    requires
        state.consistent(),
        state.admits(step),
    ensures
        state.next(step).consistent(),
{
    let after = state.next(step);
    match step {
        CellStep::Lock { step: lock_step } => {
            lemma_step_keeps_consistent(state.lock, lock_step);
            assert forall|c: nat| after.builds(c) implies after.lock.handles.contains(c) by {
                assert(state.builds(c));
                match lock_step {
                    Step::Release { context } => {
                        lemma_one_handle_one_holder(state.lock, context, c);
                    },
                    Step::TryAcquire { context } => {},
                }
            }
            assert forall|c: nat| #[trigger]
                after.claimed.contains(c) implies after.lock.handles.contains(c)
                && after.inited() by {
                assert(state.claimed.contains(c));
                match lock_step {
                    Step::Release { context } => {
                        lemma_one_handle_one_holder(state.lock, context, c);
                    },
                    Step::TryAcquire { context } => {},
                }
            }
        },
        CellStep::Claim { context } => {
            assert forall|c: nat| after.builds(c) implies after.lock.handles.contains(c) by {
                if c != context {
                    assert(state.builds(c));
                }
            }
            assert forall|c: nat| #[trigger]
                after.claimed.contains(c) implies after.lock.handles.contains(c)
                && after.inited() by {
                if c != context {
                    assert(state.claimed.contains(c));
                }
            }
        },
        CellStep::Finish { context } => {
            assert forall|c: nat| #[trigger]
                after.claimed.contains(c) implies after.lock.handles.contains(c)
                && after.inited() by {
                assert(state.claimed.contains(c));
            }
        },
        CellStep::Observe { context } => {},
    }
}

/// After any run that can happen, the pair is consistent.
pub proof fn lemma_pair_stays_consistent(steps: Seq<CellStep>)
    requires
        CellState::admissible(steps),
    ensures
        CellState::after(steps).consistent(),
    decreases steps.len(),
{
    if steps.len() > 0 {
        lemma_pair_stays_consistent(steps.drop_last());
        lemma_next_keeps_consistent(CellState::after(steps.drop_last()), steps.last());
    }
}

/// Init ordering under lock composition: however the steps of any number of
/// contexts interleave, a dereference that gets as far as its read finds the
/// value stored. It may have built the value itself, a step before; it never
/// reads while another context is still building.
pub proof fn lemma_observer_sees_finished_value(steps: Seq<CellStep>, context: nat)
    requires
        CellState::admissible(steps),
        CellState::after(steps).admits(CellStep::Observe { context }),
    ensures
        CellState::after(steps).phase is Ready,
{
    lemma_pair_stays_consistent(steps);
    let state = CellState::after(steps);
    assert(state.claimed.contains(context));
    match state.phase {
        Phase::Building { context: builder } => {
            assert(state.builds(builder));
            lemma_one_handle_one_holder(state.lock, context, builder);
        },
        _ => {},
    }
}

/// While one context builds, no other context gets a handle: the builder
/// holds the only one.
pub proof fn lemma_nobody_enters_while_building(
    steps: Seq<CellStep>,
    builder: nat,
    context: nat,
)
    requires
        CellState::admissible(steps),
        CellState::after(steps).builds(builder),
    ensures
        !CellState::after(steps).lock.grants(),
        CellState::after(steps).next(
            CellStep::Lock { step: Step::TryAcquire { context } },
        ).lock == CellState::after(steps).lock,
{
    lemma_pair_stays_consistent(steps);
}

} // verus!
