//! What holds of every interleaving of steps on one cell.
//!
//! Contexts that run side by side (cores, or an interrupt handler and the code
//! that it interrupted) each take steps on a cell. Every step is one
//! indivisible operation on the flag, so a run of the system is a sequence of
//! steps, in the order in which the flag saw them. The models here follow the
//! contracts of `Mutex::try_lock`, of `FlagGuard`'s destructor and of
//! `LazyLock::try_init`: an attempt is granted exactly when the flag is
//! clear and sets it, a destroyed handle clears it.

use vstd::prelude::*;
use vstd::multiset::Multiset;
use crate::sync::flag::Flag;

verus! {

/// One step of one context on a guarded cell.
pub enum Step {
    /// One call of `try_lock`.
    TryAcquire { context: nat },
    /// The destruction of a handle that the context holds.
    Release { context: nat },
}

/// A guarded cell as a run of steps leaves it: the flag, and one entry in
/// `handles` for each handle that was issued and not yet destroyed, under the
/// number of the context that holds it.
pub struct LockState {
    pub locked: bool,
    pub handles: Multiset<nat>,
}

impl LockState {
    /// A cell as `new` makes it.
    pub open spec fn fresh() -> LockState {
        LockState { locked: false, handles: Multiset::empty() }
    }

    /// Whether an attempt on this cell is granted: whether its
    /// compare-and-set finds the flag clear.
    pub open spec fn grants(self) -> bool {
        Flag::cas_outcome(self.locked, false) is Ok
    }

    /// Whether `step` can happen here. An attempt always can. A handle is
    /// destroyed once, by a context that has one.
    pub open spec fn admits(self, step: Step) -> bool {
        match step {
            Step::TryAcquire { context } => true,
            Step::Release { context } => self.handles.contains(context),
        }
    }

    /// The cell after `step`.
    pub open spec fn next(self, step: Step) -> LockState {
        match step {
            Step::TryAcquire { context } => LockState {
                locked: Flag::cas_next(self.locked, false, true),
                handles: if self.grants() {
                    self.handles.insert(context)
                } else {
                    self.handles
                },
            },
            Step::Release { context } => LockState {
                locked: false,
                handles: self.handles.remove(context),
            },
        }
    }

    /// The cell after a run of steps on a fresh cell.
    pub open spec fn after(steps: Seq<Step>) -> LockState
        decreases steps.len(),
    {
        if steps.len() == 0 {
            Self::fresh()
        } else {
            Self::after(steps.drop_last()).next(steps.last())
        }
    }

    /// Whether a run can happen: each step is admitted by the cell that the
    /// steps before it leave.
    pub open spec fn admissible(steps: Seq<Step>) -> bool
        decreases steps.len(),
    {
        steps.len() == 0 || (Self::admissible(steps.drop_last()) && Self::after(
            steps.drop_last(),
        ).admits(steps.last()))
    }

    /// The flag is set exactly while one handle is out, and there is never a
    /// second.
    pub open spec fn consistent(self) -> bool {
        if self.locked {
            self.handles.len() == 1
        } else {
            self.handles.len() == 0
        }
    }
}

/// A step that can happen keeps the flag and the handles in line.
pub proof fn lemma_step_keeps_consistent(state: LockState, step: Step)
    requires
        state.consistent(),
        state.admits(step),
    ensures
        state.next(step).consistent(),
{
}

proof fn lemma_admissible_prefix(steps: Seq<Step>, len: int)
    requires
        LockState::admissible(steps),
        0 <= len <= steps.len(),
    ensures
        LockState::admissible(steps.take(len)),
    decreases steps.len(),
{
    if len == steps.len() {
        assert(steps.take(len) =~= steps);
    } else {
        lemma_admissible_prefix(steps.drop_last(), len);
        assert(steps.drop_last().take(len) =~= steps.take(len));
    }
}

/// After any run that can happen, the flag is set exactly while one handle is
/// out.
pub proof fn lemma_flag_tracks_handles(steps: Seq<Step>)
    requires
        LockState::admissible(steps),
    ensures
        LockState::after(steps).consistent(),
    decreases steps.len(),
{
    if steps.len() > 0 {
        lemma_flag_tracks_handles(steps.drop_last());
        lemma_step_keeps_consistent(LockState::after(steps.drop_last()), steps.last());
    }
}

/// Mutual exclusion: however the attempts of any number of contexts
/// interleave, at no instant of the run is more than one handle out.
pub proof fn lemma_mutual_exclusion(steps: Seq<Step>, instant: int)
    requires
        LockState::admissible(steps),
        0 <= instant <= steps.len(),
    ensures
        LockState::after(steps.take(instant)).handles.len() <= 1,
{
    lemma_admissible_prefix(steps, instant);
    lemma_flag_tracks_handles(steps.take(instant));
}

/// Eventual availability: once every handle that was issued has been
/// destroyed, the next attempt is granted, whoever makes it.
pub proof fn lemma_available_when_all_released(steps: Seq<Step>, context: nat)
    requires
        LockState::admissible(steps),
        LockState::after(steps).handles.len() == 0,
    ensures
        LockState::after(steps).grants(),
        LockState::after(steps.push(Step::TryAcquire { context })).handles.contains(context),
{
    lemma_flag_tracks_handles(steps);
    let longer = steps.push(Step::TryAcquire { context });
    assert(longer.drop_last() =~= steps);
}

/// No reentrant acquisition: while a context holds a handle, an attempt by
/// that same context is refused and changes nothing.
pub proof fn lemma_no_reentrant_acquire(steps: Seq<Step>, context: nat)
    requires
        LockState::admissible(steps),
        LockState::after(steps).handles.contains(context),
    ensures
        !LockState::after(steps).grants(),
        LockState::after(steps.push(Step::TryAcquire { context })) == LockState::after(steps),
{
    lemma_flag_tracks_handles(steps);
    let longer = steps.push(Step::TryAcquire { context });
    assert(longer.drop_last() =~= steps);
}

/// A deferred-init cell as a run of `try_init` calls leaves it: the init flag,
/// and how often the constructor has run.
pub struct InitState {
    pub inited: bool,
    pub constructions: nat,
}

impl InitState {
    /// A cell as `new` makes it.
    pub open spec fn fresh() -> InitState {
        InitState { inited: false, constructions: 0 }
    }

    /// Whether a call of `try_init` on this cell makes the transition, and so
    /// runs the constructor: whether its compare-and-set finds the flag clear.
    pub open spec fn wins(self) -> bool {
        Flag::cas_outcome(self.inited, false) is Ok
    }

    /// The cell after one call of `try_init`.
    pub open spec fn next(self) -> InitState {
        InitState {
            inited: Flag::cas_next(self.inited, false, true),
            constructions: if self.wins() {
                self.constructions + 1
            } else {
                self.constructions
            },
        }
    }

    /// The cell after `calls` calls on a fresh cell, in whatever order the
    /// callers came.
    pub open spec fn after(calls: nat) -> InitState
        decreases calls,
    {
        if calls == 0 {
            Self::fresh()
        } else {
            Self::after((calls - 1) as nat).next()
        }
    }
}

/// Init exactly once: of any number of calls of `try_init` that race on a
/// fresh cell, the first to reach the flag wins and no other does, so the
/// constructor has run once as soon as anyone has called.
pub proof fn lemma_init_exactly_once(calls: nat)
    ensures
        InitState::after(calls).inited == (calls > 0),
        InitState::after(calls).constructions == if calls > 0 { 1nat } else { 0nat },
        InitState::after(calls).wins() == (calls == 0),
    decreases calls,
{
    if calls > 0 {
        lemma_init_exactly_once((calls - 1) as nat);
    }
}

} // verus!
