//! The deferred-init cell: a value that its constructor builds on first use,
//! once.

use vstd::prelude::*;
use crate::sync::flag::Flag;

verus! {

/// Either a constructor that has not run, or the value that it built. One
/// compare-and-set on the init flag decides which caller runs the constructor.
#[derive(Debug)]
pub struct LazyLock<T, F = fn() -> T> {
    is_inited: Flag,
    init: Option<F>,
    data: Option<T>,
}

impl<T, F: FnOnce() -> T> LazyLock<T, F> {
    /// The cell holds the constructor, which may be called, or the value:
    /// never both, never neither.
    pub closed spec fn wf(&self) -> bool {
        if self.is_inited@ {
            self.data is Some && self.init is None
        } else {
            self.data is None && self.init is Some && call_requires(self.init->Some_0, ())
        }
    }

    /// Whether the constructor has been claimed.
    pub closed spec fn is_inited(&self) -> bool {
        self.is_inited@
    }

    /// The constructor, while it has not run.
    pub closed spec fn constructor(&self) -> F
        recommends
            !self.is_inited(),
    {
        self.init->Some_0
    }

    /// The constructed value, once there is one.
    pub closed spec fn value(&self) -> T
        recommends
            self.is_inited(),
    {
        self.data->Some_0
    }

    /// A cell that holds `f` and has not run it.
    pub fn new(f: F) -> (lazy: Self)
        requires
            call_requires(f, ()),
        ensures
            lazy.wf(),
            !lazy.is_inited(),
            lazy.constructor() == f,
    {
        Self { is_inited: Flag::new(false), init: Some(f), data: None }
    }

    /// Claims the constructor by one compare-and-set of the init flag from
    /// clear to set. Returns `true` if and only if this call made the
    /// transition; that call, and no other, runs the constructor and stores
    /// what it built. A call on an initialised cell changes nothing.
    pub fn try_init(&mut self) -> (won: bool)
        requires
            old(self).wf(),
        ensures
            final(self).wf(),
            final(self).is_inited(),
            won == !old(self).is_inited(),
            old(self).is_inited() ==> *final(self) == *old(self),
            !old(self).is_inited() ==> call_ensures(
                old(self).constructor(),
                (),
                final(self).value(),
            ),
    {
        if self.is_inited.compare_exchange(false, true).is_ok() {
            let f = self.init.take().unwrap();
            self.data = Some(f());
            true
        } else {
            false
        }
    }

    /// The value, constructed first if this is the first access. The caller
    /// sees the finished value or builds it itself: never a constructor that
    /// is half-way through.
    pub fn force(&mut self) -> (value: &T)
        requires
            old(self).wf(),
        ensures
            final(self).wf(),
            final(self).is_inited(),
            *value == final(self).value(),
            old(self).is_inited() ==> *final(self) == *old(self),
            !old(self).is_inited() ==> call_ensures(
                old(self).constructor(),
                (),
                final(self).value(),
            ),
    {
        let _ = self.try_init();
        self.data.as_ref().unwrap()
    }

    /// The value, for writing, constructed first if this is the first access.
    pub fn force_mut(&mut self) -> (value: &mut T)
        requires
            old(self).wf(),
        ensures
            final(self).wf(),
            final(self).is_inited(),
            final(self).value() == *final(value),
            old(self).is_inited() ==> *value == old(self).value(),
            !old(self).is_inited() ==> call_ensures(old(self).constructor(), (), *value),
    {
        let _ = self.try_init();
        self.data.as_mut().unwrap()
    }
}

} // verus!
