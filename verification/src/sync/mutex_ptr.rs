//! The guarded external region as a guarded cell whose payload is the borrow
//! of the region.

use vstd::prelude::*;
use core::ops::Deref;
use core::ops::DerefMut;
use crate::sync::mutex::Mutex;
use crate::sync::mutex::MutexGuard;

verus! {

/// A lock over a region that it does not own.
#[derive(Debug)]
pub struct MutexPtr<'p, T>(Mutex<&'p mut T>);

impl<'p, T> MutexPtr<'p, T> {
    /// The cell underneath, whose payload is the borrow of the region.
    pub closed spec fn cell(&self) -> Mutex<&'p mut T> {
        self.0
    }

    /// What the region holds now.
    pub open spec fn region(&self) -> T {
        *self.cell().payload()
    }

    /// A lock that is done with leaves the region as it last was: the lock
    /// owns no part of it, and destroys none.
    pub broadcast proof fn lemma_region_outlives(self)
        ensures
            #[trigger] has_resolved(self) ==> *final(self.cell().payload()) == self.region(),
    {
        self.0.lemma_payload_resolves();
    }

    /// A free lock over the region behind `t`.
    pub fn new(t: &'p mut T) -> (mutex: Self)
        ensures
            !mutex.cell().is_locked(),
            mutex.region() == *old(t),
            *final(mutex.cell().payload()) == *final(t),
    {
        Self(Mutex::new(t))
    }

    /// One attempt to acquire the lock, as `Mutex::try_lock`; the handle
    /// reaches the region.
    pub fn try_lock(&mut self) -> (handle: Option<MutexPtrGuard<'_, 'p, T>>)
        ensures
            handle is Some <==> !old(self).cell().is_locked(),
            handle is None ==> *final(self) == *old(self),
            handle is Some ==> {
                &&& handle->Some_0.guard().holds()
                &&& handle->Some_0.guard().payload() == old(self).cell().payload()
                &&& final(self).cell().is_locked() == final(
                    handle->Some_0.guard().flag_ref()->Some_0
                )@
                &&& final(self).cell().payload() == *final(handle->Some_0.guard().payload_ref())
            },
    {
        match self.0.try_lock() {
            Some(guard) => Some(MutexPtrGuard(guard)),
            None => None,
        }
    }
}

/// Exclusive access to the region of a `MutexPtr`.
#[derive(Debug)]
pub struct MutexPtrGuard<'a, 'p, T>(MutexGuard<'a, &'p mut T>);

impl<'a, 'p, T> MutexPtrGuard<'a, 'p, T> {
    /// The handle of the cell underneath.
    pub closed spec fn guard(&self) -> MutexGuard<'a, &'p mut T> {
        self.0
    }

    /// What the region holds now.
    pub open spec fn region(&self) -> T {
        *self.guard().payload()
    }

    /// A handle that is done with leaves the borrow of the region, and so the
    /// region, as it last was.
    pub broadcast proof fn lemma_region_stays(self)
        ensures
            #[trigger] has_resolved(self) ==> *final(self.guard().payload_ref())
                == self.guard().payload(),
    {
        self.0.lemma_payload_stays();
    }

    /// Frees the lock now, as `MutexGuard::unlock`.
    pub fn unlock(self)
        ensures
            self.guard().flag_ref() is Some ==> !final(self.guard().flag_ref()->Some_0)@,
            *final(self.guard().payload_ref()) == self.guard().payload(),
    {
        self.0.unlock();
    }
}

impl<T> Deref for MutexPtrGuard<'_, '_, T> {
    type Target = T;

    fn deref(&self) -> (region: &T)
        ensures
            *region == self.region(),
    {
        &**self.0.deref()
    }
}

impl<T> DerefMut for MutexPtrGuard<'_, '_, T> {
    fn deref_mut(&mut self) -> (region: &mut T)
        ensures
            *region == old(self).region(),
            final(self).region() == *final(region),
            final(self).guard().flag_ref() == old(self).guard().flag_ref(),
            *final(final(self).guard().payload()) == *final(old(self).guard().payload()),
            *final(final(self).guard().payload_ref()) == *final(
                old(self).guard().payload_ref()
            ),
    {
        &mut **self.0.deref_mut()
    }
}

} // verus!
