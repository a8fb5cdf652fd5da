//! The guarded cell and its relatives: exclusive access to a value, granted by
//! one compare-and-set and given back when the handle is destroyed.

use vstd::prelude::*;
use core::ops::Deref;
use core::ops::DerefMut;
use crate::sync::flag::Flag;
use crate::sync::flag::FlagGuard;

verus! {

/// A value behind a lock flag. Access is granted only by `try_lock`, which
/// never waits.
#[derive(Debug)]
pub struct Mutex<T> {
    is_locked: Flag,
    data: T,
}

impl<T> Mutex<T> {
    /// Whether a handle to this cell is outstanding.
    pub closed spec fn is_locked(&self) -> bool {
        self.is_locked@
    }

    /// The value that the cell guards.
    pub closed spec fn payload(&self) -> T {
        self.data
    }

    /// A cell is no more than its flag and its payload.
    pub proof fn lemma_flag_and_payload_are_all(self, other: Mutex<T>)
        requires
            self.is_locked() == other.is_locked(),
            self.payload() == other.payload(),
        ensures
            self == other,
    {
        self.is_locked.lemma_view_is_all(other.is_locked);
    }

    /// A cell that is done with is done with its payload.
    pub broadcast proof fn lemma_payload_resolves(self)
        ensures
            #[trigger] has_resolved(self) ==> has_resolved(self.payload()),
    {
    }

    /// A free cell that guards `t`.
    pub fn new(t: T) -> (mutex: Self)
        ensures
            !mutex.is_locked(),
            mutex.payload() == t,
    {
        Self { is_locked: Flag::new(false), data: t }
    }

    /// One attempt to acquire the lock: a single compare-and-set of the flag
    /// from free to held. Returns a handle if the flag was free and `None` if
    /// it was held; it never spins, blocks or retries.
    ///
    /// While the handle lives it is the only way to the payload. What the cell
    /// is once the handle is gone is what the handle leaves behind: the flag
    /// as the handle's guard last stored it, the payload as last written
    /// through the handle.
    pub fn try_lock(&mut self) -> (handle: Option<MutexGuard<'_, T>>)
        ensures
            handle is Some <==> !old(self).is_locked(),
            handle is None ==> *final(self) == *old(self),
            handle is Some ==> {
                &&& handle->Some_0.holds()
                &&& handle->Some_0.payload() == old(self).payload()
                &&& final(self).is_locked() == final(handle->Some_0.flag_ref()->Some_0)@
                &&& final(self).payload() == *final(handle->Some_0.payload_ref())
            },
    {
        match self.is_locked.compare_exchange(false, true) {
            Ok(_) => Some(
                MutexGuard { hold: FlagGuard::new(&mut self.is_locked), data: &mut self.data },
            ),
            Err(_) => None,
        }
    }
}

impl<T: Default> Default for Mutex<T> {
    /// A free cell that guards the default value.
    fn default() -> (mutex: Self)
        ensures
            !mutex.is_locked(),
            call_ensures(T::default, (), mutex.payload()),
    {
        Mutex::new(T::default())
    }
}

/// Exclusive access to the payload of a `Mutex`, for as long as this handle
/// lives. Destroying the handle frees the lock.
///
/// The handle is two borrows: `hold` owes the store that frees the flag, and
/// `data` reaches the payload.
#[derive(Debug)]
pub struct MutexGuard<'a, T> {
    hold: FlagGuard<'a>,
    data: &'a mut T,
}

impl<'a, T> MutexGuard<'a, T> {
    /// The borrow of the cell's flag, until the handle has released it.
    pub closed spec fn flag_ref(&self) -> Option<&'a mut Flag> {
        self.hold.target()
    }

    /// The borrow of the cell's payload.
    pub closed spec fn payload_ref(&self) -> &'a mut T {
        self.data
    }

    /// Whether the handle holds the lock: its flag is set and still to be
    /// cleared.
    pub open spec fn holds(&self) -> bool {
        self.flag_ref() matches Some(flag) && flag@
    }

    /// The payload as it is now.
    pub open spec fn payload(&self) -> T {
        *self.payload_ref()
    }

    /// A handle that is done with leaves the payload as it last was: nothing
    /// writes through a handle between its last use and its destruction.
    pub broadcast proof fn lemma_payload_stays(self)
        ensures
            #[trigger] has_resolved(self) ==> *final(self.payload_ref()) == self.payload(),
    {
    }

    /// Frees the lock now. Destroying the handle does the same; after this
    /// call the caller also knows it: the flag is free, and the payload is as
    /// the handle left it.
    pub fn unlock(self)
        ensures
            self.flag_ref() is Some ==> !final(self.flag_ref()->Some_0)@,
            *final(self.payload_ref()) == self.payload(),
    {
        let MutexGuard { hold, data } = self;
        hold.release();
    }
}

impl<T> Deref for MutexGuard<'_, T> {
    type Target = T;

    fn deref(&self) -> (payload: &T)
        ensures
            *payload == self.payload(),
    {
        &*self.data
    }
}

impl<T> DerefMut for MutexGuard<'_, T> {
    fn deref_mut(&mut self) -> (payload: &mut T)
        ensures
            *payload == old(self).payload(),
            final(self).payload() == *final(payload),
            final(self).flag_ref() == old(self).flag_ref(),
            *final(final(self).payload_ref()) == *final(old(self).payload_ref()),
    {
        &mut *self.data
    }
}

/// A `Mutex` that runs a callback on the first acquisition that succeeds.
#[derive(Debug)]
pub struct LazyMutex<T, F: Fn()> {
    mutex: Mutex<T>,
    on_first_lock: F,
    inited: Flag,
}

impl<T, F: Fn()> LazyMutex<T, F> {
    /// The cell underneath.
    pub closed spec fn mutex(&self) -> Mutex<T> {
        self.mutex
    }

    /// The callback.
    pub closed spec fn on_first_lock(&self) -> F {
        self.on_first_lock
    }

    /// Whether the callback has had its turn.
    pub closed spec fn is_inited(&self) -> bool {
        self.inited@
    }

    /// A free cell that guards `t` and has not yet run `f`.
    pub fn new(t: T, f: F) -> (lazy: Self)
        ensures
            !lazy.mutex().is_locked(),
            lazy.mutex().payload() == t,
            lazy.on_first_lock() == f,
            !lazy.is_inited(),
    {
        Self { mutex: Mutex::new(t), on_first_lock: f, inited: Flag::new(false) }
    }

    /// One attempt to acquire the lock, as `Mutex::try_lock`. The attempt that
    /// succeeds first also claims the init flag, by one compare-and-set, and
    /// runs the callback before it returns the handle; no later attempt runs
    /// it again.
    pub fn try_lock(&mut self) -> (handle: Option<MutexGuard<'_, T>>)
        requires
            !old(self).mutex().is_locked() && !old(self).is_inited() ==> call_requires(
                old(self).on_first_lock(),
                (),
            ),
        ensures
            handle is Some <==> !old(self).mutex().is_locked(),
            handle is None ==> *final(self) == *old(self),
            handle is Some ==> {
                &&& handle->Some_0.holds()
                &&& handle->Some_0.payload() == old(self).mutex().payload()
                &&& final(self).mutex().is_locked() == final(handle->Some_0.flag_ref()->Some_0)@
                &&& final(self).mutex().payload() == *final(handle->Some_0.payload_ref())
                &&& final(self).on_first_lock() == old(self).on_first_lock()
                &&& final(self).is_inited()
                &&& !old(self).is_inited() ==> call_ensures(old(self).on_first_lock(), (), ())
            },
    {
        let handle = self.mutex.try_lock();
        if handle.is_some() {
            if self.inited.compare_exchange(false, true).is_ok() {
                (self.on_first_lock)();
            }
        }
        handle
    }
}

/// A `Mutex` that asks a predicate about the payload each time the lock is
/// acquired, and gives the lock straight back when the answer is no.
#[derive(Debug)]
pub struct MutexOnLock<T, F: Fn(&T) -> bool> {
    mutex: Mutex<T>,
    on_lock: F,
}

impl<T, F: Fn(&T) -> bool> MutexOnLock<T, F> {
    /// The cell underneath.
    pub closed spec fn mutex(&self) -> Mutex<T> {
        self.mutex
    }

    /// The predicate.
    pub closed spec fn on_lock(&self) -> F {
        self.on_lock
    }

    /// A free cell that guards `t` and consults `on_lock`.
    pub fn new(t: T, on_lock: F) -> (gated: Self)
        ensures
            !gated.mutex().is_locked(),
            gated.mutex().payload() == t,
            gated.on_lock() == on_lock,
    {
        Self { mutex: Mutex::new(t), on_lock }
    }

    /// One attempt to acquire the lock. Where the flag is held the attempt
    /// fails as `Mutex::try_lock` does. Where it is free the lock is taken and
    /// the predicate sees the payload: on `true` the handle is returned, on
    /// `false` the lock is freed again and the attempt fails, with the cell as
    /// it was.
    pub fn try_lock(&mut self) -> (handle: Option<MutexGuard<'_, T>>)
        requires
            !old(self).mutex().is_locked() ==> call_requires(
                old(self).on_lock(),
                (&old(self).mutex().payload(),),
            ),
        ensures
            handle is None ==> *final(self) == *old(self),
            old(self).mutex().is_locked() ==> handle is None,
            !old(self).mutex().is_locked() ==> call_ensures(
                old(self).on_lock(),
                (&old(self).mutex().payload(),),
                handle is Some,
            ),
            handle is Some ==> {
                &&& handle->Some_0.holds()
                &&& handle->Some_0.payload() == old(self).mutex().payload()
                &&& final(self).mutex().is_locked() == final(handle->Some_0.flag_ref()->Some_0)@
                &&& final(self).mutex().payload() == *final(handle->Some_0.payload_ref())
                &&& final(self).on_lock() == old(self).on_lock()
            },
    {
        match self.mutex.try_lock() {
            Some(guard) => {
                if (self.on_lock)(&*guard) {
                    Some(guard)
                } else {
                    guard.unlock();
                    proof {
                        after_borrow(self.mutex).lemma_flag_and_payload_are_all(old(self).mutex);
                    }
                    None
                }
            },
            None => None,
        }
    }
}

/// A lock over a region that it does not own: the region is borrowed for the
/// life of the lock, and outlives it.
///
/// Whoever has the exclusive borrow has thereby shown what an address alone
/// cannot: that the region is valid, aligned and written by nobody else.
#[derive(Debug)]
pub struct MutexPtr<'p, T> {
    is_locked: Flag,
    ptr: &'p mut T,
}

impl<'p, T> MutexPtr<'p, T> {
    /// Whether a handle to the region is outstanding.
    pub closed spec fn is_locked(&self) -> bool {
        self.is_locked@
    }

    /// The borrow of the region.
    pub closed spec fn region_ref(&self) -> &'p mut T {
        self.ptr
    }

    /// What the region holds now.
    pub open spec fn region(&self) -> T {
        *self.region_ref()
    }

    /// A lock that is done with leaves the region as it last was: the lock
    /// owns no part of it, and destroys none.
    pub broadcast proof fn lemma_region_outlives(self)
        ensures
            #[trigger] has_resolved(self) ==> *final(self.region_ref()) == self.region(),
    {
    }

    /// A free lock over the region behind `ptr`. What the region holds when
    /// the lock is gone is what the lock leaves in it.
    pub fn new(ptr: &'p mut T) -> (mutex: Self)
        ensures
            !mutex.is_locked(),
            mutex.region() == *old(ptr),
            *final(ptr) == *final(mutex.region_ref()),
    {
        Self { is_locked: Flag::new(false), ptr }
    }

    /// One attempt to acquire the lock, as `Mutex::try_lock`; the handle
    /// reaches the region.
    pub fn try_lock(&mut self) -> (handle: Option<MutexPtrGuard<'_, T>>)
        ensures
            handle is Some <==> !old(self).is_locked(),
            handle is None ==> *final(self) == *old(self),
            handle is Some ==> {
                &&& handle->Some_0.holds()
                &&& handle->Some_0.region() == old(self).region()
                &&& final(self).is_locked() == final(handle->Some_0.flag_ref()->Some_0)@
                &&& final(self).region() == *final(handle->Some_0.region_ref())
                &&& *final(final(self).region_ref()) == *final(old(self).region_ref())
            },
    {
        match self.is_locked.compare_exchange(false, true) {
            Ok(_) => Some(
                MutexPtrGuard { hold: FlagGuard::new(&mut self.is_locked), ptr: &mut *self.ptr },
            ),
            Err(_) => None,
        }
    }
}

/// Exclusive access to the region of a `MutexPtr`, for as long as this handle
/// lives. Destroying the handle frees the lock.
#[derive(Debug)]
pub struct MutexPtrGuard<'a, T> {
    hold: FlagGuard<'a>,
    pub ptr: &'a mut T,
}

impl<'a, T> MutexPtrGuard<'a, T> {
    /// The borrow of the lock's flag, until the handle has released it.
    pub closed spec fn flag_ref(&self) -> Option<&'a mut Flag> {
        self.hold.target()
    }

    /// The borrow of the region.
    pub closed spec fn region_ref(&self) -> &'a mut T {
        self.ptr
    }

    /// Whether the handle holds the lock.
    pub open spec fn holds(&self) -> bool {
        self.flag_ref() matches Some(flag) && flag@
    }

    /// What the region holds now.
    pub open spec fn region(&self) -> T {
        *self.region_ref()
    }

    /// A handle that is done with leaves the region as it last was.
    pub broadcast proof fn lemma_region_stays(self)
        ensures
            #[trigger] has_resolved(self) ==> *final(self.region_ref()) == self.region(),
    {
    }

    /// Frees the lock now, as `MutexGuard::unlock`.
    pub fn unlock(self)
        ensures
            self.flag_ref() is Some ==> !final(self.flag_ref()->Some_0)@,
            *final(self.region_ref()) == self.region(),
    {
        let MutexPtrGuard { hold, ptr } = self;
        hold.release();
    }
}

impl<T> Deref for MutexPtrGuard<'_, T> {
    type Target = T;

    fn deref(&self) -> (region: &T)
        ensures
            *region == self.region(),
    {
        &*self.ptr
    }
}

impl<T> DerefMut for MutexPtrGuard<'_, T> {
    fn deref_mut(&mut self) -> (region: &mut T)
        ensures
            *region == old(self).region(),
            final(self).region() == *final(region),
            final(self).flag_ref() == old(self).flag_ref(),
            *final(final(self).region_ref()) == *final(old(self).region_ref()),
    {
        &mut *self.ptr
    }
}

} // verus!
