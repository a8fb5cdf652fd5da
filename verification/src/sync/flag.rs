//! The lock state: one boolean, changed only by a compare-and-set or a store.

use vstd::prelude::*;

verus! {

/// One boolean of lock state: clear when free, set when held.
///
/// Each method is a single indivisible step. Mutation goes through `&mut`, so
/// no two steps on one flag can overlap.
#[derive(Debug)]
pub struct Flag {
    value: bool,
}

impl View for Flag {
    type V = bool;

    closed spec fn view(&self) -> bool {
        self.value
    }
}

impl Flag {
    /// What a compare-and-set that expects `current` reports on a flag that
    /// holds `value`: the value found, as `Ok` when it was the expected one.
    pub open spec fn cas_outcome(value: bool, current: bool) -> Result<bool, bool> {
        if value == current {
            Ok(value)
        } else {
            Err(value)
        }
    }

    /// What a flag that holds `value` holds after a compare-and-set from
    /// `current` to `new`.
    pub open spec fn cas_next(value: bool, current: bool, new: bool) -> bool {
        if value == current {
            new
        } else {
            value
        }
    }

    pub fn new(value: bool) -> (flag: Self)
        ensures
            flag@ == value,
    {
        Flag { value }
    }

    pub fn load(&self) -> (value: bool)
        ensures
            value == self@,
    {
        self.value
    }

    pub fn store(&mut self, value: bool)
        ensures
            final(self)@ == value,
    {
        self.value = value;
    }

    /// Stores `value` and returns what the flag held before.
    pub fn swap(&mut self, value: bool) -> (previous: bool)
        ensures
            previous == old(self)@,
            final(self)@ == value,
    {
        let previous = self.value;
        self.value = value;
        previous
    }

    /// Two flags that hold the same value are the same flag value.
    pub proof fn lemma_view_is_all(self, other: Flag)
        requires
            self@ == other@,
        ensures
            self == other,
    {
    }

    /// Stores `new` if the flag holds `current`, and reports the value found:
    /// `Ok` when the store happened, `Err` when the flag was left alone.
    pub fn compare_exchange(&mut self, current: bool, new: bool) -> (found: Result<bool, bool>)
        ensures
            found == Self::cas_outcome(old(self)@, current),
            final(self)@ == Self::cas_next(old(self)@, current, new),
            found is Err ==> *final(self) == *old(self),
    {
        let previous = self.value;
        if previous == current {
            self.value = new;
            Ok(previous)
        } else {
            Err(previous)
        }
    }
}

/// The duty to clear a flag: whoever set the flag keeps this until the flag is
/// to be free again. Destroying it clears the flag, on every path out of the
/// scope that owns it.
///
/// The reference is gone once `release` has cleared the flag by hand, so that
/// the destructor that follows has nothing left to store.
#[derive(Debug)]
pub struct FlagGuard<'a> {
    flag: Option<&'a mut Flag>,
}

impl<'a> FlagGuard<'a> {
    /// The flag that this guard will clear, if it has not cleared it yet.
    pub closed spec fn target(&self) -> Option<&'a mut Flag> {
        self.flag
    }

    /// Whether this guard still owes a store to a flag that is set.
    pub open spec fn holds(&self) -> bool {
        self.target() matches Some(flag) && flag@
    }

    /// Takes on the duty to clear `flag`.
    pub fn new(flag: &'a mut Flag) -> (guard: Self)
        ensures
            guard.target() is Some,
            *guard.target()->Some_0 == *old(flag),
            *final(guard.target()->Some_0) == *final(flag),
    {
        FlagGuard { flag: Some(flag) }
    }

    /// Clears the flag now, as the destructor would. A caller that must know
    /// the flag to be clear calls this: a contract binds where a function is
    /// called, and no call of a destructor is ever written down.
    pub fn release(self)
        ensures
            self.target() is Some ==> !final(self.target()->Some_0)@,
    {
        let mut this = self;
        match this.flag.take() {
            Some(flag) => {
                flag.store(false);
            },
            None => {},
        }
    }
}

impl Drop for FlagGuard<'_> {
    /// Clears the flag, if `release` has not done so already.
    fn drop(&mut self)
        ensures
            old(self).target() is Some ==> final(self).target() is Some
                && !final(self).target()->Some_0@,
            old(self).target() is None ==> final(self).target() is None,
        opens_invariants none
        no_unwind
    {
        match &mut self.flag {
            Some(flag) => {
                flag.value = false;
            },
            None => {},
        }
    }
}

} // verus!
