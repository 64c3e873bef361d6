//! A minimal lock for early-kernel code.

use vstd::prelude::*;

verus! {

/// A model of a lock protecting a value of type `T`.
///
/// This type only models a lock: there is no atomic flag and no spinning,
/// so it cannot be shared between cores or placed in a `static`. Acquiring
/// it borrows it exclusively for as long as the returned guard lives, so at
/// most one guard exists at a time and acquiring never has to wait: the
/// compiler enforces the exclusion. The lock does not implement poisoning.
pub struct SpinLock<T> {
    value: T,
}

impl<T> View for SpinLock<T> {
    type V = T;

    /// The protected value.
    closed spec fn view(&self) -> T {
        self.value
    }
}

impl<T> SpinLock<T> {
    /// Creates a lock protecting `value`.
    pub fn new(value: T) -> (lock: Self)
        ensures
            lock@ == value,
    {
        SpinLock { value }
    }

    /// Acquires the lock. The guard gives access to the protected value, and
    /// what the value is when the guard goes away is what the lock holds
    /// from then on (see [`SpinLockGuard::released_guard_hands_back`]).
    pub fn lock(&mut self) -> (guard: SpinLockGuard<'_, T>)
        ensures
            guard@ == old(self)@,
            final(self)@ == *final(guard.data()),
    {
        SpinLockGuard { value: &mut self.value }
    }
}

/// Access to the value of a [`SpinLock`] while it is held.
pub struct SpinLockGuard<'a, T> {
    value: &'a mut T,
}

impl<'a, T> SpinLockGuard<'a, T> {
    /// The borrow of the protected value, which ends with the guard.
    pub closed spec fn data(&self) -> &'a mut T {
        self.value
    }

    /// The protected value, as it is now.
    pub open spec fn view(&self) -> T {
        *self.data()
    }

    /// Once a guard is done with, the lock holds what the guard last held.
    pub broadcast proof fn released_guard_hands_back(guard: Self)
        requires
            #[trigger] has_resolved(guard),
        ensures
            guard@ == *final(guard.data()),
    {
    }

    /// The protected value, for mutation.
    pub fn get_mut(&mut self) -> (value: &mut T)
        ensures
            *value == old(self)@,
            final(self)@ == *final(value),
            *final(final(self).data()) == *final(old(self).data()),
    {
        self.value
    }
}

impl<'a, T> core::ops::Deref for SpinLockGuard<'a, T> {
    type Target = T;

    /// The protected value.
    fn deref(&self) -> (value: &T)
        ensures
            *value == self@,
    {
        self.value
    }
}

} // verus!
