//! A lock around a value that several recording contexts share.
//!
//! What stands behind a lock at a given moment depends on everybody who
//! shares it, so nothing is said of that value but what the lock admits: a
//! lock may be made with a condition that holds of every value that is
//! ever put behind it, and then holds of every value that is taken from it.

use vstd::prelude::*;
use vstd::rwlock::RwLock;
use vstd::rwlock::WriteHandle;
use std::sync::Arc;

verus! {

/// A value behind a lock. Whoever takes the lock waits until it is free.
#[verifier::reject_recursive_types(T)]
pub struct SpinLock<T> {
    inner: RwLock<T, spec_fn(T) -> bool>,
}

/// The value from behind a lock, for as long as the lock is held. The lock
/// is held until `unlock` gives the value back.
#[verifier::reject_recursive_types(T)]
pub struct SpinGuard<'a, T> {
    value: T,
    handle: WriteHandle<'a, T, spec_fn(T) -> bool>,
}

impl<'a, T> SpinGuard<'a, T> {
    /// The value that the lock guards.
    pub closed spec fn view(&self) -> T {
        self.value
    }

    /// Whether the lock that the guard holds admits a value.
    pub closed spec fn admits(&self, value: T) -> bool {
        self.handle.rwlock().inv(value)
    }

    /// The value that the lock guards.
    pub fn get(&self) -> (r: &T)
        ensures
            *r == self@,
    {
        &self.value
    }

    /// Puts another value in place of the one that the lock guards.
    pub fn set(&mut self, value: T)
        ensures
            final(self)@ == value,
            forall|v: T| final(self).admits(v) == old(self).admits(v),
    {
        self.value = value;
    }

    /// Gives the value back and frees the lock.
    pub fn unlock(self)
        requires
            self.admits(self@),
    {
        let SpinGuard { value, handle } = self;
        handle.release_write(value);
    }
}

impl<T> SpinLock<T> {
    /// Waits until the lock is free and takes it. The guard holds a value
    /// that the lock admits, and takes back what the lock admits.
    pub fn lock<'a>(&'a self) -> (r: SpinGuard<'a, T>)
        ensures
            self.admits(r@),
            forall|v: T| r.admits(v) == self.admits(v),
    {
        let (value, handle) = self.inner.acquire_write();
        SpinGuard { value, handle }
    }

    /// A lock around a value. The lock admits every value.
    pub fn new(value: T) -> (r: Self)
        ensures
            forall|v: T| r.admits(v),
    {
        let ghost anything: spec_fn(T) -> bool = |v: T| true;
        SpinLock { inner: RwLock::new(value, Ghost(anything)) }
    }

    /// Puts a value in place of the one behind the lock, which is returned:
    /// a value that the lock admits.
    pub fn swap(&self, new: T) -> (r: T)
        requires
            self.admits(new),
        ensures
            self.admits(r),
    {
        let (previous, handle) = self.inner.acquire_write();
        handle.release_write(new);
        previous
    }
}

impl<T: Default> SpinLock<T> {
    /// Takes the value from behind the lock and leaves the default value
    /// there. The lock has to admit whatever the default value is.
    pub fn extract(&self) -> (r: T)
        requires
            forall|d: T| call_ensures(T::default, (), d) ==> self.admits(d),
        ensures
            self.admits(r),
    {
        self.swap(T::default())
    }
}

impl<T> SpinLock<Arc<T>> {
    /// The shared value behind the lock: one that the lock admits.
    pub fn get(&self) -> (r: Arc<T>)
        ensures
            self.admits(r),
    {
        let handle = self.inner.acquire_read();
        let value = handle.borrow().clone();
        handle.release_read();
        value
    }

    /// Puts a shared value in place of the one behind the lock.
    pub fn set(&self, new: Arc<T>)
        requires
            self.admits(new),
    {
        let _ = self.swap(new);
    }
}

impl<T> SpinLock<Vec<T>> {
    /// Whether the lock admits every list that it admits when one more
    /// value stands at its end.
    pub open spec fn admits_longer(&self, value: T) -> bool {
        forall|before: Vec<T>, after: Vec<T>|
            self.admits(before) && after@ == before@.push(value) ==> self.admits(after)
    }

    /// Appends a value to the list behind the lock.
    pub fn push(&self, value: T)
        requires
            self.admits_longer(value),
    {
        let (mut list, handle) = self.inner.acquire_write();
        let ghost before = list;
        list.push(value);
        assert(self.admits(before) && list@ == before@.push(value));
        handle.release_write(list);
    }
}

impl<T> SpinLock<T> {
    /// Whether a value may stand behind the lock.
    pub closed spec fn admits(&self, value: T) -> bool {
        self.inner.inv(value)
    }

    /// A lock around a value that admits the values of which a condition
    /// holds, and no others.
    pub fn with_invariant(value: T, Ghost(holds): Ghost<spec_fn(T) -> bool>) -> (r: Self)
        requires
            holds(value),
        ensures
            forall|v: T| r.admits(v) == holds(v),
    {
        SpinLock { inner: RwLock::new(value, Ghost(holds)) }
    }
}

} // verus!
