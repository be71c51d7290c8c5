//! Small helpers for values that are shared or handed over.
//!
//! What a shared value is at a given moment depends on everybody who
//! shares it, so nothing is said of it but what may stand in its place.

use vstd::prelude::*;
use vstd::rwlock::ReadHandle;
use vstd::rwlock::RwLock;
use vstd::rwlock::WriteHandle;
use std::sync::Arc;

verus! {

/// A value that many owners share and that one of them at a time may
/// change.
#[verifier::reject_recursive_types(T)]
pub struct Ref<T> {
    inner: Arc<RwLock<T, spec_fn(T) -> bool>>,
}

impl<T> Ref<T> {
    /// A shared value, in whose place every value may be put.
    pub fn new(value: T) -> (r: Self)
        ensures
            forall|v: T| r.admits(v),
    {
        let ghost anything: spec_fn(T) -> bool = |v: T| true;
        Ref { inner: Arc::new(RwLock::new(value, Ghost(anything))) }
    }

    /// Waits until nobody changes the value and hands out a handle through
    /// which it can be read: a value that may stand in this place. The
    /// handle has to be released.
    pub fn read(&self) -> (r: ReadHandle<'_, T, spec_fn(T) -> bool>)
        ensures
            self.admits(r.view()),
    {
        self.inner.acquire_read()
    }

    /// Waits until nobody else uses the value and hands it out, with a
    /// handle through which the value that takes its place is given back.
    pub fn write(&self) -> (r: (T, WriteHandle<'_, T, spec_fn(T) -> bool>))
        ensures
            self.admits(r.0),
            forall|v: T| #[trigger] r.1.rwlock().inv(v) == self.admits(v),
    {
        self.inner.acquire_write()
    }

    /// Whether a value may stand in the place of the shared value.
    pub closed spec fn admits(&self, value: T) -> bool {
        self.inner.inv(value)
    }

    /// A shared value in whose place the values may be put of which a
    /// condition holds, and no others.
    pub fn with_invariant(value: T, Ghost(holds): Ghost<spec_fn(T) -> bool>) -> (r: Self)
        requires
            holds(value),
        ensures
            forall|v: T| r.admits(v) == holds(v),
    {
        Ref { inner: Arc::new(RwLock::new(value, Ghost(holds))) }
    }
}

impl<T> Clone for Ref<T> {
    /// Another owner of the same value.
    fn clone(&self) -> (r: Self)
        ensures
            forall|v: T| r.admits(v) == self.admits(v),
    {
        Ref { inner: self.inner.clone() }
    }
}

/// A value that only the main render thread may touch.
pub struct MainRenderThread<T>(pub T);

/// Values that can be taken out of their place, which is left with the
/// default value.
pub trait Extract: Default {
    /// Takes the value out of its place.
    fn extract(&mut self) -> (r: Self)
        ensures
            r == *old(self),
    ;
}

impl<T: Default> Extract for T {
    fn extract(&mut self) -> (r: Self) {
        let mut taken = T::default();
        core::mem::swap(self, &mut taken);
        taken
    }
}

} // verus!
