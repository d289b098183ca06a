//! Helpers shared by the executor: the async mutex, and a phantom marker.

use vstd::prelude::*;

use async_mutex::{Mutex, MutexGuard};

verus! {

/// The async `Mutex` of the `async_mutex` crate.
#[verifier::external_type_specification]
#[verifier::external_body]
#[verifier::reject_recursive_types(T)]
pub struct ExMutex<T: ?Sized>(Mutex<T>);

/// The guard that `async_mutex::Mutex` hands out while it is locked.
#[verifier::external_type_specification]
#[verifier::external_body]
#[verifier::reject_recursive_types(T)]
pub struct ExMutexGuard<'a, T: ?Sized>(MutexGuard<'a, T>);

/// Calls `Mutex::new`, which puts `data` behind a new, unlocked mutex. What the mutex holds is
/// not described: it changes through guards that other tasks may hold.
#[verifier::external_body]
pub(crate) fn new_mutex<T>(data: T) -> Mutex<T> {
    Mutex::new(data)
}

/// Calls `Mutex::try_lock`, which locks the mutex if no one holds it, without waiting. Whether
/// it succeeds depends on other tasks, so nothing is stated of the result.
#[verifier::external_body]
pub(crate) fn try_lock<T>(mutex: &Mutex<T>) -> Option<MutexGuard<'_, T>> {
    mutex.try_lock()
}

/// Calls `DerefMut::deref_mut` on a guard, which gives access to the value the mutex holds.
#[verifier::external_body]
pub(crate) fn guarded_value<'a, 'b, T>(guard: &'a mut MutexGuard<'b, T>) -> &'a mut T {
    &mut *guard
}

/// A zero-sized marker for an otherwise unused type parameter, `Send` and `Sync` whatever the
/// parameter is.
pub struct _Phantom<S>(Ghost<S>);

impl<S> _Phantom<S> {
    /// The marker.
    pub fn new() -> Self {
        _Phantom(Ghost(arbitrary()))
    }
}

} // verus!
