//! Trusted declarations for `std::sync::Mutex`, which guards the registry.
//!
//! vstd gives no specification for the standard mutex, so the handful of
//! operations the broadcaster needs are declared here. The guarded value is
//! opaque to the verifier: the registry is shared between broadcaster handles,
//! so no contract here can pin its contents down; every statement about the
//! registry pass itself is proved over plain vectors once the lock is held
//! (see `fan_out` in the crate root).

use vstd::prelude::*;
use std::sync::Mutex;
use std::sync::MutexGuard;

verus! {

#[verifier::external_type_specification]
#[verifier::external_body]
#[verifier::reject_recursive_types(T)]
pub struct ExMutex<T: ?Sized>(Mutex<T>);

#[verifier::external_type_specification]
#[verifier::external_body]
#[verifier::reject_recursive_types(T)]
pub struct ExMutexGuard<'a, T: ?Sized + 'a>(MutexGuard<'a, T>);

/// Relies on `std::sync::Mutex::new`: wraps a value in a fresh, unlocked,
/// unpoisoned lock.
#[verifier::external_body]
pub(crate) fn mutex_new<T>(value: T) -> Mutex<T> {
    Mutex::new(value)
}

/// Relies on `std::sync::Mutex::lock`: blocks until the lock is held and
/// returns the guard; the error case arises exactly when the lock is
/// poisoned, that is, when an earlier holder panicked mid-critical-section.
#[verifier::external_body]
pub(crate) fn acquire<'a, T>(m: &'a Mutex<T>) -> Result<MutexGuard<'a, T>, ()> {
    match m.lock() {
        Ok(guard) => Ok(guard),
        Err(_) => Err(()),
    }
}

/// Relies on `std::mem::take` through the guard's `DerefMut`: removes and
/// returns the guarded value, leaving `T::default()` in its place. The lock
/// stays held; nothing else can observe the temporary state.
#[verifier::external_body]
pub(crate) fn guard_take<'a, T: Default>(guard: &mut MutexGuard<'a, T>) -> T {
    std::mem::take(&mut **guard)
}

/// Relies on the guard's `DerefMut`: stores `value` as the guarded value,
/// dropping what was there.
#[verifier::external_body]
pub(crate) fn guard_set<'a, T>(guard: &mut MutexGuard<'a, T>, value: T) {
    **guard = value;
}

} // verus!
