//! The trusted layer: declarations of the host environment's lock and
//! condition-signal primitives, and one wrapper around each call the cell
//! makes. Every decision about the cell's contents is made by verified code
//! outside this module; what is relied on here is that the lock serializes
//! access, that the signals suspend and wake threads, and that a wait guarded
//! by a condition returns only once the condition holds.
//!
//! Between two acquisitions of the lock any other thread may have changed the
//! guarded contents, so no wrapper promises anything about what a fresh
//! acquisition finds.

use crate::mvar::LockError;
use crate::slot::Slot;
use vstd::prelude::*;

verus! {

#[verifier::external_type_specification]
#[verifier::external_body]
#[verifier::reject_recursive_types(T)]
pub struct ExMutex<T: ?Sized>(std::sync::Mutex<T>);

#[verifier::external_type_specification]
#[verifier::external_body]
pub struct ExCondvar(std::sync::Condvar);

#[verifier::external_type_specification]
#[verifier::external_body]
#[verifier::reject_recursive_types(T)]
pub struct ExMutexGuard<'a, T: ?Sized + 'a>(std::sync::MutexGuard<'a, T>);

/// Relies on `std::sync::Mutex::new`: makes a lock whose guarded contents are
/// `value`.
#[verifier::external_body]
pub(crate) fn mutex_new<T>(value: T) -> std::sync::Mutex<T> {
    std::sync::Mutex::new(value)
}

/// Relies on `std::sync::Condvar::new`: makes a signal with no waiters.
#[verifier::external_body]
pub(crate) fn condvar_new() -> std::sync::Condvar {
    std::sync::Condvar::new()
}

/// Relies on `std::sync::Mutex::lock`: blocks until the lock is held and
/// hands out its guard. A lock whose previous holder terminated abnormally
/// while holding it is reported as [`LockError`].
#[verifier::external_body]
pub(crate) fn mutex_lock<'a, T>(m: &'a std::sync::Mutex<T>) -> Result<
    std::sync::MutexGuard<'a, T>,
    LockError,
> {
    match m.lock() {
        Ok(guard) => Ok(guard),
        Err(_) => Err(LockError),
    }
}

/// Relies on `std::sync::Condvar::notify_one`: wakes at most one thread
/// waiting on the signal.
#[verifier::external_body]
pub(crate) fn condvar_notify_one(cv: &std::sync::Condvar) {
    cv.notify_one();
}

/// Relies on `core::mem::replace`, applied through the guard: the lock's
/// guarded contents become `new`, and what they were is returned. The caller
/// holds the guard, so no other thread intervenes.
#[verifier::external_body]
pub(crate) fn guard_replace<'a, T>(guard: &mut std::sync::MutexGuard<'a, T>, new: T) -> T {
    core::mem::replace(&mut **guard, new)
}

/// Relies on `std::sync::Condvar::wait_while`, the condition being the
/// verified [`Slot::is_empty`]: while the slot is empty, the lock is released
/// and the thread suspends until the signal wakes it; the call returns only
/// with the lock held and the slot full (a woken thread that finds the slot
/// still empty re-blocks inside `wait_while`). The full slot is then moved
/// out, `replacement` is left in its place, and both guard and slot are
/// handed back — which is why the result's slot can be promised full. A
/// poisoned lock is reported as [`LockError`].
#[verifier::external_body]
pub(crate) fn wait_until_full<'a, T>(
    cv: &std::sync::Condvar,
    guard: std::sync::MutexGuard<'a, Slot<T>>,
    replacement: Slot<T>,
) -> (r: Result<(std::sync::MutexGuard<'a, Slot<T>>, Slot<T>), LockError>)
    ensures
        r matches Ok(p) ==> p.1@ is Some,
{
    match cv.wait_while(guard, |slot: &mut Slot<T>| slot.is_empty()) {
        Ok(mut guard) => {
            let slot = core::mem::replace(&mut *guard, replacement);
            Ok((guard, slot))
        },
        Err(_) => Err(LockError),
    }
}

/// Relies on `std::sync::Condvar::wait_while`, the condition being the
/// verified [`Slot::is_full`]: the mirror image of [`wait_until_full`] — the
/// call returns only with the lock held and the slot empty, and the empty
/// slot is moved out with `replacement` left in its place. A poisoned lock is
/// reported as [`LockError`].
#[verifier::external_body]
pub(crate) fn wait_until_empty<'a, T>(
    cv: &std::sync::Condvar,
    guard: std::sync::MutexGuard<'a, Slot<T>>,
    replacement: Slot<T>,
) -> (r: Result<(std::sync::MutexGuard<'a, Slot<T>>, Slot<T>), LockError>)
    ensures
        r matches Ok(p) ==> p.1@ is None,
{
    match cv.wait_while(guard, |slot: &mut Slot<T>| slot.is_full()) {
        Ok(mut guard) => {
            let slot = core::mem::replace(&mut *guard, replacement);
            Ok((guard, slot))
        },
        Err(_) => Err(LockError),
    }
}

} // verus!
