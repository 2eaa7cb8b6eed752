use crate::slot::Slot;
use crate::sync::{
    condvar_new, condvar_notify_one, guard_replace, mutex_lock, mutex_new, wait_until_empty,
    wait_until_full,
};
use vstd::prelude::*;

verus! {

/// The one failure any operation can report: the cell's lock was left in an
/// inconsistent state because a previous holder terminated abnormally while
/// holding it. It is never raised for any other reason — the blocking
/// operations block rather than fail, and the non-blocking ones report a full
/// or empty cell through their result, not through an error.
#[derive(Clone, Copy, Debug, PartialEq, Eq)]
pub struct LockError;

/// An `Mvar` (pronounced "em-var") is a synchronizing variable, used for
/// communication between concurrent threads. It can be thought of as a box
/// that is either empty or full: taking from an empty box or putting into a
/// full one suspends the calling thread until another thread changes the
/// state.
///
/// The cell is a monitor. One lock guards the [`Slot`]; the `full` signal
/// wakes consumers when the cell becomes full, the `empty` signal wakes
/// producers when it becomes empty, and each transition notifies at most one
/// waiter of the matching kind. No operation holds the lock across a wait:
/// all waiting happens inside the host's condition-wait, which releases the
/// lock while suspended and re-checks the state on every wake-up.
///
/// Every step that inspects or changes the contents is a verified transition
/// of [`Slot`] (see its contracts, and the laws in [`crate::laws`]). What an
/// operation finds under a freshly taken lock depends on the other threads,
/// so the methods here cannot promise which value comes back; what is
/// verified is that each operation performs exactly its transition on
/// whatever it finds.
#[verifier::reject_recursive_types(T)]
pub struct Mvar<T> {
    value: std::sync::Mutex<Slot<T>>,
    full: std::sync::Condvar,
    empty: std::sync::Condvar,
}

impl<T> Default for Mvar<T> {
    /// Creates an empty Mvar.
    fn default() -> Self {
        Self::empty()
    }
}

impl<T> Mvar<T> {
    /// Creates an Mvar in the Empty state.
    pub fn empty() -> Self {
        Mvar {
            value: mutex_new(Slot::empty()),
            full: condvar_new(),
            empty: condvar_new(),
        }
    }

    /// Creates an Mvar in the Full state, holding `value`.
    pub fn new(value: T) -> Self {
        Mvar {
            value: mutex_new(Slot::full(value)),
            full: condvar_new(),
            empty: condvar_new(),
        }
    }

    /// Whether the cell is Empty at the instant the lock is held — a
    /// snapshot, stale as soon as it is returned, since another thread may
    /// mutate the cell immediately after.
    pub fn is_empty(&self) -> Result<bool, LockError> {
        let mut guard = match mutex_lock(&self.value) {
            Ok(guard) => guard,
            Err(e) => return Err(e),
        };
        let slot = guard_replace(&mut guard, Slot::empty());
        let r = slot.is_empty();
        let _ = guard_replace(&mut guard, slot);
        Ok(r)
    }

    /// Blocking take: suspends on the `full` signal while the cell is Empty;
    /// once Full, extracts the value, leaves the cell Empty, wakes one
    /// producer, and returns the value. Does not suspend at all if the cell
    /// is already Full on the first check.
    pub fn take(&self) -> Result<T, LockError> {
        let guard = match mutex_lock(&self.value) {
            Ok(guard) => guard,
            Err(e) => return Err(e),
        };
        let (_guard, mut slot) = match wait_until_full(&self.full, guard, Slot::empty()) {
            Ok(p) => p,
            Err(e) => return Err(e),
        };
        match slot.take_value() {
            Some(value) => {
                condvar_notify_one(&self.empty);
                Ok(value)
            },
            None => unreached(),
        }
    }

    /// Non-blocking take: one lock acquisition, never a wait. A Full cell is
    /// emptied (waking one producer) and its value returned as `Some`; an
    /// Empty cell answers `None` at once.
    pub fn try_take(&self) -> Result<Option<T>, LockError> {
        let mut guard = match mutex_lock(&self.value) {
            Ok(guard) => guard,
            Err(e) => return Err(e),
        };
        let mut slot = guard_replace(&mut guard, Slot::empty());
        let r = slot.take_value();
        if r.is_some() {
            condvar_notify_one(&self.empty);
        }
        Ok(r)
    }

    /// Blocking put: suspends on the `empty` signal while the cell is Full;
    /// once Empty, stores `value`, leaves the cell Full, wakes one consumer,
    /// and returns. Does not suspend at all if the cell is already Empty on
    /// the first check.
    pub fn put(&self, value: T) -> Result<(), LockError> {
        let guard = match mutex_lock(&self.value) {
            Ok(guard) => guard,
            Err(e) => return Err(e),
        };
        let (mut guard, mut slot) = match wait_until_empty(&self.empty, guard, Slot::empty()) {
            Ok(p) => p,
            Err(e) => return Err(e),
        };
        let stored = slot.fill(value);
        let _ = guard_replace(&mut guard, slot);
        if stored {
            condvar_notify_one(&self.full);
            Ok(())
        } else {
            unreached()
        }
    }

    /// Non-blocking put: one lock acquisition, never a wait. Into an Empty
    /// cell the value is stored, one consumer is woken, and `true` comes
    /// back; a Full cell is left untouched, the signals too, and `false`
    /// comes back — the offered value is not stored.
    pub fn try_put(&self, value: T) -> Result<bool, LockError> {
        let mut guard = match mutex_lock(&self.value) {
            Ok(guard) => guard,
            Err(e) => return Err(e),
        };
        let mut slot = guard_replace(&mut guard, Slot::empty());
        let stored = slot.fill(value);
        let _ = guard_replace(&mut guard, slot);
        if stored {
            condvar_notify_one(&self.full);
        }
        Ok(stored)
    }

    /// Swap: a Full cell has its value replaced by `value` and hands the old
    /// one back — no state transition, so no signal is sent. An Empty cell
    /// first behaves like waiting for it to become Full (suspending on the
    /// `full` signal), then extracts that value and re-fills the cell with
    /// `value` under the same hold of the lock: no other thread ever
    /// observes the cell Empty between the removal and the insertion.
    pub fn swap(&self, value: T) -> Result<T, LockError> {
        let guard = match mutex_lock(&self.value) {
            Ok(guard) => guard,
            Err(e) => return Err(e),
        };
        let (mut guard, mut slot) = match wait_until_full(&self.full, guard, Slot::empty()) {
            Ok(p) => p,
            Err(e) => return Err(e),
        };
        let old_value = slot.replace_value(value);
        let _ = guard_replace(&mut guard, slot);
        match old_value {
            Some(v) => Ok(v),
            None => unreached(),
        }
    }
}

impl<T: Clone> Mvar<T> {
    /// Blocking read: suspends on the `full` signal while the cell is Empty;
    /// once Full, returns a duplicate of the held value and leaves the cell
    /// unchanged — still Full, nothing consumed, no signal sent.
    pub fn read(&self) -> Result<T, LockError> {
        let guard = match mutex_lock(&self.value) {
            Ok(guard) => guard,
            Err(e) => return Err(e),
        };
        let (mut guard, slot) = match wait_until_full(&self.full, guard, Slot::empty()) {
            Ok(p) => p,
            Err(e) => return Err(e),
        };
        let r = slot.read_value();
        let _ = guard_replace(&mut guard, slot);
        match r {
            Some(value) => Ok(value),
            None => unreached(),
        }
    }

    /// Non-blocking read: one lock acquisition, never a wait. Returns a
    /// duplicate of the value if the cell is Full, or `None` if it is Empty;
    /// the cell is left unchanged either way.
    pub fn try_read(&self) -> Result<Option<T>, LockError> {
        let mut guard = match mutex_lock(&self.value) {
            Ok(guard) => guard,
            Err(e) => return Err(e),
        };
        let slot = guard_replace(&mut guard, Slot::empty());
        let r = slot.read_value();
        let _ = guard_replace(&mut guard, slot);
        Ok(r)
    }
}

} // verus!
