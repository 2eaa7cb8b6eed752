//! The laws of the cell, stated and proved over the slot transitions that the
//! executable operations are specified by. Each law speaks of the state
//! machine itself; the lock serializes the executable operations, so a
//! sequence of operations on one cell is a sequence of these transitions.

use crate::slot::{put_transition, read_transition, swap_transition, take_transition};
use vstd::prelude::*;

verus! {

/// Mutual exclusivity of racing puts: of two puts that reach an Empty cell
/// one after the other — and the lock admits them only one after the other —
/// the first succeeds and stores its value, the second fails and its value is
/// not stored; the first value is what the cell then holds.
pub proof fn lemma_fill_exclusive<T>(v1: T, v2: T)
    ensures
        put_transition(None::<T>, v1) == (Some(v1), true),
        put_transition(put_transition(None::<T>, v1).0, v2) == (Some(v1), false),
{
}

/// Round trip: putting `v` into an Empty cell and then taking returns exactly
/// `v` and leaves the cell Empty again.
pub proof fn lemma_round_trip<T>(v: T)
    ensures
        put_transition(None::<T>, v).1 == true,
        take_transition(put_transition(None::<T>, v).0) == (None::<T>, Some(v)),
{
}

/// A swap that goes through never exposes an Empty cell: whatever the slot
/// held, the state after the swap transition is Full, and what comes back is
/// exactly what was held.
pub proof fn lemma_swap_never_empty<T>(s: Option<T>, v: T)
    ensures
        swap_transition(s, v).0 is Some,
        swap_transition(s, v).1 == s,
{
}

/// The non-blocking operations decline instead of waiting: a take of an Empty
/// cell answers nothing and changes nothing, and a put into a Full cell
/// answers failure and leaves the held value untouched. Both transitions are
/// defined on every state — there is no state in which they would have to
/// wait.
pub proof fn lemma_try_ops_decline<T>(w: T, v: T)
    ensures
        take_transition(None::<T>) == (None::<T>, None::<T>),
        put_transition(Some(w), v) == (Some(w), false),
{
}

/// Reading is non-consuming: reading takes the slot immutably, so however
/// many reads of a Full cell happen in a row, each hands back a duplicate of
/// the same held value, and a take that follows still extracts that value
/// itself, leaving the cell Empty.
pub proof fn lemma_read_non_consuming<T: Clone>(v: T, r1: Option<T>, r2: Option<T>)
    requires
        read_transition(Some(v), r1),
        read_transition(Some(v), r2),
    ensures
        r1 matches Some(c1) && cloned::<T>(v, c1),
        r2 matches Some(c2) && cloned::<T>(v, c2),
        take_transition(Some(v)) == (None::<T>, Some(v)),
{
}

} // verus!
