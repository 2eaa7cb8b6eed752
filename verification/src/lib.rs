//! A synchronizing mutable cell for communication between concurrent threads.
//!
//! An [`Mvar`] is a one-slot box that is either empty or holds exactly one
//! value. Taking from an empty cell or putting into a full one suspends the
//! calling thread until another thread changes the cell's state; the
//! non-blocking variants report instead of waiting.
//!
//! The cell is an explicit monitor: one mutual-exclusion lock guards a
//! [`Slot`], and two condition signals part the waiters into consumers
//! (waiting for the cell to become full) and producers (waiting for it to
//! become empty). Every decision about the slot's contents is made by the
//! verified transitions of [`Slot`]; the lock and the signals are the host
//! environment's primitives, relied on through the narrow trusted layer in
//! `sync`.

pub mod laws;
pub mod mvar;
pub mod slot;
mod sync;

pub use crate::mvar::LockError;
pub use crate::mvar::Mvar;
pub use crate::slot::Slot;
