//! Reserved synchronization seam around the process environment table.
//!
//! The environment accessors are meant to grow a lock discipline one
//! day; these two hooks are its named seam.  Today they deliberately
//! do nothing: they touch no state at all, so any number of calls, in
//! any interleaving with environment reads, leaves every value in the
//! process exactly as it was, and no call can block or deadlock.
//! Callers must not assume mutual exclusion from them.

use vstd::prelude::*;

verus! {

/// Reserved hook before a mutation of the environment table.
/// Performs no locking today.
pub fn lock_environ() {
}

/// Reserved hook after a mutation of the environment table.
/// Releases nothing today.
pub fn unlock_environ() {
}

} // verus!
