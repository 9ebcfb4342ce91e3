//! Running an operation under exclusive access to the store.
//!
//! The store's mapping is the one resource needing mutual exclusion, and
//! its lock is owned by whoever owns the store, held for the single call
//! only — there is no ambient process-wide lock. In the library exclusive
//! access is what ownership gives: the operation runs as the sole owner of
//! whatever it captures, and its contract passes through unchanged.

use vstd::prelude::*;

verus! {

/// Runs `f` with exclusive access to what it captures: whatever `f`
/// promises of its result holds of what is returned.
pub fn with_lock<F, R>(f: F) -> (r: R) where F: FnOnce() -> R
    requires
        f.requires(()),
    ensures
        f.ensures((), r),
{
    f()
}

} // verus!
