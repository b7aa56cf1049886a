//! Mutual exclusion over the single process-wide failure-interception hook.
//!
//! The interception hook is a strictly exclusive resource: at most one
//! assertion call may have it installed at any time. This module models the
//! guard that protects it as an explicit boolean state (`free` or `held`)
//! whose only transitions are a compare-and-swap acquire and an unconditional
//! release.

use vstd::prelude::*;

verus! {

/// Exclusive lock over the process-wide failure-interception hook.
///
/// The state is `free` (no holder) or `held` (exactly one holder); since a
/// successful acquisition is only possible from the `free` state, at most one
/// holder exists at any time.
pub struct GlobalInterceptionGuard {
    state: bool,
}

impl GlobalInterceptionGuard {
    /// True when some caller currently holds the guard.
    pub closed spec fn is_held(self) -> bool {
        self.state
    }

    /// A fresh guard starts free.
    pub fn new() -> (g: Self)
        ensures
            !g.is_held(),
    {
        GlobalInterceptionGuard { state: false }
    }

    /// One compare-and-swap attempt: succeeds exactly when the guard was
    /// free, and leaves the guard held either way (by the caller on success,
    /// by the previous holder on failure).
    pub fn try_acquire(&mut self) -> (acquired: bool)
        ensures
            acquired == !old(self).is_held(),
            final(self).is_held(),
    {
        let was_free = !self.state;
        self.state = true;
        was_free
    }

    /// Unconditional release: the guard is free afterwards. The orchestrator
    /// runs this on every exit path of an assertion call.
    pub fn release(&mut self)
        ensures
            !final(self).is_held(),
    {
        self.state = false;
    }

    /// Reads the current state, as a spinning acquirer would.
    pub fn held(&self) -> (b: bool)
        ensures
            b == self.is_held(),
    {
        self.state
    }
}

} // verus!
