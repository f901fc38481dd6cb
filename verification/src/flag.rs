//! A non-blocking mutual-exclusion signal.
//!
//! Producer and consumer run in cooperatively scheduled turns of one event
//! loop, so the signal is plain state: an acquisition attempt either takes
//! the free signal or reports that the other side holds it.  Failure is
//! reported to the caller, never retried internally; a caller that fails to
//! acquire tries again on its next turn.

use vstd::prelude::*;

verus! {

/// The mutual-exclusion signal guarding a transport's payload storage.
pub struct SpinFlag {
    held: bool,
}

impl SpinFlag {
    /// Whether the signal is currently held.
    pub closed spec fn is_held(&self) -> bool {
        self.held
    }

    /// A fresh signal, not held.
    pub fn new() -> (r: SpinFlag)
        ensures
            !r.is_held(),
    {
        SpinFlag { held: false }
    }

    /// Attempts to take the signal: succeeds exactly when it was free,
    /// and leaves it held either way.
    pub fn try_acquire(&mut self) -> (r: bool)
        ensures
            r == !old(self).is_held(),
            final(self).is_held(),
    {
        let was_held = self.held;
        self.held = true;
        !was_held
    }

    /// Releases the signal unconditionally.
    pub fn release(&mut self)
        ensures
            !final(self).is_held(),
    {
        self.held = false;
    }
}

} // verus!
