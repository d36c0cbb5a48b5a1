//! The idempotency guard for process-wide transport initialization.
//!
//! The transport collaborator's global setup must happen exactly once
//! in the lifetime of a process. The guard makes that one-shot rule
//! explicit, deterministic state: the first `try_init` performs the
//! setup, every later one is a programming-contract violation and
//! fails with `DoubleInit`, leaving the first initialization intact.

use vstd::prelude::*;
use crate::error::Error;
use crate::session::transport_global_init;

verus! {

/// Tracks whether process-wide transport initialization has run.
pub struct GlobalInitGuard {
    initialized: bool,
}

impl GlobalInitGuard {
    /// Whether initialization has already happened through this guard.
    pub closed spec fn is_initialized(&self) -> bool {
        self.initialized
    }

    /// A guard for a process that has not initialized the transport.
    pub fn new() -> (r: GlobalInitGuard)
        ensures
            !r.is_initialized(),
    {
        GlobalInitGuard { initialized: false }
    }

    /// Performs process-wide transport initialization exactly once:
    /// the first call succeeds, every later call changes nothing and
    /// fails with `DoubleInit`.
    pub fn try_init(&mut self) -> (r: Result<(), Error>)
        ensures
            final(self).is_initialized(),
            !old(self).is_initialized() ==> r == Ok::<(), Error>(()),
            old(self).is_initialized() ==> r == Err::<(), Error>(Error::DoubleInit),
    {
        if self.initialized {
            Err(Error::DoubleInit)
        } else {
            transport_global_init();
            self.initialized = true;
            Ok(())
        }
    }
}

} // verus!
