//! Process-wide session state: a single "is monitoring" boolean behind
//! a lock.
//!
//! Concurrently dispatched commands share one [`SessionState`]. Each
//! flag access happens under the lock, so a reader always observes a
//! value that some complete write stored — never a torn or partial
//! one — and rapid concurrent writes are serialized with
//! last-writer-wins semantics. No background work is attached to the
//! flag: it is intentionally inert state.

use vstd::prelude::*;
use vstd::rwlock::RwLock;
use vstd::rwlock::RwLockPredicate;

verus! {

/// The lock invariant on the monitoring flag: every stored boolean is
/// acceptable.
pub struct FlagInv {}

impl RwLockPredicate<bool> for FlagInv {
    open spec fn inv(self, v: bool) -> bool {
        true
    }
}

/// The shared session state: one boolean monitoring flag, guarded by a
/// reader-writer lock. The lock is scoped to the single read or write;
/// it is never held across a network or store call.
pub struct SessionState {
    monitoring: RwLock<bool, FlagInv>,
}

impl SessionState {
    /// A fresh session: monitoring is off.
    pub fn new() -> SessionState {
        SessionState { monitoring: RwLock::new(false, Ghost(FlagInv {})) }
    }

    /// Sets the monitoring flag, unconditionally succeeding. The write
    /// happens entirely under the lock.
    pub fn start_monitoring(&self) {
        let (_, handle) = self.monitoring.acquire_write();
        handle.release_write(true);
    }

    /// Clears the monitoring flag, unconditionally succeeding. The
    /// write happens entirely under the lock.
    pub fn stop_monitoring(&self) {
        let (_, handle) = self.monitoring.acquire_write();
        handle.release_write(false);
    }

    /// Reads the monitoring flag under the lock: the result is exactly
    /// the boolean most recently stored by a serialized write.
    pub fn is_monitoring(&self) -> bool {
        let handle = self.monitoring.acquire_read();
        let value = *handle.borrow();
        handle.release_read();
        value
    }
}

} // verus!
