//! Identifiers for the network interfaces that come up while the stack runs.

use core::sync::atomic::{AtomicUsize, Ordering};
use vstd::prelude::*;

verus! {

/// Thread-safe counter for spawned interfaces.
pub struct IfaceCounter(AtomicUsize);

impl IfaceCounter {
    /// A counter that starts at zero.
    pub fn new() -> Self {
        Self(AtomicUsize::new(0))
    }

    /// Provides the caller with an identifier that this counter has not
    /// handed out before, unless it has wrapped around. Other threads may
    /// draw from the same counter at any time, so nothing is said of the
    /// number itself.
    pub fn next_iface_id(&self) -> usize {
        self.0.fetch_add(1, Ordering::SeqCst)
    }
}

} // verus!
