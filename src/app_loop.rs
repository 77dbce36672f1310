//! The cancellation latch shared between the frame loop and the handlers
//! that stop it.
use vstd::prelude::*;

use std::sync::atomic::{AtomicBool, Ordering};

verus! {

/// A flag that starts lowered and, once raised, stops the frame loop at its
/// next check.
#[derive(Debug)]
pub struct Loop {
    shutdown: AtomicBool,
}

impl Loop {
    /// A running loop.
    pub fn new() -> (r: Loop) {
        Loop { shutdown: AtomicBool::new(false) }
    }

    /// Whether nobody asked the loop to stop yet.
    pub fn is_running(&self) -> (r: bool) {
        !self.shutdown.load(Ordering::Acquire)
    }

    /// Asks the loop to stop.
    pub fn shutdown(&self) {
        self.shutdown.store(true, Ordering::Release);
    }
}

} // verus!
