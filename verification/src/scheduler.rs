//! When the sources are polled, and the guard that lets one background
//! task run at a time.

use vstd::prelude::*;

verus! {

/// Seconds between two ticks in production.
pub const PRODUCTION_INTERVAL_SECS: u64 = 300;

/// Seconds between two ticks in development.
pub const DEVELOPMENT_INTERVAL_SECS: u64 = 30;

/// The seconds between two ticks.
pub fn tick_interval(production: bool) -> (secs: u64)
    ensures
        secs == if production {
            PRODUCTION_INTERVAL_SECS
        } else {
            DEVELOPMENT_INTERVAL_SECS
        },
{
    if production {
        PRODUCTION_INTERVAL_SECS
    } else {
        DEVELOPMENT_INTERVAL_SECS
    }
}

/// The slot of the one background task: free, or taken while the task
/// runs.
#[derive(Debug)]
pub struct TaskSlot {
    running: bool,
}

impl TaskSlot {
    /// Whether a task holds the slot.
    pub closed spec fn spec_is_running(&self) -> bool {
        self.running
    }

    /// A free slot.
    pub fn new() -> (slot: Self)
        ensures
            !slot.spec_is_running(),
    {
        TaskSlot { running: false }
    }

    /// Whether a task holds the slot.
    pub fn is_running(&self) -> (running: bool)
        ensures
            running == self.spec_is_running(),
    {
        self.running
    }

    /// Takes the slot if it is free. The caller may start the task exactly
    /// where this returns `true`; the slot is taken afterwards either way.
    pub fn try_start(&mut self) -> (started: bool)
        ensures
            started == !old(self).spec_is_running(),
            final(self).spec_is_running(),
    {
        if self.running {
            false
        } else {
            self.running = true;
            true
        }
    }

    /// Frees the slot when the task has ended.
    pub fn finish(&mut self)
        ensures
            !final(self).spec_is_running(),
    {
        self.running = false;
    }
}

} // verus!
