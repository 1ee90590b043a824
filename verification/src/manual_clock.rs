use std::sync::atomic::AtomicU64;
use std::sync::atomic::Ordering;
use std::sync::Arc;

use vstd::prelude::*;

use crate::clock::Clock;

verus! {

/// Manual clock implementation for testing and simulation.
///
/// Allows precise control over time progression (in nanoseconds). The clock
/// is thread-safe and can be shared across threads; a reading reflects
/// whatever was last set, so nothing about it is known statically.
pub struct ManualClock {
    now: AtomicU64,
}

impl Default for ManualClock {
    fn default() -> Self {
        Self::new(0)
    }
}

impl ManualClock {
    /// Creates a new manual clock starting at the specified time in nanoseconds.
    pub fn new(now: u64) -> Self {
        Self { now: AtomicU64::new(now) }
    }

    /// Sets the current time, in nanoseconds.
    pub fn set(&self, now: u64) {
        self.now.store(now, Ordering::Relaxed);
    }

    /// Advances the current time by `delta` nanoseconds (wrapping on overflow,
    /// as `AtomicU64::fetch_add` does).
    pub fn advance(&self, delta: u64) {
        self.now.fetch_add(delta, Ordering::Relaxed);
    }

    /// Reads the current time, in nanoseconds.
    fn read(&self) -> u64 {
        self.now.load(Ordering::Relaxed)
    }
}

impl Clock for ManualClock {
    /// Any time may be read: whoever holds the clock may have set it to any value.
    open spec fn reads(&self, t: u64) -> bool {
        true
    }

    fn now(&self) -> (r: u64) {
        self.read()
    }
}

impl<'a> Clock for &'a ManualClock {
    /// Any time may be read: whoever holds the clock may have set it to any value.
    open spec fn reads(&self, t: u64) -> bool {
        true
    }

    fn now(&self) -> (r: u64) {
        (**self).read()
    }
}

impl Clock for Arc<ManualClock> {
    /// Any time may be read: whoever holds the clock may have set it to any value.
    open spec fn reads(&self, t: u64) -> bool {
        true
    }

    fn now(&self) -> (r: u64) {
        (**self).read()
    }
}

} // verus!
