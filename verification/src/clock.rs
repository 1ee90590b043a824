use std::time::Duration;

use quanta::Clock as QuantaSource;
use quanta::Instant as QuantaInstant;

use vstd::prelude::*;

use crate::time::{
    duration_debug, duration_debug_text, duration_from_nanos, duration_nanos, saturated_nanos,
    saturating_nanos,
};

verus! {

/// Represents a non-zero time duration in nanoseconds.
#[derive(Clone, Copy, PartialEq, Eq, Structural, Debug)]
pub struct Nanos {
    nanos: u64,
}

impl Nanos {
    /// The number of nanoseconds.
    pub closed spec fn nanos_view(&self) -> int {
        self.nanos as int
    }

    /// Every `Nanos` value is a positive span.
    pub open spec fn wf(&self) -> bool {
        self.nanos_view() > 0
    }

    /// Returns `None` for a span of zero nanoseconds, and the span otherwise.
    pub fn new_checked(nanos: u64) -> (r: Option<Self>)
        ensures
            r is None <==> nanos == 0,
            r matches Some(n) ==> n.wf() && n.nanos_view() == nanos,
    {
        if nanos == 0 {
            None
        } else {
            Some(Nanos { nanos })
        }
    }

    /// Returns the span in nanoseconds.
    pub fn as_nanos(&self) -> (r: u64)
        ensures
            r == self.nanos_view(),
    {
        self.nanos
    }

    /// Returns the span as a [`Duration`].
    pub fn as_duration(&self) -> (r: Duration)
        ensures
            duration_nanos(r) == self.nanos_view(),
    {
        duration_from_nanos(self.nanos)
    }

    /// The span's text: the span as `Duration`'s `Debug` prints it (`1.5s`, say).
    pub fn to_string(&self) -> (r: String)
        ensures
            r@ == duration_debug_text(self.nanos_view() as nat),
    {
        let span = self.as_duration();
        duration_debug(&span)
    }
}

/// Trait for monotonic clock implementations used by token buckets.
///
/// Implementations must provide monotonic time that never goes backwards.
/// Time is measured in nanoseconds since an arbitrary epoch.
pub trait Clock {
    /// Whether `t` is a time, in nanoseconds, that a reading of this clock
    /// may give.
    spec fn reads(&self, t: u64) -> bool;

    /// Returns the current time in nanoseconds since an arbitrary epoch.
    fn now(&self) -> (r: u64)
        ensures
            self.reads(r),
    ;
}

#[verifier::external_type_specification]
#[verifier::external_body]
pub struct ExStdInstant(std::time::Instant);

/// `std::time::Instant` is `Copy`, so its `clone` returns the same instant.
pub assume_specification[ <std::time::Instant as std::clone::Clone>::clone ](
    instant: &std::time::Instant,
) -> (r: std::time::Instant)
    ensures
        r == *instant,
;

/// Calls `std::time::Instant::now`; the reading depends on the machine's clock.
#[verifier::external_body]
fn std_instant_now() -> std::time::Instant {
    std::time::Instant::now()
}

/// Calls `std::time::Instant::elapsed`; the reading depends on the machine's clock.
#[verifier::external_body]
fn std_instant_elapsed(origin: &std::time::Instant) -> Duration {
    origin.elapsed()
}

/// Standard clock implementation using [`std::time::Instant`].
#[derive(Clone)]
pub struct StdClock {
    origin: std::time::Instant,
}

impl Default for StdClock {
    fn default() -> Self {
        Self { origin: std_instant_now() }
    }
}

impl Clock for StdClock {
    /// A reading is the whole nanoseconds, saturated at `u64::MAX`, of the
    /// `Duration` elapsed since the clock's origin.
    open spec fn reads(&self, t: u64) -> bool {
        exists|elapsed: Duration| #[trigger] saturated_nanos(elapsed) == t
    }

    fn now(&self) -> (r: u64) {
        saturating_nanos(&std_instant_elapsed(&self.origin))
    }
}

#[verifier::external_type_specification]
#[verifier::external_body]
pub struct ExQuantaSource(QuantaSource);

#[verifier::external_type_specification]
#[verifier::external_body]
pub struct ExQuantaInstant(QuantaInstant);

/// `quanta::Instant` is `Copy`, so its `clone` returns the same instant.
pub assume_specification[ <QuantaInstant as std::clone::Clone>::clone ](
    instant: &QuantaInstant,
) -> (r: QuantaInstant)
    ensures
        r == *instant,
;

/// `quanta::Clock`'s derived `clone`; nothing is stated of the copy.
pub assume_specification[ <QuantaSource as std::clone::Clone>::clone ](
    source: &QuantaSource,
) -> QuantaSource;

/// Calls `quanta::Clock::new`.
#[verifier::external_body]
fn quanta_clock_new() -> QuantaSource {
    QuantaSource::new()
}

/// Calls `quanta::Clock::now`; the reading depends on the machine's clock.
#[verifier::external_body]
fn quanta_clock_now(clock: &QuantaSource) -> QuantaInstant {
    clock.now()
}

/// Calls `quanta::Clock::recent`; the reading depends on the upkeep thread.
#[verifier::external_body]
fn quanta_clock_recent(clock: &QuantaSource) -> QuantaInstant {
    clock.recent()
}

/// Calls `quanta::Instant::elapsed`; the reading depends on the machine's clock.
#[verifier::external_body]
fn quanta_instant_elapsed(origin: &QuantaInstant) -> Duration {
    origin.elapsed()
}

/// Calls `Sub` on `quanta::Instant` (`later - earlier`); the span between two
/// readings, which saturates at zero when `earlier` is the later one.
#[verifier::external_body]
fn quanta_instant_sub(later: QuantaInstant, earlier: QuantaInstant) -> Duration {
    later - earlier
}

/// High-precision clock implementation using the `quanta` crate.
#[derive(Clone)]
pub struct QuantaClock {
    origin: QuantaInstant,
}

impl Default for QuantaClock {
    fn default() -> Self {
        Self::new(quanta_clock_new())
    }
}

impl QuantaClock {
    /// Creates a new `QuantaClock` from a `quanta::Clock` instance.
    pub fn new(clock: QuantaSource) -> Self {
        let origin = quanta_clock_now(&clock);
        Self { origin }
    }
}

impl Clock for QuantaClock {
    /// A reading is the whole nanoseconds, saturated at `u64::MAX`, of the
    /// `Duration` elapsed since the clock's origin.
    open spec fn reads(&self, t: u64) -> bool {
        exists|elapsed: Duration| #[trigger] saturated_nanos(elapsed) == t
    }

    fn now(&self) -> (r: u64) {
        saturating_nanos(&quanta_instant_elapsed(&self.origin))
    }
}

/// High-performance clock using quanta's coarse timing.
///
/// The precision depends on how frequently quanta's upkeep thread runs; ensure
/// it is running, otherwise the bucket will not observe time passing.
#[derive(Clone)]
pub struct FastClock {
    clock: QuantaSource,
    origin: QuantaInstant,
}

impl Default for FastClock {
    fn default() -> Self {
        Self::new(quanta_clock_new())
    }
}

impl FastClock {
    /// The quanta clock whose recent time this clock reads.
    pub closed spec fn source(&self) -> QuantaSource {
        self.clock
    }

    /// Creates a new `FastClock` from a `quanta::Clock` instance, which it
    /// keeps and reads from then on; the origin is that clock's recent time.
    pub fn new(clock: QuantaSource) -> (r: Self)
        ensures
            r.source() == clock,
    {
        let origin = quanta_clock_recent(&clock);
        Self { clock, origin }
    }
}

impl Clock for FastClock {
    /// A reading is the whole nanoseconds, saturated at `u64::MAX`, of the
    /// `Duration` elapsed since the clock's origin.
    open spec fn reads(&self, t: u64) -> bool {
        exists|elapsed: Duration| #[trigger] saturated_nanos(elapsed) == t
    }

    fn now(&self) -> (r: u64) {
        let recent = quanta_clock_recent(&self.clock);
        saturating_nanos(&quanta_instant_sub(recent, self.origin))
    }
}

#[verifier::external_type_specification]
#[verifier::external_body]
pub struct ExTokioInstant(tokio::time::Instant);

/// `tokio::time::Instant` is `Copy`, so its `clone` returns the same instant.
pub assume_specification[ <tokio::time::Instant as std::clone::Clone>::clone ](
    instant: &tokio::time::Instant,
) -> (r: tokio::time::Instant)
    ensures
        r == *instant,
;

/// Calls `tokio::time::Instant::now`; the reading depends on the machine's clock
/// (or on tokio's paused test clock).
#[verifier::external_body]
fn tokio_instant_now() -> tokio::time::Instant {
    tokio::time::Instant::now()
}

/// Calls `tokio::time::Instant::elapsed`; the reading depends on the clock.
#[verifier::external_body]
fn tokio_instant_elapsed(origin: &tokio::time::Instant) -> Duration {
    origin.elapsed()
}

/// Tokio-compatible clock implementation using [`tokio::time::Instant`].
#[derive(Clone)]
pub struct TokioClock {
    origin: tokio::time::Instant,
}

impl Default for TokioClock {
    fn default() -> Self {
        Self { origin: tokio_instant_now() }
    }
}

impl Clock for TokioClock {
    /// A reading is the whole nanoseconds, saturated at `u64::MAX`, of the
    /// `Duration` elapsed since the clock's origin.
    open spec fn reads(&self, t: u64) -> bool {
        exists|elapsed: Duration| #[trigger] saturated_nanos(elapsed) == t
    }

    fn now(&self) -> (r: u64) {
        saturating_nanos(&tokio_instant_elapsed(&self.origin))
    }
}

} // verus!
