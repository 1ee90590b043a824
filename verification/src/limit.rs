use vstd::prelude::*;

use crate::units::{
    MAX_BURST, MAX_RATE, NANOS_PER_SECOND, SECONDS_PER_HOUR, SECONDS_PER_MINUTE, UNITS_PER_TOKEN,
};

verus! {

/// Configuration for token bucket rate and burst limits.
///
/// Defines how fast tokens are added to the bucket (rate) and the maximum
/// number of tokens the bucket can hold (burst capacity).
///
/// The rate is kept as token units gained per nanosecond (equivalently,
/// tokens per hour) and the burst capacity in token units, so that rates per
/// second, minute and hour are all represented exactly.
#[derive(Clone, Copy, Debug)]
pub struct RateLimit {
    pub(crate) rate: u64,
    pub(crate) burst: u128,
}

impl RateLimit {
    /// Units gained per nanosecond (the number of tokens added per hour).
    pub closed spec fn rate_view(&self) -> int {
        self.rate as int
    }

    /// Burst capacity in token units.
    pub closed spec fn burst_view(&self) -> int {
        self.burst as int
    }

    /// A rate limit whose rate and burst lie in the supported ranges.
    pub open spec fn wf(&self) -> bool {
        &&& 1 <= self.rate_view() <= MAX_RATE
        &&& 1 <= self.burst_view() <= MAX_BURST
        &&& self.burst_view() % (UNITS_PER_TOKEN as int) == 0
    }

    /// The rate, in token units per nanosecond (equivalently, tokens per hour).
    pub fn rate_units(&self) -> (r: u64)
        ensures
            r == self.rate_view(),
    {
        self.rate
    }

    /// The burst capacity, in token units.
    pub fn burst_units(&self) -> (r: u128)
        ensures
            r == self.burst_view(),
    {
        self.burst
    }

    /// Creates a rate limit with the specified tokens per second.
    ///
    /// The burst capacity is set equal to the rate, allowing for one second's
    /// worth of tokens to be consumed immediately.
    pub fn per_second(rate: u32) -> (r: Self)
        requires
            rate > 0,
        ensures
            r.wf(),
            r.rate_view() == rate * SECONDS_PER_HOUR,
            r.burst_view() == rate * UNITS_PER_TOKEN,
    {
        Self {
            rate: (rate as u64) * 3600,
            burst: (rate as u128) * 3_600_000_000_000,
        }
    }

    /// Creates a rate limit with specified tokens per second and burst capacity.
    pub fn per_second_and_burst(rate: u32, burst: u32) -> (r: Self)
        requires
            rate > 0,
            burst > 0,
        ensures
            r.wf(),
            r.rate_view() == rate * SECONDS_PER_HOUR,
            r.burst_view() == burst * UNITS_PER_TOKEN,
    {
        Self {
            rate: (rate as u64) * 3600,
            burst: (burst as u128) * 3_600_000_000_000,
        }
    }

    /// Creates a rate limit with the specified tokens per minute.
    ///
    /// The burst capacity is set equal to the per-minute rate: `rate` tokens.
    pub fn per_minute(rate: u32) -> (r: Self)
        requires
            rate > 0,
        ensures
            r.wf(),
            r.rate_view() == rate * SECONDS_PER_MINUTE,
            r.burst_view() == rate * UNITS_PER_TOKEN,
    {
        Self { rate: (rate as u64) * 60, burst: (rate as u128) * 3_600_000_000_000 }
    }

    /// Creates a rate limit with the specified tokens per hour.
    ///
    /// The burst capacity is set equal to the per-hour rate: `rate` tokens.
    pub fn per_hour(rate: u32) -> (r: Self)
        requires
            rate > 0,
        ensures
            r.wf(),
            r.rate_view() == rate,
            r.burst_view() == rate * UNITS_PER_TOKEN,
    {
        Self { rate: rate as u64, burst: (rate as u128) * 3_600_000_000_000 }
    }

    /// Sets a custom burst capacity for this rate limit.
    pub fn with_burst(self, burst: u32) -> (r: Self)
        requires
            burst > 0,
        ensures
            r.rate_view() == self.rate_view(),
            r.burst_view() == burst * UNITS_PER_TOKEN,
            self.wf() ==> r.wf(),
    {
        let mut this = self;
        this.burst = (burst as u128) * 3_600_000_000_000;
        this
    }

    /// Returns the rate in token units per second.
    pub fn rate_per_second(&self) -> (r: u128)
        ensures
            r == self.rate_view() * NANOS_PER_SECOND,
    {
        (self.rate as u128) * 1_000_000_000
    }

    /// Returns the rate in token units per minute.
    pub fn rate_per_minute(&self) -> (r: u128)
        ensures
            r == self.rate_view() * SECONDS_PER_MINUTE * NANOS_PER_SECOND,
    {
        (self.rate as u128) * 60_000_000_000
    }

    /// Returns the rate in token units per hour.
    pub fn rate_per_hour(&self) -> (r: u128)
        ensures
            r == self.rate_view() * UNITS_PER_TOKEN,
    {
        (self.rate as u128) * 3_600_000_000_000
    }

    /// Returns the burst capacity in whole tokens.
    pub fn burst(&self) -> (r: u32)
        requires
            self.wf(),
        ensures
            r > 0,
            r == self.burst_view() / (UNITS_PER_TOKEN as int),
    {
        let whole = self.burst / UNITS_PER_TOKEN;
        assert(whole <= u32::MAX) by (nonlinear_arith)
            requires
                whole == self.burst / UNITS_PER_TOKEN,
                self.burst <= MAX_BURST,
        ;
        assert(whole >= 1) by (nonlinear_arith)
            requires
                whole == self.burst / UNITS_PER_TOKEN,
                self.burst >= 1,
                self.burst % UNITS_PER_TOKEN == 0,
        ;
        whole as u32
    }
}

} // verus!
