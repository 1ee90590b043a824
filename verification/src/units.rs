//! Exact units shared by every part of the token bucket.
//!
//! Time is counted in nanoseconds. Token quantities are counted in *token
//! units*: one token is [`UNITS_PER_TOKEN`] units, which is the amount a bucket
//! refilling at one token per hour gains in one nanosecond. A rate is stored as
//! units gained per nanosecond, which is the same number as tokens per hour, so
//! every rate built from a whole number of tokens per second, minute or hour
//! refills by a whole number of units each nanosecond and all arithmetic stays
//! exact.
use vstd::prelude::*;

verus! {

/// Nanoseconds in one second.
pub const NANOS_PER_SECOND: u64 = 1_000_000_000;

/// Seconds in one minute.
pub const SECONDS_PER_MINUTE: u64 = 60;

/// Seconds in one hour.
pub const SECONDS_PER_HOUR: u64 = 3600;

/// Token units in one token (seconds per hour times nanoseconds per second).
pub const UNITS_PER_TOKEN: u128 = 3_600_000_000_000;

/// Largest rate, in units per nanosecond: `u32::MAX` tokens per second.
pub const MAX_RATE: u64 = 15_461_882_262_000;

/// Largest burst capacity, in units: `u32::MAX` tokens.
pub const MAX_BURST: u128 = 15_461_882_262_000_000_000_000;

/// Bound on the magnitude of a stored zero time, in rate-scaled nanoseconds (2^125).
pub const ZERO_TIME_BOUND: i128 = 42_535_295_865_117_307_932_921_825_928_971_026_432;

/// The smaller of two integers.
pub open spec fn min_int(a: int, b: int) -> int {
    if a <= b {
        a
    } else {
        b
    }
}

/// The larger of two integers.
pub open spec fn max_int(a: int, b: int) -> int {
    if a >= b {
        a
    } else {
        b
    }
}

/// What a saturating consumption takes when `available` units are in the
/// bucket and `want` are asked for: whatever is there (fractions included),
/// up to `want`, but nothing when less than one whole token is there.
pub open spec fn saturating_amount(available: int, want: int) -> int {
    let held = max_int(available, 0);
    if held < UNITS_PER_TOKEN {
        0
    } else {
        min_int(held, want)
    }
}

/// A zero time brought into the representable range `[-ZERO_TIME_BOUND, ZERO_TIME_BOUND]`.
pub open spec fn clamp_zero_time(z: int) -> int {
    if z < -ZERO_TIME_BOUND {
        -ZERO_TIME_BOUND
    } else if z > ZERO_TIME_BOUND {
        ZERO_TIME_BOUND as int
    } else {
        z
    }
}

/// The whole nanoseconds needed to cover `scaled` rate-scaled nanoseconds at
/// `rate`, rounded up, and capped at `u64::MAX`.
pub open spec fn nanos_to_cover(scaled: int, rate: int) -> int {
    min_int((scaled + rate - 1) / rate, u64::MAX as int)
}

/// A time in rate-scaled nanoseconds stays far inside `i128`.
pub proof fn lemma_scaled_time_bound(now: u64, rate: u64)
    requires
        rate <= MAX_RATE,
    ensures
        0 <= now * rate,
        now * rate < 0x1_0000_0000_0000_0000_0000_0000_0000,
{
    assert(0 <= now * rate && now * rate <= (u64::MAX as int) * (MAX_RATE as int)) by (nonlinear_arith)
        requires
            rate <= MAX_RATE,
            now <= u64::MAX,
    ;
}

/// Computes `now * rate` as a time in rate-scaled nanoseconds.
pub fn scaled_time(now: u64, rate: u64) -> (r: i128)
    requires
        rate <= MAX_RATE,
    ensures
        r == now * rate,
        0 <= r < 0x1_0000_0000_0000_0000_0000_0000_0000,
{
    proof {
        lemma_scaled_time_bound(now, rate);
    }
    (now as i128) * (rate as i128)
}

/// Converts a positive span of rate-scaled nanoseconds into whole nanoseconds,
/// rounding up and saturating at `u64::MAX`.
pub fn nanos_covering(scaled: i128, rate: u64) -> (r: u64)
    requires
        0 < scaled <= 2 * ZERO_TIME_BOUND,
        1 <= rate <= MAX_RATE,
    ensures
        r == nanos_to_cover(scaled as int, rate as int),
        r >= 1,
{
    let q: i128 = (scaled + (rate as i128) - 1) / (rate as i128);
    assert(q >= 1) by (nonlinear_arith)
        requires
            q == (scaled + rate - 1) / (rate as int),
            scaled >= 1,
            rate >= 1,
    ;
    if q > (u64::MAX as i128) {
        u64::MAX
    } else {
        q as u64
    }
}

} // verus!
