//! Conversions between nanosecond counts and `std::time::Duration`.
use std::time::Duration;

use vstd::prelude::*;

verus! {

/// The whole number of nanoseconds that `Duration::as_nanos` reports for `d`.
pub uninterp spec fn duration_nanos(d: Duration) -> nat;

/// Calls `Duration::as_nanos`: the result is the duration's total whole
/// nanoseconds, named by `duration_nanos`.
#[verifier::external_body]
pub(crate) fn duration_as_nanos(d: &Duration) -> (r: u128)
    ensures
        r == duration_nanos(*d),
{
    d.as_nanos()
}

/// Calls `Duration::from_nanos`: by its documentation the result spans exactly
/// `nanos` nanoseconds, so `as_nanos` gives `nanos` back.
#[verifier::external_body]
pub(crate) fn duration_from_nanos(nanos: u64) -> (d: Duration)
    ensures
        duration_nanos(d) == nanos,
{
    Duration::from_nanos(nanos)
}

/// The text that `Duration`'s `Debug` prints for a span of `nanos`
/// nanoseconds (a `Duration` is determined by its nanosecond count).
pub uninterp spec fn duration_debug_text(nanos: nat) -> Seq<char>;

/// Calls `format!("{:?}", d)`: `Duration`'s `Debug` output, named by
/// `duration_debug_text` over the duration's nanoseconds.
#[verifier::external_body]
pub(crate) fn duration_debug(d: &Duration) -> (r: String)
    ensures
        r@ == duration_debug_text(duration_nanos(*d)),
{
    format!("{:?}", d)
}

/// The whole nanoseconds of `d`, saturated at `u64::MAX`.
pub open spec fn saturated_nanos(d: Duration) -> int {
    if duration_nanos(d) <= u64::MAX {
        duration_nanos(d) as int
    } else {
        u64::MAX as int
    }
}

/// Converts an elapsed duration to nanoseconds, saturating at `u64::MAX`.
pub(crate) fn saturating_nanos(d: &Duration) -> (r: u64)
    ensures
        r == saturated_nanos(*d),
{
    let n = duration_as_nanos(d);
    if n > (u64::MAX as u128) {
        u64::MAX
    } else {
        n as u64
    }
}

} // verus!
