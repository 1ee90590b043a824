use std::time::Duration;

use vstd::prelude::*;

use crate::clock::Nanos;
use crate::time::{duration_debug, duration_debug_text, duration_nanos};

verus! {

/// Error returned when a token consumption request is rate limited.
///
/// Contains information about when the operation can be retried.
#[derive(Debug)]
pub struct RateLimited {
    pub(crate) earliest_retry_time: Nanos,
}

/// Error returned when trying to borrow more tokens than the burst capacity allows.
#[derive(Debug)]
pub struct ExceededBurstCapacity;


impl RateLimited {
    /// The suggested wait.
    pub closed spec fn retry_time(&self) -> Nanos {
        self.earliest_retry_time
    }

    /// Builds the error for a suggested wait.
    pub(crate) fn after(earliest_retry_time: Nanos) -> (r: Self)
        ensures
            r.retry_time() == earliest_retry_time,
    {
        RateLimited { earliest_retry_time }
    }

    /// Returns the suggested duration to wait before retrying the operation.
    pub fn earliest_retry_after(&self) -> (r: Duration)
        ensures
            duration_nanos(r) == self.retry_time().nanos_view(),
    {
        self.earliest_retry_time.as_duration()
    }

    /// Returns the suggested wait time in nanoseconds.
    pub fn earliest_retry_after_nanos(&self) -> (r: Nanos)
        ensures
            r == self.retry_time(),
    {
        self.earliest_retry_time
    }

    /// The error's message: `rate limited; suggested nap duration is `,
    /// followed by the wait as `Duration`'s `Debug` prints it (`10s`, say).
    pub fn to_string(&self) -> (r: String)
        ensures
            r@ == "rate limited; suggested nap duration is "@ + duration_debug_text(
                self.retry_time().nanos_view() as nat,
            ),
    {
        let mut message = String::from_str("rate limited; suggested nap duration is ");
        let nap = self.earliest_retry_time.as_duration();
        let text = duration_debug(&nap);
        message.append(text.as_str());
        message
    }

    /// The error's debugging text, which reads the same as its message.
    pub fn debug_text(&self) -> (r: String)
        ensures
            r@ == "rate limited; suggested nap duration is "@ + duration_debug_text(
                self.retry_time().nanos_view() as nat,
            ),
    {
        self.to_string()
    }
}

impl ExceededBurstCapacity {
    /// The error's message.
    pub fn to_string(&self) -> (r: String)
        ensures
            r@ == "borrowing more than the total burst capacity is not permitted"@,
    {
        String::from_str("borrowing more than the total burst capacity is not permitted")
    }

    /// The error's short debugging text.
    pub fn debug_text(&self) -> (r: String)
        ensures
            r@ == "exceeded burst capacity"@,
    {
        String::from_str("exceeded burst capacity")
    }
}

} // verus!
