//! Properties of the token bucket that span operations or moments in time.
//!
//! Every law is stated over the spec functions that the bucket's operations
//! use in their own contracts, so each applies to the results of those calls.
use vstd::prelude::*;

use crate::bucket::{
    attempted_consumption, borrowing_consumption, capped_borrowing_consumption, exact_consumption,
    retry_wait, saturating_consumption, zero_after_borrow,
};
use crate::throttle::{lazy_acquisition, weighted_arrival, ItemVerdict, LazyAction};
use crate::bucket::TokenBucket;
use crate::clock::{Clock, Nanos, StdClock};
use crate::storage::TimeStorage;
use crate::time::duration_nanos;
use crate::storage::{bucket_balance, zero_time_for};
use crate::tokens::Tokens;
use crate::units::{
    clamp_zero_time, max_int, min_int, nanos_to_cover, UNITS_PER_TOKEN, ZERO_TIME_BOUND,
};

verus! {

/// Whole tokens survive the trip through [`Tokens`]: a value made by
/// `Tokens::new(v)` holds `v * UNITS_PER_TOKEN` units, whose whole tokens
/// (what `as_u64` reports) are `v` again.
pub proof fn law_tokens_round_trip(value: u64)
    requires
        value > 0,
    ensures
        (value * UNITS_PER_TOKEN) / (UNITS_PER_TOKEN as int) == value,
{
    assert((value * UNITS_PER_TOKEN) / (UNITS_PER_TOKEN as int) == value) by (nonlinear_arith);
}

/// The balance never exceeds the burst capacity, whatever the time.
pub proof fn law_balance_capped_by_burst(zero: int, rate: int, burst: int, now: int)
    ensures
        bucket_balance(zero, rate, burst, now) <= burst,
{
}

/// Left alone, a bucket only fills up: the balance later is at least the
/// balance earlier, and grows by at most `rate` units per nanosecond.
pub proof fn law_refill_over_time(zero: int, rate: int, burst: int, earlier: int, later: int)
    requires
        rate >= 0,
        earlier <= later,
    ensures
        bucket_balance(zero, rate, burst, earlier) <= bucket_balance(zero, rate, burst, later),
        bucket_balance(zero, rate, burst, later) <= bucket_balance(zero, rate, burst, earlier) + (later
            - earlier) * rate,
{
    assert(earlier * rate <= later * rate) by (nonlinear_arith)
        requires
            rate >= 0,
            earlier <= later,
    ;
    assert(later * rate == earlier * rate + (later - earlier) * rate) by (nonlinear_arith);
    assert((later - earlier) * rate >= 0) by (nonlinear_arith)
        requires
            rate >= 0,
            earlier <= later,
    ;
}

/// An exact consumption takes all it asks for exactly when the balance covers
/// it, lowering the balance by that much; otherwise it leaves the bucket as it was.
pub proof fn law_exact_consumption(
    zero: int,
    rate: int,
    burst: int,
    now: int,
    want: int,
    new_zero: int,
    taken: int,
)
    requires
        exact_consumption(zero, rate, burst, now, want, new_zero, taken),
        want > 0,
    ensures
        taken != 0 <==> bucket_balance(zero, rate, burst, now) >= want,
        taken != 0 ==> taken == want && bucket_balance(new_zero, rate, burst, now) == bucket_balance(
            zero,
            rate,
            burst,
            now,
        ) - want,
        taken == 0 ==> new_zero == zero,
        bucket_balance(new_zero, rate, burst, now) >= 0 || taken == 0,
{
}

/// Returning what an exact consumption took restores the balance it was taken from.
pub proof fn law_return_restores_balance(
    zero: int,
    rate: int,
    burst: int,
    now: int,
    want: int,
    new_zero: int,
    taken: int,
)
    requires
        exact_consumption(zero, rate, burst, now, want, new_zero, taken),
        want > 0,
        taken != 0,
        -ZERO_TIME_BOUND <= new_zero - taken <= ZERO_TIME_BOUND,
    ensures
        bucket_balance(clamp_zero_time(new_zero - taken), rate, burst, now) == bucket_balance(
            zero,
            rate,
            burst,
            now,
        ),
{
}

/// A saturating consumption never takes more than was asked for or more than
/// the bucket holds, so it never puts the bucket into debt.
pub proof fn law_saturating_never_overdraws(
    zero: int,
    rate: int,
    burst: int,
    now: int,
    want: int,
    new_zero: int,
    taken: int,
)
    requires
        saturating_consumption(zero, rate, burst, now, want, new_zero, taken),
        want >= 0,
    ensures
        0 <= taken <= want,
        taken <= max_int(bucket_balance(zero, rate, burst, now), 0),
        taken != 0 ==> bucket_balance(new_zero, rate, burst, now) == bucket_balance(zero, rate, burst, now)
            - taken >= 0,
        taken == 0 ==> new_zero == zero,
        0 < want && bucket_balance(zero, rate, burst, now) < want && taken != 0 ==> bucket_balance(
            new_zero,
            rate,
            burst,
            now,
        ) == 0,
        0 < want ==> (taken == 0 <==> bucket_balance(zero, rate, burst, now) < UNITS_PER_TOKEN),
{
}

/// Adding tokens raises the balance by that much, but never above the burst
/// capacity: the bucket cannot overflow.
pub proof fn law_added_tokens_capped_by_burst(
    zero: int,
    rate: int,
    burst: int,
    now: int,
    tokens: int,
)
    requires
        tokens >= 0,
        -ZERO_TIME_BOUND <= zero - tokens <= ZERO_TIME_BOUND,
    ensures
        bucket_balance(clamp_zero_time(zero - tokens), rate, burst, now) == min_int(
            bucket_balance(zero, rate, burst, now) + tokens,
            burst,
        ),
{
}

/// When a consumption is rate limited, the suggested wait is exactly long
/// enough: at every time from then on the requested tokens are there, at
/// every earlier time they are not (for requests within the burst capacity,
/// while the wait fits in a `u64` of nanoseconds, and while nothing else
/// touches the bucket).
pub proof fn law_retry_wait_is_tight(
    zero: int,
    rate: int,
    burst: int,
    now: int,
    want: int,
    new_zero: int,
    r: Result<Tokens, crate::error::RateLimited>,
)
    requires
        attempted_consumption(zero, rate, burst, now, want, new_zero, r),
        r is Err,
        rate >= 1,
        want <= burst,
        (zero - now * rate + want + rate - 1) / rate <= u64::MAX,
    ensures
        ({
            let wait = retry_wait(zero, rate, now, want);
            &&& wait >= 1
            &&& bucket_balance(zero, rate, burst, now + wait) >= want
            &&& bucket_balance(zero, rate, burst, now + wait - 1) < want
            &&& forall|t: int| #![trigger bucket_balance(zero, rate, burst, t)]
                t >= now + wait ==> bucket_balance(zero, rate, burst, t) >= want
            &&& forall|t: int| #![trigger bucket_balance(zero, rate, burst, t)]
                t < now + wait ==> bucket_balance(zero, rate, burst, t) < want
        }),
{
    let missing = zero - now * rate + want;
    let wait = retry_wait(zero, rate, now, want);
    assert(missing > 0);
    assert(wait == (missing + rate - 1) / rate);
    assert(wait * rate >= missing && (wait - 1) * rate < missing && wait >= 1) by (nonlinear_arith)
        requires
            wait == (missing + rate - 1) / rate,
            missing > 0,
            rate >= 1,
    ;
    assert((now + wait) * rate == now * rate + wait * rate) by (nonlinear_arith);
    assert((now + wait - 1) * rate == now * rate + (wait - 1) * rate) by (nonlinear_arith);
    assert forall|t: int| #![trigger bucket_balance(zero, rate, burst, t)]
        t >= now + wait implies bucket_balance(zero, rate, burst, t) >= want by {
        assert(t * rate >= (now + wait) * rate) by (nonlinear_arith)
            requires
                t >= now + wait,
                rate >= 1,
        ;
    }
    assert forall|t: int| #![trigger bucket_balance(zero, rate, burst, t)]
        t < now + wait implies bucket_balance(zero, rate, burst, t) < want by {
        assert(t * rate <= (now + wait - 1) * rate) by (nonlinear_arith)
            requires
                t < now + wait,
                rate >= 1,
        ;
    }
}

/// A borrowing consumption lowers the balance by exactly the amount consumed,
/// going into debt for what the balance lacked (while the debt stays representable).
pub proof fn law_borrow_lowers_balance(
    zero: int,
    rate: int,
    burst: int,
    now: int,
    want: int,
    new_zero: int,
    wait: Option<Nanos>,
)
    requires
        borrowing_consumption(zero, rate, burst, now, want, new_zero, wait),
        0 < want <= burst,
        -ZERO_TIME_BOUND <= zero_time_for(bucket_balance(zero, rate, burst, now) - want, rate, now)
            <= ZERO_TIME_BOUND,
    ensures
        bucket_balance(new_zero, rate, burst, now) == bucket_balance(zero, rate, burst, now) - want,
        wait is None <==> bucket_balance(zero, rate, burst, now) >= want,
        wait matches Some(n) ==> n.nanos_view() == nanos_to_cover(
            want - bucket_balance(zero, rate, burst, now),
            rate,
        ),
{
}

/// A borrowing consumption capped at the burst capacity consumes the capped
/// amount: the balance drops by it, tokens are handed out (with the wait,
/// rounded up to whole nanoseconds, until the debt is paid) exactly when the
/// balance did not cover it, and otherwise nothing is handed out and there
/// is no wait (while the debt stays representable).
pub proof fn law_capped_borrow(
    zero: int,
    rate: int,
    burst: int,
    now: int,
    want: int,
    new_zero: int,
    taken: Option<Tokens>,
    wait_nanos: int,
)
    requires
        capped_borrowing_consumption(zero, rate, burst, now, want, new_zero, taken, wait_nanos),
        0 < want,
        0 < burst,
        -ZERO_TIME_BOUND <= zero_time_for(
            bucket_balance(zero, rate, burst, now) - min_int(want, burst),
            rate,
            now,
        ) <= ZERO_TIME_BOUND,
    ensures
        ({
            let capped = min_int(want, burst);
            let balance = bucket_balance(zero, rate, burst, now);
            &&& capped <= burst
            &&& bucket_balance(new_zero, rate, burst, now) == balance - capped
            &&& (taken is None <==> balance >= capped)
            &&& (taken is None ==> wait_nanos == 0)
            &&& (taken matches Some(t) ==> t.units_view() == capped && wait_nanos
                == nanos_to_cover(capped - balance, rate))
        }),
{
}

/// Giving back what was borrowed restores the zero time (while both steps
/// stay within the representable range).
pub proof fn law_return_undoes_borrow(zero: int, tokens: int)
    requires
        -ZERO_TIME_BOUND <= zero <= ZERO_TIME_BOUND,
        -ZERO_TIME_BOUND <= zero + tokens <= ZERO_TIME_BOUND,
    ensures
        clamp_zero_time(clamp_zero_time(zero - (-tokens)) - tokens) == zero,
{
}

/// An item of a weighted stream reaches the consumer exactly once and costs
/// exactly its weight: it is either delivered at once or held (and handed
/// back unchanged when its delay has passed), the balance drops by its weight,
/// and it is held exactly when the balance did not cover it (while the debt
/// stays representable).
pub proof fn law_weighted_item_costs_its_weight<T>(
    zero: int,
    rate: int,
    burst: int,
    now: int,
    item: T,
    weight: int,
    new_zero: int,
    verdict: ItemVerdict<T>,
    held: Option<T>,
)
    requires
        weighted_arrival(zero, rate, burst, now, item, weight, new_zero, verdict, held),
        0 < weight * UNITS_PER_TOKEN <= burst,
        -ZERO_TIME_BOUND <= zero_time_for(
            bucket_balance(zero, rate, burst, now) - weight * UNITS_PER_TOKEN,
            rate,
            now,
        ) <= ZERO_TIME_BOUND,
    ensures
        bucket_balance(new_zero, rate, burst, now) == bucket_balance(zero, rate, burst, now)
            - weight * UNITS_PER_TOKEN,
        verdict matches ItemVerdict::Deliver(i) ==> i == item && held is None,
        verdict is Delay ==> held == Some(item),
        verdict is Delay <==> bucket_balance(zero, rate, burst, now) < weight * UNITS_PER_TOKEN,
{
}

/// After borrowing, the suggested wait is exactly the time the debt takes to be
/// paid off: then the balance is back to zero or more, one nanosecond earlier
/// it is still negative (while the debt stays representable and the wait fits
/// in a `u64` of nanoseconds).
pub proof fn law_debt_paid_after_wait(
    zero: int,
    rate: int,
    burst: int,
    now: int,
    want: int,
    new_zero: int,
    wait: Option<Nanos>,
)
    requires
        borrowing_consumption(zero, rate, burst, now, want, new_zero, wait),
        wait is Some,
        rate >= 1,
        0 < want <= burst,
        -ZERO_TIME_BOUND <= zero_time_for(bucket_balance(zero, rate, burst, now) - want, rate, now)
            <= ZERO_TIME_BOUND,
        (want - bucket_balance(zero, rate, burst, now) + rate - 1) / rate <= u64::MAX,
    ensures
        ({
            let n = wait.unwrap().nanos_view();
            &&& n >= 1
            &&& bucket_balance(new_zero, rate, burst, now + n) >= 0
            &&& bucket_balance(new_zero, rate, burst, now + n - 1) < 0
        }),
{
    let debt = new_zero - now * rate;
    let n = wait.unwrap().nanos_view();
    assert(debt > 0);
    assert(n == (debt + rate - 1) / rate);
    assert(n * rate >= debt && (n - 1) * rate < debt && n >= 1) by (nonlinear_arith)
        requires
            n == (debt + rate - 1) / rate,
            debt > 0,
            rate >= 1,
    ;
    assert((now + n) * rate == now * rate + n * rate) by (nonlinear_arith);
    assert((now + n - 1) * rate == now * rate + (n - 1) * rate) by (nonlinear_arith);
}

/// The time `time_when_bucket` reports for a target within the burst capacity
/// is exactly when that many units are there: at that time the balance equals
/// the target, from then on it is at least the target, before it is less.
/// (Times are rate-scaled: time `t` nanoseconds stands for `t * rate`.)
pub proof fn law_time_when_bucket(zero: int, rate: int, burst: int, target: int, moment: int)
    requires
        0 <= target <= burst,
        moment == zero + target,
    ensures
        forall|t: int| #![trigger bucket_balance(zero, rate, burst, t)]
            t * rate == moment ==> bucket_balance(zero, rate, burst, t) == target,
        forall|t: int| #![trigger bucket_balance(zero, rate, burst, t)]
            t * rate >= moment ==> bucket_balance(zero, rate, burst, t) >= target,
        forall|t: int| #![trigger bucket_balance(zero, rate, burst, t)]
            t * rate < moment ==> bucket_balance(zero, rate, burst, t) < target,
{
}

/// Changing the rate limit keeps the tokens that were available (up to the new
/// burst capacity); a debt is forgiven.
pub proof fn law_reset_preserves_available(
    zero: int,
    rate: int,
    burst: int,
    new_rate: int,
    new_burst: int,
    now: int,
)
    ensures
        ({
            let available = max_int(bucket_balance(zero, rate, burst, now), 0);
            bucket_balance(zero_time_for(available, new_rate, now), new_rate, new_burst, now)
                == min_int(available, new_burst)
        }),
{
}

/// Borrowing with the same request twice in a row at one moment is the same as
/// borrowing twice the amount: debts add up (while they stay representable).
pub proof fn law_borrowing_accumulates(
    zero: int,
    rate: int,
    burst: int,
    now: int,
    first: int,
    second: int,
)
    requires
        0 < first <= burst,
        0 < second <= burst,
        -ZERO_TIME_BOUND <= zero_time_for(bucket_balance(zero, rate, burst, now) - first, rate, now)
            <= ZERO_TIME_BOUND,
        -ZERO_TIME_BOUND <= zero_time_for(
            bucket_balance(zero, rate, burst, now) - first - second,
            rate,
            now,
        ) <= ZERO_TIME_BOUND,
    ensures
        bucket_balance(
            zero_after_borrow(
                zero_after_borrow(zero, rate, burst, now, first),
                rate,
                burst,
                now,
                second,
            ),
            rate,
            burst,
            now,
        ) == bucket_balance(zero, rate, burst, now) - first - second,
{
}


/// A consumption decided at a reading of the bucket's clock takes the request
/// exactly when the bucket held it at that reading, lowering the balance then
/// by the request, and otherwise leaves the bucket alone. So when every time
/// the clock may report finds the request covered, it is taken, and when none
/// does, nothing is.
pub proof fn law_consume_at_clock_reading<C: Clock>(
    clock: C,
    zero: int,
    rate: int,
    burst: int,
    want: int,
    new_zero: int,
    taken: int,
)
    requires
        want > 0,
        exists|now: u64| clock.reads(now) && #[trigger] exact_consumption(zero, rate, burst, now as int, want, new_zero, taken),
    ensures
        exists|t: u64|
            #![trigger bucket_balance(zero, rate, burst, t as int)]
            clock.reads(t) && (taken != 0 <==> bucket_balance(zero, rate, burst, t as int) >= want) && (
            taken != 0 ==> taken == want && bucket_balance(new_zero, rate, burst, t as int)
                == bucket_balance(zero, rate, burst, t as int) - want) && (taken == 0 ==> new_zero
                == zero),
        (forall|t: u64| clock.reads(t) ==> bucket_balance(zero, rate, burst, t as int) >= want) ==> taken
            == want,
        (forall|t: u64| clock.reads(t) ==> bucket_balance(zero, rate, burst, t as int) < want) ==> taken
            == 0 && new_zero == zero,
{
    let now = choose|now: u64| clock.reads(now) && #[trigger] exact_consumption(zero, rate, burst, now as int, want, new_zero, taken);
    assert(bucket_balance(zero, rate, burst, now as int) == bucket_balance(zero, rate, burst, now as int));
}

/// An attempt decided at a reading of the bucket's clock succeeds, taking the
/// request, exactly when the bucket held it at that reading; when it fails the
/// bucket is left alone and the suggested wait is counted from that reading.
/// So when every time the clock may report finds the request covered the
/// attempt succeeds, and when none does it fails.
pub proof fn law_try_consume_at_clock_reading<C: Clock>(
    clock: C,
    zero: int,
    rate: int,
    burst: int,
    want: int,
    new_zero: int,
    r: Result<Tokens, crate::error::RateLimited>,
)
    requires
        exists|now: u64| clock.reads(now) && #[trigger] attempted_consumption(zero, rate, burst, now as int, want, new_zero, r),
    ensures
        exists|t: u64|
            #![trigger bucket_balance(zero, rate, burst, t as int)]
            clock.reads(t) && (r is Ok <==> bucket_balance(zero, rate, burst, t as int) >= want) && (
            r matches Ok(tokens) ==> tokens.units_view() == want) && (r matches Err(e) ==> new_zero
                == zero && e.retry_time().nanos_view() == retry_wait(zero, rate, t as int, want)),
        (forall|t: u64| clock.reads(t) ==> bucket_balance(zero, rate, burst, t as int) >= want) ==> r is Ok,
        (forall|t: u64| clock.reads(t) ==> bucket_balance(zero, rate, burst, t as int) < want) ==> r is Err
            && new_zero == zero,
{
    let now = choose|now: u64| clock.reads(now) && #[trigger] attempted_consumption(zero, rate, burst, now as int, want, new_zero, r);
    assert(bucket_balance(zero, rate, burst, now as int) == bucket_balance(zero, rate, burst, now as int));
}

/// The units reported available at a reading of the bucket's clock are the
/// balance at that reading, or zero in debt: never negative, at least any
/// lower bound and at most any upper bound that the balance has at every time
/// the clock may report.
pub proof fn law_available_at_clock_reading<C: Clock>(
    clock: C,
    zero: int,
    rate: int,
    burst: int,
    available: int,
    low: int,
    high: int,
)
    requires
        exists|now: u64| clock.reads(now) && available == max_int(#[trigger] bucket_balance(zero, rate, burst, now as int), 0),
    ensures
        available >= 0,
        available <= burst || burst < 0,
        (forall|t: u64| clock.reads(t) ==> bucket_balance(zero, rate, burst, t as int) >= low) ==> available >= low,
        (forall|t: u64| clock.reads(t) ==> bucket_balance(zero, rate, burst, t as int) <= high) ==> available <= max_int(high, 0),
{
}

/// A lazy stream's attempt decided at a reading of its bucket's clock polls the
/// inner stream, having taken one token, exactly when the bucket held a token
/// at that reading, and otherwise leaves the bucket alone and waits; it never
/// reports the end. So when every time the clock may report finds a token the
/// stream is polled, and when none does it waits.
pub proof fn law_lazy_acquire_at_clock_reading<ST: TimeStorage, C: Clock>(
    before: TokenBucket<ST, C>,
    after: TokenBucket<ST, C>,
    r: LazyAction,
)
    requires
        exists|now: u64| before.clock_view().reads(now) && #[trigger] lazy_acquisition(before, after, now as int, r),
    ensures
        r !is Finished,
        exists|t: u64|
            #![trigger before.balance_view(t as int)]
            before.clock_view().reads(t) && (r is PollStream <==> before.balance_view(t as int)
                >= UNITS_PER_TOKEN) && (r is PollStream ==> after.zero_time() == zero_time_for(
                before.balance_view(t as int) - UNITS_PER_TOKEN,
                before.rate(),
                t as int,
            )) && (r is Wait ==> after.zero_time() == before.zero_time()),
        (forall|t: u64| before.clock_view().reads(t) ==> before.balance_view(t as int) >= UNITS_PER_TOKEN)
            ==> r is PollStream,
        (forall|t: u64| before.clock_view().reads(t) ==> before.balance_view(t as int) < UNITS_PER_TOKEN)
            ==> r is Wait && after.zero_time() == before.zero_time(),
{
    let now = choose|now: u64| before.clock_view().reads(now) && #[trigger] lazy_acquisition(before, after, now as int, r);
    assert(before.balance_view(now as int) == before.balance_view(now as int));
}

/// A reading of the standard clock is the whole nanoseconds of an elapsed
/// `Duration`: that duration's nanoseconds exactly, or `u64::MAX` when there
/// are more of them than a `u64` holds.
pub proof fn law_std_clock_reads_elapsed_nanos(clock: StdClock, t: u64)
    requires
        clock.reads(t),
    ensures
        exists|elapsed: std::time::Duration|
            #![trigger duration_nanos(elapsed)]
            duration_nanos(elapsed) == t || (t == u64::MAX && duration_nanos(elapsed) >= u64::MAX),
{
    let elapsed = choose|elapsed: std::time::Duration| #[trigger] crate::time::saturated_nanos(elapsed) == t;
    assert(duration_nanos(elapsed) == t || (t == u64::MAX && duration_nanos(elapsed) >= u64::MAX));
}

} // verus!
