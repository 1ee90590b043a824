use std::sync::Arc;
use std::time::Duration;

use gardal::{
    ExceededBurstCapacity, LocalStorage, ManualClock, RateLimit, TokenBucket, NANOS_PER_SECOND,
    UNITS_PER_TOKEN,
};

/// Whole tokens, in token units.
fn tokens(n: i128) -> i128 {
    n * UNITS_PER_TOKEN as i128
}

/// Whole seconds, in nanoseconds.
fn secs(n: u64) -> u64 {
    n * NANOS_PER_SECOND
}

#[test]
fn basics() {
    let clock = Arc::new(ManualClock::default());
    // initially, the bucket is empty
    let limit = RateLimit::per_second_and_burst(10, 20);
    let mut tb = TokenBucket::with_clock(limit, Arc::clone(&clock));
    // initially empty
    assert!(tb.consume(1).is_none());
    // one seconds later, the bucket is filled up by 10 tokens/s with burst capacity of 20
    // so we should see 10
    clock.advance(secs(1));
    assert_eq!(tokens(10), tb.available());
    assert_eq!(tb.balance(), tb.available());
    // one second later
    clock.advance(secs(1));
    // after two seconds bucket should be full
    assert_eq!(tokens(20), tb.available());
    assert_eq!(tb.balance(), tb.available());
    // another second wouldn't matter, we have accumulated the burst capacity (bucket is full)
    clock.advance(secs(1));
    assert_eq!(tokens(20), tb.available());
    assert_eq!(tb.balance(), tb.available());

    assert!(tb.consume(5).is_some());
    assert_eq!(tb.balance(), tb.available());
    assert_eq!(tokens(15), tb.available());
}

#[test]
fn basics_dynamic() {
    let clock = Arc::new(ManualClock::default());
    // initially, the bucket is empty
    let limit = RateLimit::per_second_and_burst(10, 20);
    let mut tb = TokenBucket::with_clock(limit, Arc::clone(&clock));
    // initially empty
    assert!(tb.consume(1).is_none());
    // one seconds later, the bucket is filled up by 10 tokens/s with burst capacity of 20
    // so we should see 10
    clock.advance(secs(1));
    assert_eq!(tokens(10), tb.available());
    assert_eq!(tb.balance(), tb.available());
    // change the rate, burst, and reset the available tokens in the bucket
    tb.reset(RateLimit::per_second_and_burst(1, 50));
    assert_eq!(tokens(10), tb.available());
    assert_eq!(tokens(10), tb.balance());
    assert_eq!(UNITS_PER_TOKEN, tb.limit().rate_per_second());
    assert_eq!(50, tb.limit().burst());
    clock.advance(secs(1));
    assert_eq!(tokens(11), tb.available());
    assert_eq!(tb.balance(), tb.available());
}

#[test]
fn fractional() {
    let clock = Arc::new(ManualClock::default());
    // initially, the bucket is empty
    let limit = RateLimit::per_minute(30).with_burst(20);
    let mut tb = TokenBucket::with_clock(limit, Arc::clone(&clock));
    // initially empty
    assert!(tb.consume(1).is_none());
    // two seconds later
    clock.advance(secs(2));
    assert_eq!(tokens(1), tb.available());
    assert_eq!(tb.balance(), tb.available());
    clock.set(secs(20));
    assert_eq!(tokens(10), tb.available());
    clock.set(secs(40));
    assert_eq!(tokens(20), tb.available());
    clock.set(secs(50));
    assert_eq!(tokens(20), tb.available());
    assert_eq!(tb.balance(), tb.available());

    let consumed = tb.consume(20);
    assert!(consumed.is_some());
    assert_eq!(20, consumed.unwrap().as_u64());
    assert_eq!(tb.balance(), tb.available());
    assert_eq!(0, tb.available());

    clock.set(secs(53));
    // one and a half tokens
    assert_eq!(tokens(3) / 2, tb.available());
}

#[test]
fn saturating_consume() {
    let clock = Arc::new(ManualClock::default());
    let limit = RateLimit::per_second_and_burst(5, 10);
    let mut tb = TokenBucket::with_clock(limit, Arc::clone(&clock));
    clock.set(secs(1));
    // after one second, we have 5 tokens available, so that's what we can consume, but we can
    // use saturating consume when requesting more than we can
    let drained = tb.saturating_consume(8);
    assert_eq!(drained.unwrap().as_u64(), 5);
    assert_eq!(0, tb.available());
    assert_eq!(tb.balance(), tb.available());
    let drained = tb.saturating_consume(1);
    assert!(drained.is_none());
    assert_eq!(0, tb.available());
    assert_eq!(tb.balance(), tb.available());
}

#[test]
fn wait_to_consume() {
    let clock = Arc::new(ManualClock::default());
    let limit = RateLimit::per_minute(30).with_burst(10);
    let mut tb = TokenBucket::with_clock(limit, Arc::clone(&clock));
    // at t=0 bucket empty; borrow 5 tokens should require waiting for 10.0 seconds. Note that
    // we didn't consume anything as a result.
    match tb.try_consume(5) {
        Ok(_) => panic!("should not be able to consume"),
        Err(rate_limited) => {
            assert_eq!(secs(10), rate_limited.earliest_retry_after_nanos().as_nanos());
        }
    }
}

#[test]
fn borrow_future() {
    let clock = Arc::new(ManualClock::default());
    let limit = RateLimit::per_minute(30).with_burst(10);
    let mut tb = TokenBucket::with_clock(limit, Arc::clone(&clock));
    // at t=0 bucket empty; borrow 5 tokens should require waiting for 10.0 seconds
    let maybe_wait = tb.consume_with_borrow(5);
    assert_eq!(secs(10), maybe_wait.unwrap().unwrap().as_nanos());
    assert_eq!(0, tb.available());
    // balance is negative because we borrowed 5 from the future already. We are in debt!
    assert_eq!(tokens(-5), tb.balance());
    // at t=3, we have accumulated 1.5 tokens, but remember that we borrowed 5 tokens already, so
    // we can't consume anything, our balance though goes to -3.5
    clock.set(secs(3));
    assert_eq!(0, tb.available());
    assert_eq!(tokens(-7) / 2, tb.balance());
    // can't consume anything
    assert!(tb.consume(1).is_none());
    assert_eq!(0, tb.available());
    assert_eq!(tokens(-7) / 2, tb.balance());
    // can we consume from the future again? yes, yes as long as we are borrowing less than
    // burst capacity.
    let maybe_wait = tb.consume_with_borrow(5);
    assert_eq!(0, tb.available());
    // balance is -3.5, we consume 5 more, it goes to -8.5
    assert_eq!(tokens(-17) / 2, tb.balance());
    // we need 17 seconds for the 8.5 tokens to be valid
    assert_eq!(secs(17), maybe_wait.unwrap().unwrap().as_nanos());
    // we can't borrow more than our burst capacity at a time
    assert!(tb.consume_with_borrow(11).is_err());
    assert_eq!(tokens(-17) / 2, tb.balance());
    // how far can we borrow from the future, but slowly?
    // indefinitely!
    let maybe_wait = tb.consume_with_borrow(5);
    assert_eq!(secs(27), maybe_wait.unwrap().unwrap().as_nanos());
    assert_eq!(0, tb.available());
    assert_eq!(tokens(-27) / 2, tb.balance());
    // but we can return the tokens we borrowed if we didn't use them
    tb.add_tokens(tokens(10) as u128);
    assert_eq!(0, tb.available());
    assert_eq!(tokens(-7) / 2, tb.balance());
    tb.add_tokens(tokens(8) as u128);
    assert_eq!(tokens(9) / 2, tb.available());
    assert_eq!(tokens(9) / 2, tb.balance());
    tb.add_tokens(tokens(100) as u128);
    // can we return more than burst capacity? Nope! the bucket can't overflow.
    assert_eq!(tokens(10), tb.available());
    assert_eq!(tokens(10), tb.balance());
}

#[test]
fn display_rate_limited() {
    let clock = Arc::new(ManualClock::default());
    let limit = RateLimit::per_minute(30).with_burst(10);
    let mut tb = TokenBucket::with_clock(limit, Arc::clone(&clock));
    // a wait of ten seconds
    let rl = tb.try_consume(5).err().unwrap();
    assert_eq!(
        "rate limited; suggested nap duration is 10s",
        rl.to_string()
    );
}

#[test]
fn debug_texts_of_the_errors() {
    let clock = Arc::new(ManualClock::default());
    let limit = RateLimit::per_minute(30).with_burst(10);
    let mut tb = TokenBucket::with_clock(limit, Arc::clone(&clock));
    let rl = tb.try_consume(5).err().unwrap();
    assert_eq!("rate limited; suggested nap duration is 10s", rl.debug_text());
    assert_eq!("exceeded burst capacity", ExceededBurstCapacity.debug_text());
}

#[test]
fn display_exceeded_burst_capacity() {
    let rl = ExceededBurstCapacity;
    assert_eq!(
        "borrowing more than the total burst capacity is not permitted",
        rl.to_string()
    );
}

#[test]
fn earliest_retry_after_is_a_duration() {
    let clock = Arc::new(ManualClock::default());
    let limit = RateLimit::per_minute(30).with_burst(10);
    let mut tb = TokenBucket::with_clock(limit, Arc::clone(&clock));
    let rl = tb.try_consume(5).err().unwrap();
    assert_eq!(Duration::from_secs(10), rl.earliest_retry_after());
    assert_eq!(Duration::from_secs(10), rl.earliest_retry_after_nanos().as_duration());
}

#[test]
fn consume_fails_without_change() {
    let clock = Arc::new(ManualClock::new(secs(1)));
    let limit = RateLimit::per_second_and_burst(4, 8);
    let mut tb = TokenBucket::with_clock(limit, Arc::clone(&clock));
    clock.advance(secs(1));
    assert_eq!(tokens(4), tb.balance());
    assert!(tb.consume(5).is_none());
    assert_eq!(tokens(4), tb.balance());
    assert_eq!(4, tb.consume(4).unwrap().as_u64());
    assert_eq!(0, tb.balance());
}

#[test]
fn consumed_tokens_returned_restore_balance() {
    let clock = Arc::new(ManualClock::default());
    let mut tb = TokenBucket::with_clock(RateLimit::per_second_and_burst(3, 6), Arc::clone(&clock));
    clock.set(secs(1));
    let before = tb.balance();
    let taken = tb.consume(2).unwrap();
    assert_eq!(before - tokens(2), tb.balance());
    tb.add_tokens(taken.as_units());
    assert_eq!(before, tb.balance());
}

#[test]
fn refill_is_linear_then_capped() {
    let clock = Arc::new(ManualClock::default());
    let tb = TokenBucket::with_clock(RateLimit::per_second_and_burst(2, 3), Arc::clone(&clock));
    clock.set(NANOS_PER_SECOND / 2);
    assert_eq!(tokens(1), tb.balance());
    clock.set(secs(1));
    assert_eq!(tokens(2), tb.balance());
    clock.set(secs(1) + NANOS_PER_SECOND / 2);
    assert_eq!(tokens(3), tb.balance());
    clock.set(secs(100));
    assert_eq!(tokens(3), tb.balance());
}

#[test]
fn try_consume_retry_wait_is_exact() {
    let clock = Arc::new(ManualClock::default());
    let mut tb = TokenBucket::with_clock(RateLimit::per_second_and_burst(4, 8), Arc::clone(&clock));
    clock.set(NANOS_PER_SECOND / 4);
    // one token is there, three more are needed: 0.75 s at 4 tokens per second
    let wait = tb.try_consume(4).err().unwrap().earliest_retry_after_nanos().as_nanos();
    assert_eq!(750_000_000, wait);
    clock.set(NANOS_PER_SECOND / 4 + wait - 1);
    assert!(tb.try_consume(4).is_err());
    clock.set(NANOS_PER_SECOND / 4 + wait);
    assert_eq!(4, tb.try_consume(4).unwrap().as_u64());
    assert!(tb.try_consume_one().is_err());
}

#[test]
fn retry_wait_rounds_up_to_whole_nanoseconds() {
    let clock = Arc::new(ManualClock::default());
    let mut tb = TokenBucket::with_clock(RateLimit::per_second(3), Arc::clone(&clock));
    // one third of a second is not a whole number of nanoseconds
    let wait = tb.try_consume(1).err().unwrap().earliest_retry_after_nanos().as_nanos();
    assert_eq!(333_333_334, wait);
}

#[test]
fn request_beyond_burst_never_succeeds() {
    let clock = Arc::new(ManualClock::default());
    let mut tb = TokenBucket::with_clock(RateLimit::per_second_and_burst(10, 20), Arc::clone(&clock));
    clock.set(secs(100));
    let rl = tb.try_consume(25).err().unwrap();
    assert_eq!(u64::MAX, rl.earliest_retry_after_nanos().as_nanos());
    assert!(tb.consume(25).is_none());
    assert_eq!(tokens(20), tb.balance());
}

#[test]
fn borrow_within_balance_needs_no_wait() {
    let clock = Arc::new(ManualClock::default());
    let mut tb = TokenBucket::with_clock(RateLimit::per_second_and_burst(10, 20), Arc::clone(&clock));
    clock.set(secs(1));
    assert!(tb.consume_with_borrow(10).unwrap().is_none());
    assert_eq!(0, tb.balance());
    // partly covered: 2 tokens there, 3 borrowed
    clock.set(secs(1) + NANOS_PER_SECOND / 5);
    let wait = tb.consume_with_borrow(5).unwrap().unwrap();
    assert_eq!(tokens(-3), tb.balance());
    assert_eq!(300_000_000, wait.as_nanos());
    // the debt is paid after the wait, not before
    clock.set(secs(1) + NANOS_PER_SECOND / 5 + wait.as_nanos() - 1);
    assert!(tb.balance() < 0);
    clock.set(secs(1) + NANOS_PER_SECOND / 5 + wait.as_nanos());
    assert_eq!(0, tb.balance());
}

#[test]
fn exceeded_burst_capacity_leaves_bucket_alone() {
    let clock = Arc::new(ManualClock::default());
    let mut tb = TokenBucket::with_clock(RateLimit::per_second_and_burst(1, 2), Arc::clone(&clock));
    clock.set(secs(5));
    let r: Result<_, ExceededBurstCapacity> = tb.consume_with_borrow(3);
    assert!(r.is_err());
    assert_eq!(tokens(2), tb.balance());
}

#[test]
fn saturating_consume_with_borrow_caps_at_burst() {
    let clock = Arc::new(ManualClock::default());
    let mut tb = TokenBucket::with_clock(RateLimit::per_second_and_burst(2, 4), Arc::clone(&clock));
    // empty bucket: ask for 10, capped to the burst of 4, all borrowed
    let (taken, wait) = tb.saturating_consume_with_borrow(10);
    assert_eq!(4, taken.unwrap().as_u64());
    assert_eq!(Duration::from_secs(2), wait);
    assert_eq!(tokens(-4), tb.balance());
    // a full bucket covers the request: nothing borrowed
    clock.set(secs(10));
    let (taken, wait) = tb.saturating_consume_with_borrow(3);
    assert!(taken.is_none());
    assert_eq!(Duration::ZERO, wait);
    assert_eq!(tokens(1), tb.balance());
}

#[test]
fn update_limit_keeps_available_tokens() {
    let clock = Arc::new(ManualClock::default());
    let tb = TokenBucket::with_clock(RateLimit::per_second_and_burst(10, 20), Arc::clone(&clock));
    clock.set(secs(1));
    let tb = tb.update_limit(RateLimit::per_second_and_burst(2, 5));
    // ten tokens were there, the new burst keeps five
    assert_eq!(tokens(5), tb.available());
    assert_eq!(2 * UNITS_PER_TOKEN, tb.limit().rate_per_second());
}

#[test]
fn reset_forgives_debt() {
    let clock = Arc::new(ManualClock::default());
    let mut tb = TokenBucket::with_clock(RateLimit::per_second_and_burst(1, 5), Arc::clone(&clock));
    tb.consume_with_borrow(5).unwrap();
    assert_eq!(tokens(-5), tb.balance());
    tb.reset(RateLimit::per_second_and_burst(1, 5));
    assert_eq!(0, tb.balance());
}

#[test]
fn from_parts_starts_empty_at_clock_origin() {
    let clock = Arc::new(ManualClock::new(secs(3)));
    let tb = TokenBucket::<LocalStorage, _>::from_parts(
        RateLimit::per_second_and_burst(1, 10),
        Arc::clone(&clock),
    );
    // zero time is the clock's origin, so three seconds' worth have accumulated
    assert_eq!(tokens(3), tb.balance());
}

#[test]
fn add_tokens_saturates_far_beyond_burst() {
    let clock = Arc::new(ManualClock::default());
    let mut tb = TokenBucket::with_clock(RateLimit::per_second_and_burst(1, 5), Arc::clone(&clock));
    tb.add_tokens(u128::MAX);
    assert_eq!(tokens(5), tb.balance());
    assert!(tb.consume(5).is_some());
    assert_eq!(0, tb.balance());
}

#[test]
fn default_clock_bucket_starts_nearly_empty() {
    let mut tb = TokenBucket::new(RateLimit::per_second_and_burst(1, 1000));
    // far less than a thousand seconds pass during this test
    assert!(tb.balance() < tokens(1000));
    assert!(tb.consume(1000).is_none());
}

#[test]
fn saturating_consume_takes_fractions_once_a_token_is_there() {
    let clock = Arc::new(ManualClock::default());
    let mut tb = TokenBucket::with_clock(RateLimit::per_second_and_burst(1, 10), Arc::clone(&clock));
    // half a token is there: not a whole one, so nothing is handed out
    clock.advance(NANOS_PER_SECOND / 2);
    assert!(tb.saturating_consume(1).is_none());
    assert_eq!(tokens(1) / 2, tb.balance());
    // two and a half tokens: all of it is taken, the half included
    clock.advance(2 * NANOS_PER_SECOND);
    let taken = tb.saturating_consume(5).unwrap();
    assert_eq!(2, taken.as_u64());
    assert_eq!((tokens(5) / 2) as u128, taken.as_units());
    assert_eq!(0, tb.balance());
}

#[test]
fn saturating_consume_caps_a_fractional_balance_at_the_request() {
    let clock = Arc::new(ManualClock::default());
    let mut tb = TokenBucket::with_clock(RateLimit::per_second_and_burst(2, 10), Arc::clone(&clock));
    // four and a half tokens, eight asked for: the bucket is drained
    clock.advance(2 * NANOS_PER_SECOND + NANOS_PER_SECOND / 4);
    let taken = tb.saturating_consume(8).unwrap();
    assert_eq!((tokens(9) / 2) as u128, taken.as_units());
    assert_eq!(0, tb.balance());
    // two and a half tokens, two asked for: the half stays
    clock.advance(NANOS_PER_SECOND + NANOS_PER_SECOND / 4);
    let taken = tb.saturating_consume(2).unwrap();
    assert_eq!(tokens(2) as u128, taken.as_units());
    assert_eq!(tokens(1) / 2, tb.balance());
}

#[test]
fn rate_limited_message_for_fractional_wait() {
    let clock = Arc::new(ManualClock::default());
    let mut tb = TokenBucket::with_clock(RateLimit::per_second_and_burst(2, 4), Arc::clone(&clock));
    let rl = tb.try_consume(1).err().unwrap();
    assert_eq!("rate limited; suggested nap duration is 500ms", rl.to_string());
}
