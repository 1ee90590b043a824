use gardal::{LocalStorage, ManualClock, RateLimit, TokenBucket, NANOS_PER_SECOND, UNITS_PER_TOKEN};

fn units(n: i128) -> i128 {
    n * UNITS_PER_TOKEN as i128
}

fn bucket(rate: u32, burst: u32) -> TokenBucket<LocalStorage, ManualClock> {
    TokenBucket::<LocalStorage, _>::from_parts(
        RateLimit::per_second_and_burst(rate, burst),
        ManualClock::default(),
    )
}

#[test]
fn balance_never_exceeds_burst() {
    let tb = bucket(7, 3);
    assert_eq!(units(3), tb.balance_at(u64::MAX));
    assert_eq!(units(3), tb.balance_at(NANOS_PER_SECOND));
}

#[test]
fn refill_is_monotone_and_bounded_by_rate() {
    let tb = bucket(4, 100);
    let earlier = tb.balance_at(NANOS_PER_SECOND);
    let later = tb.balance_at(3 * NANOS_PER_SECOND);
    assert!(earlier <= later);
    assert_eq!(earlier + units(8), later);
}

#[test]
fn exact_consumption_all_or_nothing() {
    let mut tb = bucket(2, 10);
    let now = 2 * NANOS_PER_SECOND;
    assert!(tb.consume_at(5, now).is_none());
    assert_eq!(units(4), tb.balance_at(now));
    assert_eq!(4, tb.consume_at(4, now).unwrap().as_u64());
    assert_eq!(0, tb.balance_at(now));
}

#[test]
fn returning_consumed_tokens_restores_balance() {
    let mut tb = bucket(2, 10);
    let now = 3 * NANOS_PER_SECOND;
    let before = tb.balance_at(now);
    let taken = tb.consume_at(5, now).unwrap();
    tb.add_tokens(taken.as_units());
    assert_eq!(before, tb.balance_at(now));
}

#[test]
fn saturating_consumption_drains_without_debt() {
    let mut tb = bucket(2, 10);
    let now = NANOS_PER_SECOND;
    assert_eq!(2, tb.saturating_consume_at(9, now).unwrap().as_u64());
    assert_eq!(0, tb.balance_at(now));
    assert!(tb.saturating_consume_at(1, now).is_none());
    assert_eq!(0, tb.balance_at(now));
}

#[test]
fn added_tokens_capped_by_burst() {
    let mut tb = bucket(1, 5);
    let now = 2 * NANOS_PER_SECOND;
    tb.add_tokens(units(2) as u128);
    assert_eq!(units(4), tb.balance_at(now));
    tb.add_tokens(units(2) as u128);
    assert_eq!(units(5), tb.balance_at(now));
}

#[test]
fn retry_wait_is_tight() {
    let mut tb = bucket(5, 10);
    let now = NANOS_PER_SECOND / 5;
    // one token there, four missing at five per second
    let wait = tb.try_consume_at(5, now).err().unwrap().earliest_retry_after_nanos().as_nanos();
    assert_eq!(800_000_000, wait);
    assert!(tb.balance_at(now + wait - 1) < units(5));
    assert_eq!(units(5), tb.balance_at(now + wait));
    assert_eq!(5, tb.try_consume_at(5, now + wait).unwrap().as_u64());
}

#[test]
fn borrowing_lowers_balance_by_amount() {
    let mut tb = bucket(2, 10);
    let now = NANOS_PER_SECOND;
    assert_eq!(units(2), tb.balance_at(now));
    tb.consume_with_borrow_at(7, now).unwrap();
    assert_eq!(units(-5), tb.balance_at(now));
}

#[test]
fn debt_is_paid_after_the_wait() {
    let mut tb = bucket(2, 10);
    let now = NANOS_PER_SECOND;
    let wait = tb.consume_with_borrow_at(7, now).unwrap().unwrap().as_nanos();
    assert_eq!(5 * NANOS_PER_SECOND / 2, wait);
    assert!(tb.balance_at(now + wait - 1) < 0);
    assert_eq!(0, tb.balance_at(now + wait));
}

#[test]
fn reset_preserves_available_tokens() {
    let mut tb = bucket(10, 20);
    let now = NANOS_PER_SECOND;
    tb.reset_at(RateLimit::per_second_and_burst(1, 50), now);
    assert_eq!(units(10), tb.balance_at(now));
    assert_eq!(units(11), tb.balance_at(now + NANOS_PER_SECOND));
    let tb = tb.update_limit_at(RateLimit::per_second_and_burst(3, 4), now);
    assert_eq!(units(4), tb.available_at(now));
}

#[test]
fn borrowing_accumulates() {
    let mut tb = bucket(1, 10);
    let now = 0;
    tb.consume_with_borrow_at(3, now).unwrap();
    tb.consume_with_borrow_at(4, now).unwrap();
    assert_eq!(units(-7), tb.balance_at(now));
    assert_eq!(0, tb.available_at(now));
}

#[test]
fn capped_borrow_takes_at_most_the_burst() {
    let mut tb = bucket(1, 3);
    let (taken, wait) = tb.saturating_consume_with_borrow_at(8, 0);
    assert_eq!(3, taken.unwrap().as_u64());
    assert_eq!(std::time::Duration::from_secs(3), wait);
    assert_eq!(units(-3), tb.balance_at(0));
}

#[test]
fn returning_a_borrow_restores_balance() {
    let mut tb = bucket(2, 10);
    let now = NANOS_PER_SECOND;
    let before = tb.balance_at(now);
    tb.consume_with_borrow_at(6, now).unwrap();
    assert_eq!(before - units(6), tb.balance_at(now));
    tb.add_tokens(units(6) as u128);
    assert_eq!(before, tb.balance_at(now));
}
