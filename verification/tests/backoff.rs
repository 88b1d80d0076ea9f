use gotify_desktop::backoff::{FIRST_DELAY, MAX_DELAY, Retry};

#[test]
fn first_waits_in_milliseconds() {
    let mut retry = Retry::new();
    let mut millis = Vec::new();
    for _ in 0..4 {
        millis.push(retry.after_attempt(false).unwrap() / 1_000_000);
    }
    assert_eq!(millis, vec![250, 375, 562, 843]);
}

#[test]
fn waits_grow_by_half_up_to_a_minute() {
    let mut retry = Retry::new();
    let expected: [u64; 16] = [
        250_000_000,
        375_000_000,
        562_500_000,
        843_750_000,
        1_265_625_000,
        1_898_437_500,
        2_847_656_250,
        4_271_484_375,
        6_407_226_562,
        9_610_839_843,
        14_416_259_765,
        21_624_389_648,
        32_436_584_472,
        48_654_876_708,
        60_000_000_000,
        60_000_000_000,
    ];
    for wait in expected {
        assert_eq!(retry.after_attempt(false), Some(wait));
    }
}

#[test]
fn wait_stays_at_a_minute() {
    let mut retry = Retry::new();
    for _ in 0..14 {
        assert!(retry.after_attempt(false).unwrap() < MAX_DELAY);
    }
    for _ in 0..1000 {
        assert_eq!(retry.after_attempt(false), Some(MAX_DELAY));
    }
}

#[test]
fn success_at_once_needs_no_wait() {
    let mut retry = Retry::new();
    assert_eq!(retry.after_attempt(true), None);
}

#[test]
fn success_after_failures_needs_no_wait() {
    let mut retry = Retry::new();
    assert_eq!(retry.after_attempt(false), Some(FIRST_DELAY));
    assert_eq!(retry.after_attempt(false), Some(375_000_000));
    assert_eq!(retry.after_attempt(true), None);
    assert_eq!(retry.after_attempt(false), Some(562_500_000));
}

#[test]
fn a_new_schedule_starts_over() {
    let mut retry = Retry::new();
    retry.after_attempt(false);
    retry.after_attempt(false);
    let mut again = Retry::new();
    assert_eq!(again.after_attempt(false), Some(250_000_000));
}
