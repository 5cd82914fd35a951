use portal_session::clock::{
    is_ping_due, seconds_between, seconds_since, tick_is_due, time_until_tick, PING_INTERVAL,
    TICK_RATE,
};

#[test]
fn ping_interval_is_fifty_seconds() {
    assert_eq!(PING_INTERVAL, 50);
}

#[test]
fn tick_rate_is_one_second() {
    assert_eq!(TICK_RATE, 1000);
}

#[test]
fn seconds_between_subtracts() {
    assert_eq!(seconds_between(100, 40), 60);
    assert_eq!(seconds_between(40, 100), -60);
    assert_eq!(seconds_between(-5, -5), 0);
    assert_eq!(seconds_between(i64::MAX, 0), i64::MAX);
    assert_eq!(seconds_between(i64::MIN, 0), i64::MIN);
}

#[test]
fn seconds_between_clips_where_the_difference_does_not_fit() {
    assert_eq!(seconds_between(i64::MAX, -1), i64::MAX);
    assert_eq!(seconds_between(i64::MAX, i64::MIN), i64::MAX);
    assert_eq!(seconds_between(i64::MIN, 1), i64::MIN);
    assert_eq!(seconds_between(i64::MIN, i64::MAX), i64::MIN);
    assert_eq!(seconds_between(-2, i64::MAX), i64::MIN);
}

#[test]
fn seconds_since_needs_a_time() {
    assert_eq!(seconds_since(100, None), None);
    assert_eq!(seconds_since(100, Some(30)), Some(70));
    assert_eq!(seconds_since(100, Some(130)), Some(-30));
}

#[test]
fn ping_is_due_from_the_interval_on() {
    let now = 1_700_000_000;
    assert!(!is_ping_due(now, Some(now - 49), 50));
    assert!(is_ping_due(now, Some(now - 50), 50));
    assert!(is_ping_due(now, Some(now - 51), 50));
    assert!(!is_ping_due(now, Some(now), 50));
    assert!(!is_ping_due(now, Some(now + 10), 50));
}

#[test]
fn ping_is_not_due_without_an_attempt() {
    assert!(!is_ping_due(0, None, 50));
    assert!(!is_ping_due(i64::MAX, None, 0));
}

#[test]
fn ping_due_survives_extreme_times() {
    assert!(is_ping_due(i64::MAX, Some(i64::MIN), 50));
    assert!(is_ping_due(i64::MAX, Some(i64::MIN), i64::MAX));
    assert!(!is_ping_due(i64::MIN, Some(i64::MAX), 50));
    assert!(!is_ping_due(i64::MIN, Some(i64::MAX), i64::MIN));
    assert!(is_ping_due(0, Some(0), 0));
    assert!(is_ping_due(-3, Some(0), -3));
    assert!(!is_ping_due(-4, Some(0), -3));
}

#[test]
fn time_until_tick_is_the_rest_of_the_tick() {
    assert_eq!(time_until_tick(0), 1000);
    assert_eq!(time_until_tick(1), 999);
    assert_eq!(time_until_tick(999), 1);
    assert_eq!(time_until_tick(1000), 0);
    assert_eq!(time_until_tick(1001), 0);
    assert_eq!(time_until_tick(u64::MAX), 0);
}

#[test]
fn tick_is_due_after_one_second() {
    assert!(!tick_is_due(0));
    assert!(!tick_is_due(999));
    assert!(tick_is_due(1000));
    assert!(tick_is_due(u64::MAX));
}
