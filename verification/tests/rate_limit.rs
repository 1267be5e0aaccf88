//! Token buckets and the per-node rate limiter.

use snappipe::node::NodeId;
use snappipe::rate_limit::{
    RateLimiter, RateLimiterMetrics, TokenBucket, DEFAULT_RATE_PER_MIN, PARTS_PER_TOKEN,
};

/// One second, in the limiter's unit of time.
const SEC: i64 = 1_000_000_000;

fn node_a() -> NodeId {
    NodeId("node-a".to_string())
}

fn node_b() -> NodeId {
    NodeId("node-b".to_string())
}

#[test]
fn allows_burst_up_to_capacity_then_denies() {
    let mut limiter = RateLimiter::new(5); // 5 req/min -> 1 token / 12s
    let node = node_a();

    // 5 immediate attempts succeed (full bucket).
    for _ in 0..5 {
        assert!(limiter.try_consume(&node, 1_000 * SEC));
    }
    // 6th is denied.
    assert!(!limiter.try_consume(&node, 1_000 * SEC));
}

#[test]
fn refills_proportional_to_elapsed_time() {
    let mut limiter = RateLimiter::new(60); // 1 token per second
    let node = node_a();

    // Drain the bucket.
    for _ in 0..60 {
        assert!(limiter.try_consume(&node, 1_000 * SEC));
    }
    assert!(!limiter.try_consume(&node, 1_000 * SEC));

    // Half a second elapsed: 0.5 tokens accumulated, still not enough.
    assert!(!limiter.try_consume(&node, 1_000 * SEC + SEC / 2));

    // One full second elapsed: 1 token available.
    assert!(limiter.try_consume(&node, 1_001 * SEC));
    assert!(!limiter.try_consume(&node, 1_001 * SEC));
}

#[test]
fn per_node_override_retunes_capacity() {
    let mut limiter = RateLimiter::new(2);
    let node = node_a();

    // Drain at the default (capacity 2).
    assert!(limiter.try_consume(&node, 1_000 * SEC));
    assert!(limiter.try_consume(&node, 1_000 * SEC));
    assert!(!limiter.try_consume(&node, 1_000 * SEC));

    // Retune to a much larger budget and jump forward enough seconds
    // for the new bucket to fully refill to its new capacity.
    limiter.set_limit(&node, 10, 1_001 * SEC);
    let snap = limiter.snapshot(&node).expect("tracked");
    assert_eq!(snap.capacity, 10);
    assert!(snap.refill_per_sec > 0);

    // 10/min = 1 token per 6s. 60s of elapsed time fully refills the bucket.
    assert!(limiter.try_consume(&node, (1_001 + 60) * SEC));
    assert!(limiter.try_consume(&node, (1_001 + 60) * SEC));
}

#[test]
fn buckets_are_isolated_per_node() {
    let mut limiter = RateLimiter::new(2);
    let a = node_a();
    let b = node_b();

    assert!(limiter.try_consume(&a, 1_000 * SEC));
    assert!(limiter.try_consume(&a, 1_000 * SEC));
    assert!(!limiter.try_consume(&a, 1_000 * SEC));

    // `b` still has a full bucket.
    assert!(limiter.try_consume(&b, 1_000 * SEC));
    assert!(limiter.try_consume(&b, 1_000 * SEC));
    assert!(!limiter.try_consume(&b, 1_000 * SEC));

    assert_eq!(limiter.tracked_nodes(), 2);
}

#[test]
fn zero_default_clamps_to_fallback() {
    let limiter = RateLimiter::new(0);
    assert_eq!(limiter.default_per_min(), DEFAULT_RATE_PER_MIN);
}

#[test]
fn set_limit_zero_clamps_to_fallback() {
    // Per-node override of 0 must be clamped, not silently disabled.
    let mut limiter = RateLimiter::new(60);
    let node = node_a();

    limiter.set_limit(&node, 0, 1_000 * SEC);
    let snap = limiter.snapshot(&node).expect("tracked");
    assert_eq!(snap.capacity, DEFAULT_RATE_PER_MIN);
    // In sixtieths of a token per second.
    assert_eq!(snap.refill_per_sec, DEFAULT_RATE_PER_MIN);
}

#[test]
fn metrics_track_try_consume_allow_deny_outcomes() {
    let mut limiter = RateLimiter::new(5); // 5 req/min
    let node = node_a();

    // 5 allows + 2 denies in immediate succession.
    for _ in 0..5 {
        assert!(limiter.try_consume(&node, 1_000 * SEC));
    }
    assert!(!limiter.try_consume(&node, 1_000 * SEC));
    assert!(!limiter.try_consume(&node, 1_000 * SEC));

    limiter.set_limit(&node, 0, 1_000 * SEC); // counts as a set_limit call

    let m = limiter.metrics();
    assert_eq!(m.total_try_consume_calls, 7);
    assert_eq!(m.total_allowed, 5);
    assert_eq!(m.total_denied, 2);
    assert_eq!(m.total_set_limit_calls, 1);
    assert_eq!(m.tracked_nodes, 1);
}

#[test]
fn metrics_start_at_zero_and_add_up_over_many_nodes() {
    let mut limiter = RateLimiter::new(1_000);
    assert_eq!(limiter.metrics(), RateLimiterMetrics::default());
    for i in 0..50 {
        limiter.try_consume(&NodeId(format!("node-{i}")), 1_700_000_000 * SEC);
    }
    let m = limiter.metrics();
    assert_eq!(m.total_try_consume_calls, 50);
    assert_eq!(m.total_allowed + m.total_denied, 50);
    assert_eq!(m.total_set_limit_calls, 0);
    assert_eq!(m.tracked_nodes, 50);
}

#[test]
fn full_bucket_has_the_capacity_in_parts() {
    let bucket = TokenBucket::full(7, -3);
    assert_eq!(bucket.tokens, 7 * PARTS_PER_TOKEN);
    assert_eq!(bucket.last_refill_unix, -3);
    assert_eq!(bucket.capacity, 7);
    assert_eq!(bucket.refill_per_sec, 7);
}

#[test]
fn refill_credits_exactly_the_elapsed_time() {
    let mut bucket = TokenBucket::full(6, 0);
    for _ in 0..6 {
        assert!(bucket.try_consume(0));
    }
    assert_eq!(bucket.tokens, 0);
    // Six per minute for ten seconds is one token, to the nanosecond.
    assert_eq!(bucket.refill(10 * SEC - 1), PARTS_PER_TOKEN - 6);
    assert!(!bucket.try_consume(10 * SEC - 1));
    assert_eq!(bucket.refill(10 * SEC), PARTS_PER_TOKEN);
    assert!(bucket.try_consume(10 * SEC));
}

#[test]
fn refill_ignores_a_clock_that_runs_back() {
    let mut bucket = TokenBucket::full(2, 5 * SEC);
    assert!(bucket.try_consume(5 * SEC));
    let before = bucket;
    assert_eq!(bucket.refill(4 * SEC), before.tokens);
    assert_eq!(bucket, before);
}

#[test]
fn refill_stops_at_the_capacity() {
    let mut bucket = TokenBucket::full(3, 0);
    assert!(bucket.try_consume(0));
    assert_eq!(bucket.refill(60 * SEC), 3 * PARTS_PER_TOKEN);
    assert_eq!(bucket, TokenBucket::full(3, 60 * SEC));
    assert_eq!(bucket.refill(i64::MAX), 3 * PARTS_PER_TOKEN);
}

#[test]
fn refill_over_the_whole_range_of_the_clock() {
    let mut bucket = TokenBucket {
        tokens: u128::MAX,
        last_refill_unix: i64::MIN,
        capacity: u32::MAX,
        refill_per_sec: u32::MAX,
    };
    assert_eq!(bucket.refill(i64::MAX), u32::MAX as u128 * PARTS_PER_TOKEN);
}

#[test]
fn refilling_in_steps_does_not_drift() {
    let mut once = TokenBucket::full(7, 0);
    for _ in 0..7 {
        assert!(once.try_consume(0));
    }
    let mut steps = once;
    for i in 1..=1_000 {
        steps.refill(i * 7_777_777);
    }
    once.refill(1_000 * 7_777_777);
    assert_eq!(once, steps);
}

#[test]
fn retune_keeps_the_level_as_far_as_it_fits() {
    let mut bucket = TokenBucket::full(4, 0);
    bucket.retune(10, 0);
    assert_eq!(bucket.tokens, 4 * PARTS_PER_TOKEN);
    assert_eq!(bucket.capacity, 10);
    bucket.retune(3, 0);
    assert_eq!(bucket.tokens, 3 * PARTS_PER_TOKEN);
    assert_eq!(bucket.refill_per_sec, 3);
}

#[test]
fn grants_are_bounded_by_capacity_and_time() {
    let mut bucket = TokenBucket::full(30, 0);
    let mut granted = 0u128;
    for i in 0..1_000i64 {
        if bucket.try_consume(i * SEC / 10) {
            granted += 1;
        }
    }
    // 100 seconds at 30 per minute, on top of a full bucket: at most 30 + 50.
    assert!(granted * PARTS_PER_TOKEN <= 30 * (PARTS_PER_TOKEN + 999 * (SEC as u128) / 10));
    assert_eq!(granted, 79);
}

#[test]
fn set_limit_on_an_unseen_node_starts_it_full() {
    let mut limiter = RateLimiter::new(1);
    let node = node_a();
    assert_eq!(limiter.snapshot(&node), None);
    limiter.set_limit(&node, 40, 9 * SEC);
    assert_eq!(limiter.snapshot(&node), Some(TokenBucket::full(40, 9 * SEC)));
}

#[test]
fn a_quiet_minute_refills_completely() {
    let mut bucket = TokenBucket::full(3, 0);
    for _ in 0..3 {
        assert!(bucket.try_consume(0));
    }
    assert_eq!(bucket.refill(60 * SEC - 1), 3 * PARTS_PER_TOKEN - 3);
    assert_eq!(bucket.refill(60 * SEC), 3 * PARTS_PER_TOKEN);
    for _ in 0..3 {
        assert!(bucket.try_consume(60 * SEC));
    }
    assert!(!bucket.try_consume(60 * SEC));
}

#[test]
fn a_new_node_is_tracked_once() {
    let mut limiter = RateLimiter::new(3);
    assert!(limiter.try_consume(&node_a(), 0));
    assert_eq!(limiter.tracked_nodes(), 1);
    assert_eq!(limiter.snapshot(&node_a()).unwrap().tokens, 2 * PARTS_PER_TOKEN);
    limiter.try_consume(&node_a(), 0);
    limiter.set_limit(&node_a(), 9, 0);
    assert_eq!(limiter.tracked_nodes(), 1);
    limiter.set_limit(&node_b(), 9, 0);
    assert_eq!(limiter.tracked_nodes(), 2);
}
