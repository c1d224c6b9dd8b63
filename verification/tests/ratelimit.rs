use chat_gateway::ratelimit::{RateLimiter, RatelimitHeaders};

fn pairs(h: &[(&str, &str)]) -> Vec<(Vec<u8>, Vec<u8>)> {
    h.iter()
        .map(|(n, v)| (n.as_bytes().to_vec(), v.as_bytes().to_vec()))
        .collect()
}

#[test]
fn headers_parse_exactly() {
    let h = RatelimitHeaders::from_pairs(&pairs(&[
        ("x-ratelimit-limit", "5"),
        ("x-ratelimit-remaining", "0"),
        ("x-ratelimit-reset", "1470173023.123"),
        ("x-ratelimit-bucket", "B"),
        ("x-ratelimit-global", "true"),
        ("retry-after", "3"),
    ]));
    assert_eq!(h.limit, Some(5));
    assert_eq!(h.remaining, Some(0));
    assert_eq!(h.reset_at_ms, Some(1470173023123));
    assert_eq!(h.bucket, Some(b"B".to_vec()));
    assert!(h.global);
    assert_eq!(h.retry_after_ms, Some(3000));
}

#[test]
fn headers_parse_partial_precision() {
    let h = RatelimitHeaders::from_pairs(&pairs(&[("x-ratelimit-reset", "2")]));
    assert_eq!(h.reset_at_ms, Some(2000));
    let h = RatelimitHeaders::from_pairs(&pairs(&[("x-ratelimit-reset", "2.5")]));
    assert_eq!(h.reset_at_ms, Some(2500));
    let h = RatelimitHeaders::from_pairs(&pairs(&[("x-ratelimit-reset", "2.25")]));
    assert_eq!(h.reset_at_ms, Some(2250));
}

#[test]
fn headers_absent() {
    let h = RatelimitHeaders::from_pairs(&pairs(&[("content-type", "application/json")]));
    assert_eq!(h.limit, None);
    assert_eq!(h.remaining, None);
    assert_eq!(h.reset_at_ms, None);
    assert_eq!(h.bucket, None);
    assert!(!h.global);
    assert_eq!(h.retry_after_ms, None);
}

#[test]
fn rate_limited_route_blocks_until_reset() {
    let mut limiter = RateLimiter::new();
    let route = b"POST /channels/1/messages".to_vec();
    let now = 1_000_000u64;

    // two concurrent calls join the line in order
    limiter.enqueue(&route, 1);
    limiter.enqueue(&route, 2);
    assert_eq!(limiter.front(&route), Some(1));

    // the first response spends the budget until now + 2 s
    let headers = RatelimitHeaders::from_pairs(&pairs(&[
        ("x-ratelimit-limit", "5"),
        ("x-ratelimit-remaining", "0"),
        ("x-ratelimit-reset", "1002.000"),
        ("x-ratelimit-bucket", "B"),
    ]));
    limiter.release(&route, &headers, 200, now);

    // the second caller acquires only after the reset instant
    assert_eq!(limiter.front(&route), Some(2));
    assert_eq!(limiter.acquire_delay(&route, now), 1_002_000);
    assert_eq!(limiter.acquire_delay(&route, 1_001_999), 1_002_000);
    assert_eq!(limiter.acquire_delay(&route, 1_002_000), 0);
}

#[test]
fn global_rate_limit_blocks_everything() {
    let mut limiter = RateLimiter::new();
    let route_a = b"GET /gateway".to_vec();
    let route_b = b"POST /channels/9/messages".to_vec();
    let now = 50_000u64;

    limiter.enqueue(&route_a, 7);
    let headers = RatelimitHeaders::from_pairs(&pairs(&[
        ("x-ratelimit-global", "true"),
        ("retry-after", "3"),
    ]));
    limiter.release(&route_a, &headers, 429, now);

    assert_eq!(limiter.global_until(), Some(53_000));
    // every subsequent acquisition waits at least three seconds
    assert_eq!(limiter.acquire_delay(&route_a, now), 53_000);
    assert_eq!(limiter.acquire_delay(&route_b, now + 1), 53_000);
    assert_eq!(limiter.acquire_delay(&route_b, 53_000), 0);
}

#[test]
fn local_429_spends_the_bucket() {
    let mut limiter = RateLimiter::new();
    let route = b"PATCH /guilds/3".to_vec();
    let now = 10_000u64;
    limiter.enqueue(&route, 1);
    let headers = RatelimitHeaders::from_pairs(&pairs(&[("retry-after", "2")]));
    limiter.release(&route, &headers, 429, now);
    assert_eq!(limiter.global_until(), None);
    assert_eq!(limiter.acquire_delay(&route, now), 12_000);
}

#[test]
fn bucket_migration_moves_waiters() {
    let mut limiter = RateLimiter::new();
    let route = b"GET /channels/1/pins".to_vec();
    limiter.enqueue(&route, 1);
    limiter.enqueue(&route, 2);

    let headers = RatelimitHeaders::from_pairs(&pairs(&[
        ("x-ratelimit-bucket", "shared"),
        ("x-ratelimit-limit", "10"),
        ("x-ratelimit-remaining", "9"),
        ("x-ratelimit-reset", "1.000"),
    ]));
    limiter.release(&route, &headers, 200, 0);

    // the route now serializes through the canonical bucket, and the
    // remaining waiter kept its place
    assert_eq!(limiter.bucket_key(&route), b"shared".to_vec());
    assert_eq!(limiter.front(&route), Some(2));
}

#[test]
fn fifo_service_order() {
    let mut limiter = RateLimiter::new();
    let route = b"POST /x".to_vec();
    for t in 1..=4u64 {
        limiter.enqueue(&route, t);
    }
    let headers = RatelimitHeaders::from_pairs(&pairs(&[]));
    for expected in 1..=4u64 {
        assert_eq!(limiter.front(&route), Some(expected));
        limiter.release(&route, &headers, 200, 0);
    }
    assert_eq!(limiter.front(&route), None);
}
