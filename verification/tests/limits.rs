use std::time::Duration;

use synapse::ratelimit::{CacheLimiter, CheckAction, CheckEvent, RateLimitError, COUNT_SCRIPT};

fn limiter(max: u32, window: Duration) -> CacheLimiter {
    CacheLimiter::new("redis://127.0.0.1:6379", max, window).expect("valid url")
}

#[test]
fn new_refuses_non_redis_url() {
    match CacheLimiter::new("http://example.com", 10, Duration::from_secs(60)) {
        Err(RateLimitError::Cache(msg)) => assert!(msg.starts_with("failed to connect: ")),
        _ => panic!("expected a cache error"),
    }
}

#[test]
fn rate_key_has_prefix() {
    assert_eq!(CacheLimiter::rate_key("user-1"), "synapse:ratelimit:user-1");
}

#[test]
fn window_secs_is_whole_seconds_at_least_one() {
    assert_eq!(limiter(1, Duration::from_secs(60)).window_secs(), 60);
    assert_eq!(limiter(1, Duration::from_millis(2500)).window_secs(), 2);
    assert_eq!(limiter(1, Duration::from_millis(300)).window_secs(), 1);
}

#[test]
fn connected_runs_script() {
    let l = limiter(5, Duration::from_secs(30));
    match l.check_step("k", CheckEvent::Connected(Ok(()))) {
        CheckAction::RunScript { script, rate_key, window_secs } => {
            assert_eq!(script, COUNT_SCRIPT);
            assert!(script.contains("ZREMRANGEBYSCORE") && script.contains("ZADD") && script.contains("EXPIRE"));
            assert_eq!(rate_key, "synapse:ratelimit:k");
            assert_eq!(window_secs, 30);
        }
        _ => panic!("expected script run"),
    }
}

#[test]
fn count_within_limit_is_allowed() {
    let l = limiter(5, Duration::from_secs(30));
    assert!(matches!(l.check_step("k", CheckEvent::Counted(Ok(5))), CheckAction::Done(Ok(()))));
    assert!(matches!(l.check_step("k", CheckEvent::Counted(Ok(1))), CheckAction::Done(Ok(()))));
}

#[test]
fn count_over_limit_reads_ttl() {
    let l = limiter(5, Duration::from_secs(30));
    match l.check_step("k", CheckEvent::Counted(Ok(6))) {
        CheckAction::ReadTtl { rate_key } => assert_eq!(rate_key, "synapse:ratelimit:k"),
        _ => panic!("expected ttl read"),
    }
}

#[test]
fn ttl_gives_retry_after_at_least_one() {
    let l = limiter(5, Duration::from_secs(30));
    for (ttl, expected) in [(17i64, 17u64), (1, 1), (0, 1), (-1, 1), (-2, 1)] {
        match l.check_step("k", CheckEvent::TtlRead(Ok(ttl))) {
            CheckAction::Done(Err(RateLimitError::Exceeded { retry_after })) => assert_eq!(retry_after, expected),
            _ => panic!("expected exceeded"),
        }
    }
}

#[test]
fn cache_failures_carry_context() {
    let l = limiter(5, Duration::from_secs(30));
    let cases = [
        (CheckEvent::Connected(Err("boom".to_owned())), "failed to get connection: boom"),
        (CheckEvent::Counted(Err("boom".to_owned())), "rate limit script failed: boom"),
        (CheckEvent::TtlRead(Err("boom".to_owned())), "TTL failed: boom"),
    ];
    for (event, expected) in cases {
        match l.check_step("k", event) {
            CheckAction::Done(Err(RateLimitError::Cache(msg))) => assert_eq!(msg, expected),
            _ => panic!("expected cache error"),
        }
    }
}

#[test]
fn clone_keeps_limits() {
    let l = limiter(3, Duration::from_secs(45));
    let c = l.clone();
    assert_eq!(c.window_secs(), 45);
    assert!(matches!(c.check_step("k", CheckEvent::Counted(Ok(3))), CheckAction::Done(Ok(()))));
    assert!(matches!(c.check_step("k", CheckEvent::Counted(Ok(4))), CheckAction::ReadTtl { .. }));
}

#[test]
fn sliding_window_allows_at_most_max_in_any_span() {
    // Requests at these seconds, with a 10 s window and a limit of 2: the
    // count of each is the logged requests less than a window before it
    let l = limiter(2, Duration::from_secs(10));
    let times = [0i64, 1, 2, 9, 10, 11, 12, 25];
    let mut allowed = Vec::new();
    for (i, &t) in times.iter().enumerate() {
        let count = times[..=i].iter().filter(|&&s| s > t - 10).count() as u32;
        if matches!(l.check_step("k", CheckEvent::Counted(Ok(count))), CheckAction::Done(Ok(()))) {
            allowed.push(t);
        }
    }
    assert_eq!(allowed, vec![0, 1, 25]);
    for start in -10..30 {
        assert!(allowed.iter().filter(|&&t| start < t && t <= start + 10).count() <= 2);
    }
}
