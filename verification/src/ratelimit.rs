//! Cache-backed rate limiting using sliding window counters.
//!
//! The limiter keeps, per key, a log of the times of the requests made under
//! it in the last window. One atomic script drops the entries older than a
//! window, logs the current request, sets the log's expiry one window ahead
//! and returns how many requests the window now holds. A request is allowed
//! while that count is within the limit, so no span of one window's length
//! ever lets more than the limit through. The round trips to the cache are
//! made by the caller; this module decides each step and holds the script.

use std::time::Duration;
use vstd::prelude::*;

verus! {

#[verifier::external_type_specification]
#[verifier::external_body]
pub struct ExRedisClient(redis::Client);

#[verifier::external_type_specification]
#[verifier::external_body]
pub struct ExRedisError(redis::RedisError);

/// Whether `redis::Client::open` accepts a connection URL. Opening only parses
/// the URL into connection settings (no connection is made), so the answer
/// depends on the URL alone.
pub uninterp spec fn redis_url_accepted(url: Seq<char>) -> bool;

/// The client that `redis::Client::open` builds from a connection URL: the
/// URL parsed into connection settings, a function of the URL alone
pub uninterp spec fn opened_client(url: Seq<char>) -> redis::Client;

/// The whole seconds of a duration, as `Duration::as_secs` reports them
pub uninterp spec fn whole_secs(window: Duration) -> u64;

/// Calls `redis::Client::open` on a URL string. Claimed: the call succeeds
/// exactly when the URL is accepted, and then returns the client built from
/// that URL; both depend on the URL alone. What the error holds is not stated.
#[verifier::external_body]
fn open_redis_client(url: &str) -> (res: Result<redis::Client, redis::RedisError>)
    ensures
        res.is_ok() == redis_url_accepted(url@),
        res matches Ok(c) ==> c == opened_client(url@),
{
    redis::Client::open(url)
}

/// Calls `Clone::clone` of `redis::Client`, which is derived: claimed, the
/// copy equals the original.
#[verifier::external_body]
fn clone_redis_client(client: &redis::Client) -> (copy: redis::Client)
    ensures
        copy == *client,
{
    client.clone()
}

/// Calls `Duration::as_secs`. Claimed: the result is the duration's whole
/// seconds, a function of the duration alone.
#[verifier::external_body]
fn duration_as_secs(window: &Duration) -> (secs: u64)
    ensures
        secs == whole_secs(*window),
{
    window.as_secs()
}

/// Rate limiting errors
#[derive(Debug)]
pub enum RateLimitError {
    /// The cache could not be reached or answered with an error
    Cache(String),
    /// The limit is exceeded; retry after this many seconds
    Exceeded { retry_after: u64 },
}

/// Cache-backed rate limiter using sliding window counters
pub struct CacheLimiter {
    client: redis::Client,
    max_requests: u32,
    window: Duration,
}

/// The counting script. `KEYS[1]` is a sorted set of the requests of the
/// last window, scored by their time in milliseconds; `ARGV[1]` is the window
/// in seconds. It drops the entries older than a window, logs the current
/// request under a member unique to it, sets the log's expiry one window
/// ahead and returns how many requests the window now holds, this one
/// included.
pub const COUNT_SCRIPT: &'static str = "
local now = redis.call('TIME')
local now_ms = tonumber(now[1]) * 1000 + math.floor(tonumber(now[2]) / 1000)
local window_ms = tonumber(ARGV[1]) * 1000
redis.call('ZREMRANGEBYSCORE', KEYS[1], '-inf', now_ms - window_ms)
local held = redis.call('ZCARD', KEYS[1])
redis.call('ZADD', KEYS[1], now_ms, now[1] .. '.' .. now[2] .. '-' .. held)
redis.call('EXPIRE', KEYS[1], ARGV[1])
return held + 1
";

impl Clone for CacheLimiter {
    fn clone(&self) -> (copy: Self)
        ensures
            copy == *self,
    {
        CacheLimiter {
            client: clone_redis_client(&self.client),
            max_requests: self.max_requests,
            window: self.window,
        }
    }
}

/// Prefix of the cache keys of the request logs
pub open spec fn rate_key_prefix() -> Seq<char> {
    "synapse:ratelimit:"@
}

/// Prefix of the error raised when the cache URL is refused
pub open spec fn open_failed_prefix() -> Seq<char> {
    "failed to connect: "@
}

/// Prefix of the error raised when no cache connection can be had
pub open spec fn connection_failed_prefix() -> Seq<char> {
    "failed to get connection: "@
}

/// Prefix of the error raised when the counting script fails
pub open spec fn script_failed_prefix() -> Seq<char> {
    "rate limit script failed: "@
}

/// Prefix of the error raised when the window's remaining time cannot be read
pub open spec fn ttl_failed_prefix() -> Seq<char> {
    "TTL failed: "@
}

/// A request for which the counting script returned `count` is allowed: the
/// count is within
/// the limit
pub open spec fn count_allowed(max_requests: u32, count: u32) -> bool {
    count <= max_requests
}

/// How many of the first `n` logged requests fall in the span `(lo, hi]`
pub open spec fn logged_in(times: Seq<int>, lo: int, hi: int, n: int) -> nat
    decreases n,
{
    if n <= 0 {
        0
    } else {
        logged_in(times, lo, hi, n - 1) + if lo < times[n - 1] <= hi {
            1nat
        } else {
            0nat
        }
    }
}

/// The count the counting script returns for the `i`-th request of a key's
/// log (`times` holds the request times in order): the requests up to and
/// including it whose time lies less than one `window` before its own
pub open spec fn window_count(times: Seq<int>, i: int, window: int) -> nat {
    logged_in(times, times[i] - window, times[i], i + 1)
}

/// The `i`-th logged request is allowed: its window count is within the limit
pub open spec fn allowed_at(times: Seq<int>, i: int, window: int, max_requests: u32) -> bool {
    window_count(times, i, window) <= max_requests
}

/// How many of the first `n` logged requests fall in `(start, start + window]`
/// and were allowed
pub open spec fn allowed_in_span(times: Seq<int>, window: int, max_requests: u32, start: int, n: int) -> nat
    decreases n,
{
    if n <= 0 {
        0
    } else {
        allowed_in_span(times, window, max_requests, start, n - 1) + if start < times[n - 1] <= start
            + window && allowed_at(times, n - 1, window, max_requests) {
            1nat
        } else {
            0nat
        }
    }
}

/// Request times in the order they were logged never go back
pub open spec fn in_time_order(times: Seq<int>) -> bool {
    forall|i: int, j: int| 0 <= i <= j < times.len() ==> times[i] <= times[j]
}

/// Seconds to wait after a rejection, given the remaining time to live of the
/// log: at least one second
pub open spec fn retry_after_secs(ttl: i64) -> u64 {
    if ttl >= 1 {
        ttl as u64
    } else {
        1
    }
}

/// What the caller has just learnt from the cache
pub enum CheckEvent {
    /// A connection was requested: `Err` holds the failure's text
    Connected(Result<(), String>),
    /// The counting script ran: the requests the window holds, or the failure's
    /// text
    Counted(Result<u32, String>),
    /// The log's remaining time to live in seconds, or the failure's text
    TtlRead(Result<i64, String>),
}

/// What the caller does next
pub enum CheckAction {
    /// Run `script` (the counting script) on `rate_key` with a window of
    /// `window_secs` seconds
    RunScript { script: &'static str, rate_key: String, window_secs: u64 },
    /// Read the remaining time to live of `rate_key`
    ReadTtl { rate_key: String },
    /// The check is over
    Done(Result<(), RateLimitError>),
}

/// An error of the cache whose message is `prefix` followed by `detail`
pub open spec fn is_cache_error(action: CheckAction, prefix: Seq<char>, detail: Seq<char>) -> bool {
    match action {
        CheckAction::Done(Err(RateLimitError::Cache(msg))) => msg@ == prefix + detail,
        _ => false,
    }
}

impl CacheLimiter {
    /// The client of the cache that holds the request logs
    pub closed spec fn spec_client(&self) -> redis::Client {
        self.client
    }

    /// The most requests allowed per window
    pub closed spec fn spec_max_requests(&self) -> u32 {
        self.max_requests
    }

    /// The window's length
    pub closed spec fn spec_window(&self) -> Duration {
        self.window
    }

    /// The window in whole seconds, never less than one
    pub open spec fn spec_window_secs(&self) -> u64 {
        if whole_secs(self.spec_window()) >= 1 {
            whole_secs(self.spec_window())
        } else {
            1
        }
    }

    /// Create a new cache-backed rate limiter
    pub fn new(url: &str, max_requests: u32, window: Duration) -> (res: Result<Self, RateLimitError>)
        ensures
            res.is_ok() == redis_url_accepted(url@),
            res matches Ok(l) ==> l.spec_client() == opened_client(url@) && l.spec_max_requests()
                == max_requests && l.spec_window() == window,
            res matches Err(e) ==> (e matches RateLimitError::Cache(msg) && msg@.len()
                >= open_failed_prefix().len() && msg@.subrange(0, open_failed_prefix().len() as int)
                == open_failed_prefix()),
    {
        match open_redis_client(url) {
            Ok(client) => Ok(CacheLimiter { client, max_requests, window }),
            Err(e) => {
                let detail = e.to_string();
                let msg = "failed to connect: ".to_owned().concat(detail.as_str());
                assert(msg@.subrange(0, open_failed_prefix().len() as int) =~= open_failed_prefix());
                Err(RateLimitError::Cache(msg))
            },
        }
    }

    /// The cache client
    pub fn client(&self) -> (client: &redis::Client)
        ensures
            *client == self.spec_client(),
    {
        &self.client
    }

    /// The cache key of the request log of `key`
    pub fn rate_key(key: &str) -> (rate_key: String)
        ensures
            rate_key@ == rate_key_prefix() + key@,
    {
        "synapse:ratelimit:".to_owned().concat(key)
    }

    /// The window in whole seconds, never less than one
    pub fn window_secs(&self) -> (secs: u64)
        ensures
            secs == self.spec_window_secs(),
    {
        let secs = duration_as_secs(&self.window);
        if secs >= 1 {
            secs
        } else {
            1
        }
    }

    /// Decide the next step of checking whether a request under `key` is
    /// allowed, given what the cache has just answered.
    pub fn check_step(&self, key: &str, event: CheckEvent) -> (action: CheckAction)
        ensures
            match event {
                CheckEvent::Connected(Err(e)) => is_cache_error(action, connection_failed_prefix(), e@),
                CheckEvent::Connected(Ok(())) => action matches CheckAction::RunScript {
                    script,
                    rate_key,
                    window_secs,
                } && script@ == COUNT_SCRIPT@ && rate_key@ == rate_key_prefix() + key@ && window_secs
                    == self.spec_window_secs(),
                CheckEvent::Counted(Err(e)) => is_cache_error(action, script_failed_prefix(), e@),
                CheckEvent::Counted(Ok(count)) => if !count_allowed(self.spec_max_requests(), count) {
                    action matches CheckAction::ReadTtl { rate_key } && rate_key@ == rate_key_prefix() + key@
                } else {
                    action matches CheckAction::Done(Ok(()))
                },
                CheckEvent::TtlRead(Err(e)) => is_cache_error(action, ttl_failed_prefix(), e@),
                CheckEvent::TtlRead(Ok(ttl)) => action matches CheckAction::Done(
                    Err(RateLimitError::Exceeded { retry_after }),
                ) && retry_after == retry_after_secs(ttl),
            },
    {
        match event {
            CheckEvent::Connected(Err(e)) => CheckAction::Done(
                Err(RateLimitError::Cache("failed to get connection: ".to_owned().concat(e.as_str()))),
            ),
            CheckEvent::Connected(Ok(())) => CheckAction::RunScript {
                script: COUNT_SCRIPT,
                rate_key: Self::rate_key(key),
                window_secs: self.window_secs(),
            },
            CheckEvent::Counted(Err(e)) => CheckAction::Done(
                Err(RateLimitError::Cache("rate limit script failed: ".to_owned().concat(e.as_str()))),
            ),
            CheckEvent::Counted(Ok(count)) => {
                if count > self.max_requests {
                    CheckAction::ReadTtl { rate_key: Self::rate_key(key) }
                } else {
                    CheckAction::Done(Ok(()))
                }
            },
            CheckEvent::TtlRead(Err(e)) => CheckAction::Done(
                Err(RateLimitError::Cache("TTL failed: ".to_owned().concat(e.as_str()))),
            ),
            CheckEvent::TtlRead(Ok(ttl)) => {
                let retry_after: u64 = if ttl >= 1 {
                    ttl as u64
                } else {
                    1
                };
                CheckAction::Done(Err(RateLimitError::Exceeded { retry_after }))
            },
        }
    }
}


/// A rejected request is always told to wait at least one second, and
/// exactly the log's remaining lifetime when that is a second or more
pub proof fn lemma_retry_after_positive(ttl: i64)
    ensures
        retry_after_secs(ttl) >= 1,
        ttl >= 1 ==> retry_after_secs(ttl) == ttl,
{
}

/// Distinct keys are counted under distinct cache keys
pub proof fn lemma_rate_keys_distinct(key1: Seq<char>, key2: Seq<char>)
    requires
        key1 != key2,
    ensures
        rate_key_prefix() + key1 != rate_key_prefix() + key2,
{
    let p = rate_key_prefix();
    if p + key1 == p + key2 {
        assert(key1 =~= (p + key1).subrange(p.len() as int, (p + key1).len() as int));
        assert(key2 =~= (p + key2).subrange(p.len() as int, (p + key2).len() as int));
    }
}

proof fn lemma_allowed_below_window_of(
    times: Seq<int>,
    window: int,
    max_requests: u32,
    start: int,
    k: int,
    m: int,
)
    requires
        in_time_order(times),
        0 <= k < times.len(),
        0 <= m <= k + 1,
        start < times[k] <= start + window,
    ensures
        allowed_in_span(times, window, max_requests, start, m) <= logged_in(
            times,
            times[k] - window,
            times[k],
            m,
        ),
    decreases m,
{
    if m > 0 {
        lemma_allowed_below_window_of(times, window, max_requests, start, k, m - 1);
        let i = m - 1;
        if start < times[i] <= start + window {
            assert(times[i] <= times[k]);
        }
    }
}

/// Sliding window: whatever span of one window's length is taken, at most
/// `max_requests` of the requests logged in it are allowed, when each request
/// is decided (by `check_step`, through `count_allowed`) on the count that
/// the counting script returns for it
pub proof fn lemma_sliding_window_limit(times: Seq<int>, window: int, max_requests: u32, start: int)
    requires
        in_time_order(times),
    ensures
        allowed_in_span(times, window, max_requests, start, times.len() as int) <= max_requests,
{
    lemma_sliding_window_prefix(times, window, max_requests, start, times.len() as int);
}

proof fn lemma_sliding_window_prefix(times: Seq<int>, window: int, max_requests: u32, start: int, n: int)
    requires
        in_time_order(times),
        0 <= n <= times.len(),
    ensures
        allowed_in_span(times, window, max_requests, start, n) <= max_requests,
    decreases n,
{
    if n > 0 {
        let k = n - 1;
        if start < times[k] <= start + window && allowed_at(times, k, window, max_requests) {
            lemma_allowed_below_window_of(times, window, max_requests, start, k, n);
        } else {
            lemma_sliding_window_prefix(times, window, max_requests, start, n - 1);
        }
    }
}

/// The decision `check_step` takes on a script count is `allowed_at` on the
/// window count that the count stands for
pub proof fn lemma_count_decision_is_window_decision(
    times: Seq<int>,
    i: int,
    window: int,
    max_requests: u32,
    count: u32,
)
    requires
        0 <= i < times.len(),
        count == window_count(times, i, window),
    ensures
        count_allowed(max_requests, count) == allowed_at(times, i, window, max_requests),
{
}

/// Every window lasts at least one second, so a log always expires
pub proof fn lemma_window_positive(limiter: CacheLimiter)
    ensures
        limiter.spec_window_secs() >= 1,
        whole_secs(limiter.spec_window()) >= 1 ==> limiter.spec_window_secs() == whole_secs(
            limiter.spec_window(),
        ),
{
}

} // verus!
