//! Rate limiting: an in-process sliding-window limiter with a circuit
//! breaker, and the pure core of the durable fixed-window counter.
//!
//! The sliding-window limiter keeps request timestamps in memory and allows
//! `requests_per_minute + burst_limit` requests per 60-second window.  The
//! circuit breaker is orthogonal: it tracks caller-reported consecutive
//! failures and fails fast for a fixed cooldown once the threshold is hit.

use vstd::prelude::*;
use vstd::string::StringExecFns;
use crate::text::{dec_chars, push_dec_str};

verus! {

/// Per-tenant rate-limit configuration.
#[derive(Debug, Clone, PartialEq, Eq, Structural)]
pub struct TenantRateLimitConfig {
    pub requests_per_minute: u64,
    pub burst_limit: u64,
    pub quota_bytes: u64,
}

impl Default for TenantRateLimitConfig {
    /// Default budget: 120 requests per minute with a burst of 20, 5 GiB quota.
    fn default() -> (r: Self)
        ensures
            r.requests_per_minute == 120,
            r.burst_limit == 20,
            r.quota_bytes == 5368709120,
    {
        TenantRateLimitConfig {
            requests_per_minute: 120,
            burst_limit: 20,
            quota_bytes: 5368709120,
        }
    }
}

/// Consecutive-failure count at which the circuit opens.
pub const CIRCUIT_BREAKER_THRESHOLD: u32 = 5;

/// Cooldown in milliseconds once the circuit breaker trips.
pub const CIRCUIT_COOLDOWN_MS: u64 = 30000;

/// Length of the sliding window in milliseconds.
pub const WINDOW_MS: u64 = 60000;

/// Sliding-window counter and circuit-breaker state owned by one limiter
/// instance; it is not shared or synchronized across instances.
#[derive(Debug, Clone)]
pub struct RateLimitState {
    /// Timestamps (epoch millis) of requests within the current window.
    pub window_hits: Vec<u64>,
    /// Consecutive failure count for the circuit breaker.
    pub consecutive_failures: u32,
    /// If set, the circuit is open until this epoch-ms timestamp.
    pub circuit_open_until: Option<u64>,
}

/// Errors from rate limiting.
#[derive(Debug, Clone, PartialEq, Eq)]
pub enum RateLimitError {
    /// Request rate exceeded.
    Exceeded { tenant_id: String, limit: u64 },
    /// Circuit breaker is open: the check fails fast without counting.
    CircuitOpen { tenant_id: String, until_ms: u64 },
}

impl RateLimitError {
    /// A human-readable account of the rejection.
    pub fn message(&self) -> (r: String)
        ensures
            (self matches RateLimitError::Exceeded { tenant_id, limit } ==> r@ == "tenant "@
                + tenant_id@ + ": rate limit exceeded ("@ + dec_chars(limit as nat) + " rpm)"@),
            (self matches RateLimitError::CircuitOpen { tenant_id, until_ms } ==> r@ == "tenant "@
                + tenant_id@ + ": circuit open until epoch ms "@ + dec_chars(until_ms as nat)),
    {
        match self {
            RateLimitError::Exceeded { tenant_id, limit } => {
                let mut out = String::new();
                out.append("tenant ");
                out.append(tenant_id.as_str());
                out.append(": rate limit exceeded (");
                push_dec_str(&mut out, *limit);
                out.append(" rpm)");
                out
            },
            RateLimitError::CircuitOpen { tenant_id, until_ms } => {
                let mut out = String::new();
                out.append("tenant ");
                out.append(tenant_id.as_str());
                out.append(": circuit open until epoch ms ");
                push_dec_str(&mut out, *until_ms);
                out
            },
        }
    }
}

impl RateLimitState {
    /// Fresh state: empty window, closed circuit, no recorded failures.
    pub fn new() -> (r: Self)
        ensures
            r.window_hits@ == Seq::<u64>::empty(),
            r.consecutive_failures == 0,
            r.circuit_open_until is None,
    {
        RateLimitState { window_hits: Vec::new(), consecutive_failures: 0, circuit_open_until: None }
    }

    /// Record a successful request: the failure counter resets to zero.
    pub fn record_success(&mut self)
        ensures
            final(self).consecutive_failures == 0,
            final(self).window_hits@ == old(self).window_hits@,
            final(self).circuit_open_until == old(self).circuit_open_until,
    {
        self.consecutive_failures = 0;
    }

    /// Record a failed request: the failure counter goes up by one.
    pub fn record_failure(&mut self)
        requires
            old(self).consecutive_failures < u32::MAX,
        ensures
            final(self).consecutive_failures == old(self).consecutive_failures + 1,
            final(self).window_hits@ == old(self).window_hits@,
            final(self).circuit_open_until == old(self).circuit_open_until,
    {
        self.consecutive_failures = self.consecutive_failures + 1;
    }

    /// Number of consecutive failures.
    pub fn consecutive_failures(&self) -> (r: u32)
        ensures
            r == self.consecutive_failures,
    {
        self.consecutive_failures
    }

    /// Number of requests in the current window.
    pub fn window_count(&self) -> (r: usize)
        ensures
            r == self.window_hits@.len(),
    {
        self.window_hits.len()
    }
}

/// Start of the sliding window: 60 seconds before `now_ms`, saturating at zero.
pub open spec fn window_floor(now_ms: u64) -> int {
    if now_ms >= WINDOW_MS {
        now_ms - WINDOW_MS
    } else {
        0
    }
}

/// The hits that remain inside the sliding window at `now_ms`, in order.
pub open spec fn kept_hits(hits: Seq<u64>, now_ms: u64) -> Seq<u64> {
    hits.filter(|ts: u64| ts as int >= window_floor(now_ms))
}

/// The circuit is open and still inside its cooldown at `now_ms`.
pub open spec fn circuit_blocks(s: RateLimitState, now_ms: u64) -> bool {
    s.circuit_open_until matches Some(u) && now_ms < u
}

/// The failure counter has reached the threshold while the circuit is closed,
/// so this check trips the breaker.
pub open spec fn circuit_trips(s: RateLimitState, now_ms: u64) -> bool {
    s.circuit_open_until is None && s.consecutive_failures >= CIRCUIT_BREAKER_THRESHOLD
}

/// Check the rate limit for one request at time `now_ms` (caller-supplied
/// epoch milliseconds), recording the request when it is admitted.
///
/// Order of evaluation: an open circuit inside its cooldown fails fast and
/// changes nothing; an elapsed cooldown closes the circuit and resets the
/// failure counter; a closed circuit at the failure threshold trips open for
/// `CIRCUIT_COOLDOWN_MS`; otherwise hits outside the window are dropped and
/// the request is admitted exactly when fewer than
/// `requests_per_minute + burst_limit` hits remain.
pub fn check_rate_limit(
    tenant_id: &str,
    config: &TenantRateLimitConfig,
    state: &mut RateLimitState,
    now_ms: u64,
) -> (r: Result<(), RateLimitError>)
    requires
        now_ms + CIRCUIT_COOLDOWN_MS <= u64::MAX,
        config.requests_per_minute + config.burst_limit <= u64::MAX,
    ensures
        ({
            let blocked = circuit_blocks(*old(state), now_ms);
            let trips = circuit_trips(*old(state), now_ms);
            let kept = kept_hits(old(state).window_hits@, now_ms);
            let effective = config.requests_per_minute + config.burst_limit;
            &&& (blocked ==> {
                &&& *final(state) == *old(state)
                &&& r matches Err(RateLimitError::CircuitOpen { tenant_id: t, until_ms: u })
                    && t@ == tenant_id@ && Some(u) == old(state).circuit_open_until
            })
            &&& (trips ==> {
                &&& final(state).circuit_open_until == Some((now_ms + CIRCUIT_COOLDOWN_MS) as u64)
                &&& final(state).consecutive_failures == old(state).consecutive_failures
                &&& final(state).window_hits@ == old(state).window_hits@
                &&& r matches Err(RateLimitError::CircuitOpen { tenant_id: t, until_ms: u })
                    && t@ == tenant_id@ && u == now_ms + CIRCUIT_COOLDOWN_MS
            })
            &&& (!blocked && !trips ==> {
                &&& final(state).circuit_open_until is None
                &&& final(state).consecutive_failures == (if old(state).circuit_open_until is Some {
                    0u32
                } else {
                    old(state).consecutive_failures
                })
                &&& (kept.len() >= effective ==> {
                    &&& final(state).window_hits@ == kept
                    &&& r matches Err(RateLimitError::Exceeded { tenant_id: t, limit })
                        && t@ == tenant_id@ && limit == config.requests_per_minute
                })
                &&& (kept.len() < effective ==> {
                    &&& final(state).window_hits@ == kept + seq![now_ms]
                    &&& r is Ok
                })
            })
        }),
{
    // Circuit breaker check.
    if let Some(until) = state.circuit_open_until {
        if now_ms < until {
            return Err(RateLimitError::CircuitOpen {
                tenant_id: String::from_str(tenant_id),
                until_ms: until,
            });
        }
        // Cooldown elapsed: close the circuit.
        state.circuit_open_until = None;
        state.consecutive_failures = 0;
    }

    // Trip the circuit breaker on too many consecutive failures.
    if state.consecutive_failures >= CIRCUIT_BREAKER_THRESHOLD {
        let until = now_ms + CIRCUIT_COOLDOWN_MS;
        state.circuit_open_until = Some(until);
        return Err(RateLimitError::CircuitOpen {
            tenant_id: String::from_str(tenant_id),
            until_ms: until,
        });
    }

    // Sliding window: drop entries older than the window start.
    let window_start: u64 = if now_ms >= WINDOW_MS {
        now_ms - WINDOW_MS
    } else {
        0
    };
    let ghost all_hits = state.window_hits@;
    let ghost pred = |ts: u64| ts as int >= window_floor(now_ms);
    let mut kept: Vec<u64> = Vec::new();
    let mut i: usize = 0;
    while i < state.window_hits.len()
        invariant
            i <= all_hits.len(),
            state.window_hits@ == all_hits,
            window_start as int == window_floor(now_ms),
            pred == (|ts: u64| ts as int >= window_floor(now_ms)),
            kept@ == all_hits.subrange(0, i as int).filter(pred),
        decreases all_hits.len() - i,
    {
        let ts = state.window_hits[i];
        proof {
            reveal_with_fuel(Seq::<u64>::filter, 2);
            assert(all_hits.subrange(0, i + 1).drop_last() =~= all_hits.subrange(0, i as int));
            assert(all_hits.subrange(0, i + 1).last() == all_hits[i as int]);
            assert(all_hits.subrange(0, i + 1).filter(pred) == (if pred(all_hits[i as int]) {
                all_hits.subrange(0, i as int).filter(pred).push(all_hits[i as int])
            } else {
                all_hits.subrange(0, i as int).filter(pred)
            }));
        }
        if ts >= window_start {
            kept.push(ts);
        }
        i = i + 1;
    }
    proof {
        assert(all_hits.subrange(0, all_hits.len() as int) =~= all_hits);
    }
    state.window_hits = kept;

    // Check the limit, allowing bursts up to `burst_limit` above the rate.
    let effective_limit = config.requests_per_minute + config.burst_limit;
    if state.window_hits.len() as u64 >= effective_limit {
        return Err(RateLimitError::Exceeded {
            tenant_id: String::from_str(tenant_id),
            limit: config.requests_per_minute,
        });
    }

    // Record this request.
    state.window_hits.push(now_ms);
    assert(state.window_hits@ =~= kept_hits(all_hits, now_ms) + seq![now_ms]);
    Ok(())
}

/// Start of the fixed window that `now_secs` falls in: `now - now % window`,
/// where a window length below one second is treated as one second.
pub open spec fn spec_window_start(now_secs: i64, window_seconds: i64) -> int {
    let w = if window_seconds >= 1 {
        window_seconds as int
    } else {
        1
    };
    now_secs - (now_secs as int) % w
}

/// Compute the fixed-window start for the durable counter.
pub fn rate_window_start(now_secs: i64, window_seconds: i64) -> (r: i64)
    requires
        now_secs >= 0,
    ensures
        r == spec_window_start(now_secs, window_seconds),
        0 <= r <= now_secs,
{
    let w: i64 = if window_seconds >= 1 {
        window_seconds
    } else {
        1
    };
    proof {
        if now_secs < w {
            vstd::arithmetic::div_mod::lemma_small_mod(now_secs as nat, w as nat);
        } else {
            vstd::arithmetic::div_mod::lemma_mod_bound(now_secs as int, w as int);
        }
    }
    now_secs - now_secs % w
}

/// The idempotent key of one durable counter row:
/// `{actor}|{action_class}|{window_start}|{window_seconds}`.
pub open spec fn spec_counter_key(
    actor: Seq<char>,
    action_class: Seq<char>,
    window_start: i64,
    window_seconds: i64,
) -> Seq<char> {
    actor + "|"@ + action_class + "|"@ + dec_chars(window_start as nat) + "|"@ + dec_chars(
        window_seconds as nat,
    )
}

/// Build the durable counter key for one actor, action class and window.
pub fn rate_counter_key(
    actor: &str,
    action_class: &str,
    window_start: i64,
    window_seconds: i64,
) -> (r: String)
    requires
        window_start >= 0,
        window_seconds >= 0,
    ensures
        r@ == spec_counter_key(actor@, action_class@, window_start, window_seconds),
{
    let mut out = String::new();
    out.append(actor);
    out.append("|");
    out.append(action_class);
    out.append("|");
    push_dec_str(&mut out, window_start as u64);
    out.append("|");
    push_dec_str(&mut out, window_seconds as u64);
    out
}

/// The durable counter reports "exceeded" when the post-increment count is
/// strictly greater than the limit; a limit below one is treated as one.
pub open spec fn spec_rate_exceeded(count: i64, max_requests: i64) -> bool {
    count > (if max_requests >= 1 {
        max_requests as int
    } else {
        1
    })
}

/// Decide whether a post-increment durable count exceeds its limit.
pub fn rate_exceeded(count: i64, max_requests: i64) -> (r: bool)
    ensures
        r == spec_rate_exceeded(count, max_requests),
{
    let m: i64 = if max_requests >= 1 {
        max_requests
    } else {
        1
    };
    count > m
}

} // verus!
