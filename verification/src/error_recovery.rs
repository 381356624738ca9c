//! Error recovery: exponential backoff with jitter, per-peer rate limiting, and
//! the per-peer bookkeeping that turns an error into a recovery action.
//!
//! Durations are whole milliseconds.

use crate::clock::{instant_now, millis_since, system_time_now, unix_nanos};
use crate::error::{NetworkError, RecoveryStrategy};
use crate::peer_table::PeerTable;
use crate::text::{duration_millis_text, duration_text};
use std::time::Instant;
use vstd::arithmetic::power2::{lemma2_to64, lemma_pow2_strictly_increases, pow2};
use vstd::prelude::*;

verus! {

/// `2^e`, or `u64::MAX` where that does not fit in 64 bits.
pub open spec fn saturating_pow2(e: nat) -> int {
    if e < 64 {
        pow2(e) as int
    } else {
        u64::MAX as int
    }
}

/// The delay before retry number `attempt`: `initial * 2^attempt`, saturating at
/// `u64::MAX`, and no more than `max`.
pub open spec fn backoff_delay(initial: u64, max: u64, attempt: u32) -> u64 {
    let raw = initial * saturating_pow2(attempt as nat);
    let sat: int = if raw > u64::MAX { u64::MAX as int } else { raw };
    if sat < max {
        sat as u64
    } else {
        max
    }
}

/// The jitter span of a delay: a tenth of it.
pub open spec fn jitter_span(delay: u64) -> u64 {
    delay / 10
}

/// The delay after jitter: half the span is taken off, and `entropy` modulo the
/// span is added back, saturating at `u64::MAX`. A delay under 10 ms has no span
/// and keeps no jitter.
pub open spec fn jittered_delay(delay: u64, entropy: u64) -> u64 {
    let j = jitter_span(delay);
    if j == 0 {
        delay
    } else {
        let raw = delay - j / 2 + entropy % j;
        if raw > u64::MAX {
            u64::MAX
        } else {
            raw as u64
        }
    }
}

/// The least delay that jitter can give.
pub open spec fn jitter_low(delay: u64) -> int {
    delay - jitter_span(delay) / 2
}

/// The greatest delay that jitter can give.
pub open spec fn jitter_high(delay: u64) -> int {
    let raw = delay - jitter_span(delay) / 2 + jitter_span(delay) - 1;
    if jitter_span(delay) == 0 {
        delay as int
    } else if raw > u64::MAX {
        u64::MAX as int
    } else {
        raw
    }
}

/// Exponential backoff calculator.
///
/// Starts at the initial delay and doubles with each attempt up to the maximum
/// delay; each delay handed out carries a jitter of a tenth of it.
#[derive(Debug, Clone, Copy)]
pub struct ExponentialBackoff {
    initial_delay_ms: u64,
    max_delay_ms: u64,
    attempt: u32,
    last_backoff: Option<Instant>,
}

impl ExponentialBackoff {
    /// Initial delay in milliseconds
    pub closed spec fn initial_delay(&self) -> u64 {
        self.initial_delay_ms
    }

    /// Maximum delay in milliseconds
    pub closed spec fn max_delay(&self) -> u64 {
        self.max_delay_ms
    }

    /// Number of delays handed out since creation or the last reset
    pub closed spec fn attempts(&self) -> u32 {
        self.attempt
    }

    /// When the last delay was handed out
    pub closed spec fn last_backoff(&self) -> Option<Instant> {
        self.last_backoff
    }

    /// The delay, before jitter, for the current attempt.
    pub open spec fn current_delay(&self) -> u64 {
        backoff_delay(self.initial_delay(), self.max_delay(), self.attempts())
    }

    /// Create a new exponential backoff calculator
    pub fn new(initial_delay_ms: u64, max_delay_ms: u64) -> (b: Self)
        ensures
            b.initial_delay() == initial_delay_ms,
            b.max_delay() == max_delay_ms,
            b.attempts() == 0,
            b.last_backoff() is None,
    {
        ExponentialBackoff { initial_delay_ms, max_delay_ms, attempt: 0, last_backoff: None }
    }

    fn pow2_saturating(e: u32) -> (p: u64)
        ensures
            p == saturating_pow2(e as nat),
    {
        if e >= 64 {
            return u64::MAX;
        }
        let mut p: u64 = 1;
        let mut i: u32 = 0;
        proof {
            lemma2_to64();
            vstd::arithmetic::power2::lemma2_to64_rest();
        }
        while i < e
            invariant
                i <= e < 64,
                p == pow2(i as nat),
            decreases e - i,
        {
            proof {
                lemma2_to64();
                vstd::arithmetic::power2::lemma2_to64_rest();
                lemma_pow2_strictly_increases(i as nat, 63);
                assert(pow2((i + 1) as nat) == 2 * pow2(i as nat)) by {
                    vstd::arithmetic::power2::lemma_pow2_unfold((i + 1) as nat);
                }
            }
            p = p * 2;
            i = i + 1;
        }
        p
    }

    /// The delay, before jitter, for the current attempt.
    pub fn delay_ms(&self) -> (d: u64)
        ensures
            d == self.current_delay(),
    {
        let p = Self::pow2_saturating(self.attempt);
        let sat = match self.initial_delay_ms.checked_mul(p) {
            Some(x) => x,
            None => u64::MAX,
        };
        if sat < self.max_delay_ms {
            sat
        } else {
            self.max_delay_ms
        }
    }

    /// Hands out the next delay, with jitter taken from `entropy`, and records that
    /// it was handed out at `now`.
    pub fn next_backoff_with_entropy(&mut self, entropy: u64, now: Instant) -> (d: u64)
        ensures
            d == jittered_delay(old(self).current_delay(), entropy),
            final(self).initial_delay() == old(self).initial_delay(),
            final(self).max_delay() == old(self).max_delay(),
            final(self).attempts() == old(self).attempts().saturating_add(1),
            final(self).last_backoff() == Some(now),
    {
        let delay_ms = self.delay_ms();
        let jitter = delay_ms / 10;
        let jittered = if jitter == 0 {
            delay_ms
        } else {
            (delay_ms - jitter / 2).saturating_add(entropy % jitter)
        };
        self.attempt = self.attempt.saturating_add(1);
        self.last_backoff = Some(now);
        jittered
    }

    /// Calculate next backoff duration, in milliseconds. The jitter comes from the
    /// wall clock's nanoseconds, so only its range is stated; a delay under 10 ms
    /// has no jitter.
    pub fn next_backoff(&mut self) -> (d: u64)
        ensures
            jitter_low(old(self).current_delay()) <= d <= jitter_high(old(self).current_delay()),
            jitter_span(old(self).current_delay()) == 0 ==> d == old(self).current_delay(),
            final(self).initial_delay() == old(self).initial_delay(),
            final(self).max_delay() == old(self).max_delay(),
            final(self).attempts() == old(self).attempts().saturating_add(1),
            final(self).last_backoff() is Some,
    {
        let t = system_time_now();
        let nanos = unix_nanos(&t);
        let entropy = #[verifier::truncate] (nanos as u64);
        let now = instant_now();
        let d = self.next_backoff_with_entropy(entropy, now);
        proof {
            lemma_jitter_range(old(self).current_delay(), entropy);
        }
        d
    }

    /// Reset backoff on successful connection
    pub fn reset(&mut self)
        ensures
            final(self).initial_delay() == old(self).initial_delay(),
            final(self).max_delay() == old(self).max_delay(),
            final(self).attempts() == 0,
            final(self).last_backoff() is None,
    {
        self.attempt = 0;
        self.last_backoff = None;
    }

    /// Get current attempt count
    pub fn attempt_count(&self) -> (n: u32)
        ensures
            n == self.attempts(),
    {
        self.attempt
    }

    /// Whether a retry is due, `elapsed_ms` milliseconds after the last delay was
    /// handed out: always where none was, else once the current delay has passed.
    pub fn is_ready_to_retry_after(&self, elapsed_ms: u128) -> (r: bool)
        ensures
            r == (self.last_backoff() is None || elapsed_ms >= self.current_delay()),
    {
        match self.last_backoff {
            None => true,
            Some(_) => elapsed_ms >= self.delay_ms() as u128,
        }
    }

    /// Check if ready to retry, reading the monotonic clock.
    pub fn is_ready_to_retry(&self) -> (r: bool)
        ensures
            self.last_backoff() is None ==> r,
            self.current_delay() == 0 ==> r,
    {
        match &self.last_backoff {
            None => true,
            Some(last) => {
                let elapsed = millis_since(last);
                self.is_ready_to_retry_after(elapsed)
            },
        }
    }
}

/// Jitter keeps a delay within its range.
pub proof fn lemma_jitter_range(delay: u64, entropy: u64)
    ensures
        jitter_low(delay) <= jittered_delay(delay, entropy) <= jitter_high(delay),
{
}

/// Jitter moves a delay by no more than a tenth of it, either way.
pub proof fn law_jitter_within_a_tenth(delay: u64, entropy: u64)
    ensures
        10 * jittered_delay(delay, entropy) >= 9 * delay,
        10 * jittered_delay(delay, entropy) <= 11 * delay,
{
}

/// Each attempt at most doubles the delay, the delay never shrinks from one attempt
/// to the next, and it never exceeds the maximum.
pub proof fn law_backoff_grows_to_cap(initial: u64, max: u64, attempt: u32)
    requires
        attempt < u32::MAX,
    ensures
        backoff_delay(initial, max, attempt) <= backoff_delay(initial, max, (attempt + 1) as u32),
        backoff_delay(initial, max, (attempt + 1) as u32) <= 2 * backoff_delay(
            initial,
            max,
            attempt,
        ),
        backoff_delay(initial, max, attempt) <= max,
        attempt == 0 ==> backoff_delay(initial, max, attempt) == if initial < max {
            initial
        } else {
            max
        },
{
    let a = attempt as nat;
    lemma2_to64();
    vstd::arithmetic::power2::lemma2_to64_rest();
    if a + 1 < 64 {
        vstd::arithmetic::power2::lemma_pow2_unfold(a + 1);
        vstd::arithmetic::power2::lemma_pow2_pos(a);
        assert(saturating_pow2(a + 1) == 2 * saturating_pow2(a));
        assert(initial * saturating_pow2(a + 1) == 2 * (initial * saturating_pow2(a))) by (
        nonlinear_arith)
            requires
                saturating_pow2(a + 1) == 2 * saturating_pow2(a),
        ;
        assert(initial * saturating_pow2(a) >= 0) by (nonlinear_arith)
            requires
                saturating_pow2(a) > 0,
        ;
    } else if a + 1 == 64 {
        lemma_pow2_strictly_increases(a, 64);
        assert(saturating_pow2(a) == pow2(63));
        assert(saturating_pow2(a + 1) == u64::MAX);
        assert(pow2(63) * 2 == u64::MAX + 1);
        assert(initial * saturating_pow2(a + 1) >= initial * saturating_pow2(a)) by (
        nonlinear_arith)
            requires
                saturating_pow2(a + 1) >= saturating_pow2(a),
                initial >= 0,
        ;
        assert(initial * saturating_pow2(a + 1) <= 2 * (initial * saturating_pow2(a))) by (
        nonlinear_arith)
            requires
                saturating_pow2(a + 1) <= 2 * saturating_pow2(a),
                initial >= 0,
        ;
    } else {
    }
}

/// A call on an `ExponentialBackoff`, as far as its attempt count goes:
/// `next_backoff`, `reset`, or a call that only reads it (`attempt_count`,
/// `is_ready_to_retry`, `delay_ms`).
pub enum BackoffCall {
    /// `next_backoff` (or `next_backoff_with_entropy`)
    Next,
    /// `reset`
    Reset,
    /// A call that reads the backoff
    Inspect,
}

/// The attempt count after a sequence of calls, oldest first, as the contracts
/// of the calls give it.
pub open spec fn attempts_after(start: u32, calls: Seq<BackoffCall>) -> u32
    decreases calls.len(),
{
    if calls.len() == 0 {
        start
    } else {
        let prev = attempts_after(start, calls.drop_last());
        match calls.last() {
            BackoffCall::Next => prev.saturating_add(1),
            BackoffCall::Reset => 0,
            BackoffCall::Inspect => prev,
        }
    }
}

/// The number of `next_backoff` calls since the last `reset`, or since the start
/// where there was none.
pub open spec fn nexts_since_reset(calls: Seq<BackoffCall>) -> nat
    decreases calls.len(),
{
    if calls.len() == 0 {
        0
    } else {
        let prev = nexts_since_reset(calls.drop_last());
        match calls.last() {
            BackoffCall::Next => prev + 1,
            BackoffCall::Reset => 0,
            BackoffCall::Inspect => prev,
        }
    }
}

/// A new backoff, or one just reset, counts the delays handed out since: after any
/// sequence of calls the attempt count is the number of `next_backoff` calls since
/// construction or the last `reset`, saturating at `u32::MAX`; calls that only
/// read it leave it alone.
pub proof fn law_attempts_count_delays(calls: Seq<BackoffCall>)
    ensures
        attempts_after(0, calls) == if nexts_since_reset(calls) < u32::MAX {
            nexts_since_reset(calls)
        } else {
            u32::MAX as nat
        },
    decreases calls.len(),
{
    if calls.len() > 0 {
        law_attempts_count_delays(calls.drop_last());
    }
}

/// Below the cap and below saturation, each attempt doubles the delay: the delay
/// of attempt `a + 1` is twice that of attempt `a`, or the maximum where that is
/// smaller; so the delay of attempt `a` is `initial * 2^a`, or the maximum.
pub proof fn law_backoff_doubles(initial: u64, max: u64, attempt: u32)
    requires
        attempt < 63,
        initial * pow2((attempt + 1) as nat) <= u64::MAX,
    ensures
        backoff_delay(initial, max, (attempt + 1) as u32) == if 2 * backoff_delay(
            initial,
            max,
            attempt,
        ) < max {
            2 * backoff_delay(initial, max, attempt)
        } else {
            max as int
        },
        backoff_delay(initial, max, attempt) == if initial * pow2(attempt as nat) < max {
            initial * pow2(attempt as nat)
        } else {
            max as int
        },
{
    let a = attempt as nat;
    vstd::arithmetic::power2::lemma_pow2_unfold(a + 1);
    vstd::arithmetic::power2::lemma_pow2_pos(a);
    assert(saturating_pow2(a) == pow2(a));
    assert(saturating_pow2(a + 1) == pow2(a + 1));
    assert(initial * pow2(a + 1) == 2 * (initial * pow2(a))) by (nonlinear_arith)
        requires
            pow2(a + 1) == 2 * pow2(a),
    ;
    assert(initial * pow2(a) >= 0) by (nonlinear_arith)
        requires
            pow2(a) > 0,
    ;
}

/// Rate limiter for peer throttling: at most a fixed number of messages in each
/// one-second window.
#[derive(Debug)]
pub struct RateLimiter {
    max_messages_per_sec: u32,
    message_count: u32,
    last_reset: Instant,
    throttle_duration_ms: u64,
}

impl RateLimiter {
    /// Maximum messages per second
    pub closed spec fn max_per_sec(&self) -> u32 {
        self.max_messages_per_sec
    }

    /// Messages counted in the current window
    pub closed spec fn count(&self) -> u32 {
        self.message_count
    }

    /// When the current window began
    pub closed spec fn window_start(&self) -> Instant {
        self.last_reset
    }

    /// Throttle duration in milliseconds
    pub closed spec fn throttle_ms(&self) -> u64 {
        self.throttle_duration_ms
    }

    /// Create a new rate limiter, its window starting now.
    pub fn new(max_messages_per_sec: u32, throttle_duration_ms: u64) -> (r: Self)
        ensures
            r.max_per_sec() == max_messages_per_sec,
            r.throttle_ms() == throttle_duration_ms,
            r.count() == 0,
    {
        RateLimiter {
            max_messages_per_sec,
            message_count: 0,
            last_reset: instant_now(),
            throttle_duration_ms,
        }
    }

    /// Counts a message and tells whether it is allowed. Where `new_window` holds a
    /// moment, a new window starts there first and the count starts over. The count
    /// wraps around at `u32::MAX`.
    pub fn count_message(&mut self, new_window: Option<Instant>) -> (allowed: bool)
        ensures
            final(self).max_per_sec() == old(self).max_per_sec(),
            final(self).throttle_ms() == old(self).throttle_ms(),
            match new_window {
                Some(t) => {
                    &&& final(self).window_start() == t
                    &&& final(self).count() == 1
                    &&& allowed == (0 < old(self).max_per_sec())
                },
                None => {
                    &&& final(self).window_start() == old(self).window_start()
                    &&& final(self).count() == old(self).count().wrapping_add(1)
                    &&& allowed == (old(self).count() < old(self).max_per_sec())
                },
            },
    {
        match new_window {
            Some(t) => {
                self.message_count = 0;
                self.last_reset = t;
            },
            None => {},
        }
        let current = self.message_count;
        self.message_count = current.wrapping_add(1);
        current < self.max_messages_per_sec
    }

    /// Check if a message is allowed, starting a new window where a second or more
    /// has passed since the current one began.
    pub fn allow_message(&mut self) -> (allowed: bool)
        ensures
            final(self).max_per_sec() == old(self).max_per_sec(),
            final(self).throttle_ms() == old(self).throttle_ms(),
            ({
                ||| (final(self).count() == 1 && allowed == (0 < old(self).max_per_sec()))
                ||| (final(self).window_start() == old(self).window_start() && final(self).count()
                    == old(self).count().wrapping_add(1) && allowed == (old(self).count()
                    < old(self).max_per_sec()))
            }),
    {
        let elapsed = millis_since(&self.last_reset);
        let window = if elapsed >= 1000 {
            Some(instant_now())
        } else {
            None
        };
        self.count_message(window)
    }

    /// Get throttle duration, in milliseconds
    pub fn throttle_duration(&self) -> (ms: u64)
        ensures
            ms == self.throttle_ms(),
    {
        self.throttle_duration_ms
    }

    /// Reset rate limiter: the count starts over in a window that begins now.
    pub fn reset(&mut self)
        ensures
            final(self).max_per_sec() == old(self).max_per_sec(),
            final(self).throttle_ms() == old(self).throttle_ms(),
            final(self).count() == 0,
    {
        self.message_count = 0;
        self.last_reset = instant_now();
    }
}

/// Recovery action to take. Durations are in milliseconds.
#[derive(Debug, Clone, Copy, PartialEq, Eq, Structural)]
pub enum RecoveryAction {
    /// Schedule reconnection with delay
    ScheduleReconnect(u64),
    /// Throttle peer for duration
    Throttle(u64),
    /// Attempt immediate reconnection
    Reconnect,
    /// Retry operation
    Retry,
    /// Wait and retry
    WaitAndRetry(u64),
    /// Alert operator
    Alert,
    /// Fail startup
    FailStartup,
    /// Ban peer
    Ban,
    /// Just log
    Log,
}

impl RecoveryAction {
    /// The debug notation of the action, durations written as `Duration` writes them.
    pub open spec fn description(&self) -> Seq<char> {
        match self {
            RecoveryAction::ScheduleReconnect(ms) => "ScheduleReconnect("@ + duration_text(
                *ms as nat,
            ) + ")"@,
            RecoveryAction::Throttle(ms) => "Throttle("@ + duration_text(*ms as nat) + ")"@,
            RecoveryAction::Reconnect => "Reconnect"@,
            RecoveryAction::Retry => "Retry"@,
            RecoveryAction::WaitAndRetry(ms) => "WaitAndRetry("@ + duration_text(*ms as nat)
                + ")"@,
            RecoveryAction::Alert => "Alert"@,
            RecoveryAction::FailStartup => "FailStartup"@,
            RecoveryAction::Ban => "Ban"@,
            RecoveryAction::Log => "Log"@,
        }
    }

    /// Describe the action in its debug notation.
    pub fn describe(&self) -> (s: String)
        ensures
            s@ == self.description(),
    {
        match self {
            RecoveryAction::ScheduleReconnect(ms) => {
                let mut s = String::from_str("ScheduleReconnect(");
                let d = duration_millis_text(*ms);
                s.append(d.as_str());
                s.append(")");
                s
            },
            RecoveryAction::Throttle(ms) => {
                let mut s = String::from_str("Throttle(");
                let d = duration_millis_text(*ms);
                s.append(d.as_str());
                s.append(")");
                s
            },
            RecoveryAction::Reconnect => String::from_str("Reconnect"),
            RecoveryAction::Retry => String::from_str("Retry"),
            RecoveryAction::WaitAndRetry(ms) => {
                let mut s = String::from_str("WaitAndRetry(");
                let d = duration_millis_text(*ms);
                s.append(d.as_str());
                s.append(")");
                s
            },
            RecoveryAction::Alert => String::from_str("Alert"),
            RecoveryAction::FailStartup => String::from_str("FailStartup"),
            RecoveryAction::Ban => String::from_str("Ban"),
            RecoveryAction::Log => String::from_str("Log"),
        }
    }
}

/// Initial delay of the backoff kept for each peer, in milliseconds
pub const PEER_BACKOFF_INITIAL_MS: u64 = 1000;

/// Maximum delay of the backoff kept for each peer, in milliseconds
pub const PEER_BACKOFF_MAX_MS: u64 = 300000;

/// Messages per second allowed by the rate limiter kept for each peer
pub const PEER_RATE_LIMIT: u32 = 100;

/// Throttle duration of the rate limiter kept for each peer, in milliseconds
pub const PEER_THROTTLE_MS: u64 = 60000;

/// How long to wait after a network partition before retrying, in milliseconds
pub const PARTITION_WAIT_MS: u64 = 5000;

/// The state of an error recovery manager.
pub struct RecoveryState {
    /// Backoff state of each peer
    pub backoffs: Map<Seq<char>, ExponentialBackoff>,
    /// Rate limiter of each peer
    pub limiters: Map<Seq<char>, RateLimiter>,
    /// Error count of each peer that has one
    pub error_counts: Map<Seq<char>, u32>,
    /// Errors allowed before a peer is banned
    pub max_errors_before_ban: u32,
}

/// The error count of a peer: 0 where it has none.
pub open spec fn count_of(counts: Map<Seq<char>, u32>, peer: Seq<char>) -> u32 {
    if counts.contains_key(peer) {
        counts[peer]
    } else {
        0
    }
}

/// The delay, before jitter, that a peer's backoff gives next.
pub open spec fn next_peer_delay(backoffs: Map<Seq<char>, ExponentialBackoff>, peer: Seq<char>) -> u64 {
    if backoffs.contains_key(peer) {
        backoffs[peer].current_delay()
    } else {
        backoff_delay(PEER_BACKOFF_INITIAL_MS, PEER_BACKOFF_MAX_MS, 0)
    }
}

/// The number of attempts a peer's backoff had made.
pub open spec fn peer_attempts(backoffs: Map<Seq<char>, ExponentialBackoff>, peer: Seq<char>) -> u32 {
    if backoffs.contains_key(peer) {
        backoffs[peer].attempts()
    } else {
        0
    }
}

/// Every backoff and rate limiter in the state was made with the per-peer settings.
pub open spec fn peer_settings(s: RecoveryState) -> bool {
    &&& forall|p: Seq<char>| #[trigger]
        s.backoffs.contains_key(p) ==> s.backoffs[p].initial_delay() == PEER_BACKOFF_INITIAL_MS
            && s.backoffs[p].max_delay() == PEER_BACKOFF_MAX_MS
    &&& forall|p: Seq<char>| #[trigger]
        s.limiters.contains_key(p) ==> s.limiters[p].throttle_ms() == PEER_THROTTLE_MS
}

/// What handling `error` for `peer` does to the recovery state, and the action it
/// returns.
pub open spec fn recovery_step(
    pre: RecoveryState,
    post: RecoveryState,
    peer: Seq<char>,
    error: NetworkError,
    action: RecoveryAction,
) -> bool {
    &&& post.max_errors_before_ban == pre.max_errors_before_ban
    &&& match error.spec_recovery_strategy() {
        RecoveryStrategy::ExponentialBackoff => {
            &&& post.limiters == pre.limiters
            &&& post.error_counts == pre.error_counts
            &&& post.backoffs == pre.backoffs.insert(peer, post.backoffs[peer])
            &&& post.backoffs[peer].initial_delay() == PEER_BACKOFF_INITIAL_MS
            &&& post.backoffs[peer].max_delay() == PEER_BACKOFF_MAX_MS
            &&& post.backoffs[peer].attempts() == peer_attempts(
                pre.backoffs,
                peer,
            ).saturating_add(1)
            &&& post.backoffs[peer].last_backoff() is Some
            &&& action matches RecoveryAction::ScheduleReconnect(d) && jitter_low(
                next_peer_delay(pre.backoffs, peer),
            ) <= d <= jitter_high(next_peer_delay(pre.backoffs, peer))
        },
        RecoveryStrategy::Throttle => {
            &&& post.backoffs == pre.backoffs
            &&& post.error_counts == pre.error_counts
            &&& pre.limiters.contains_key(peer) ==> post.limiters == pre.limiters
            &&& !pre.limiters.contains_key(peer) ==> {
                &&& post.limiters == pre.limiters.insert(peer, post.limiters[peer])
                &&& post.limiters[peer].max_per_sec() == PEER_RATE_LIMIT
                &&& post.limiters[peer].throttle_ms() == PEER_THROTTLE_MS
                &&& post.limiters[peer].count() == 0
            }
            &&& action == RecoveryAction::Throttle(PEER_THROTTLE_MS)
        },
        RecoveryStrategy::Reconnect => {
            let count = count_of(pre.error_counts, peer).saturating_add(1);
            &&& post.backoffs == pre.backoffs
            &&& post.limiters == pre.limiters
            &&& post.error_counts == pre.error_counts.insert(peer, count)
            &&& action == if count > pre.max_errors_before_ban {
                RecoveryAction::Ban
            } else {
                RecoveryAction::Reconnect
            }
        },
        strategy => {
            &&& post.backoffs == pre.backoffs
            &&& post.limiters == pre.limiters
            &&& post.error_counts == pre.error_counts
            &&& action == match strategy {
                RecoveryStrategy::Retry => RecoveryAction::Retry,
                RecoveryStrategy::WaitAndRetry => RecoveryAction::WaitAndRetry(PARTITION_WAIT_MS),
                RecoveryStrategy::Alert => RecoveryAction::Alert,
                RecoveryStrategy::FailStartup => RecoveryAction::FailStartup,
                _ => RecoveryAction::Log,
            }
        },
    }
}

/// Error recovery manager: keeps, for each peer, a backoff, a rate limiter and an
/// error count, and turns each error into a recovery action.
pub struct ErrorRecoveryManager {
    backoff_states: PeerTable<ExponentialBackoff>,
    rate_limiters: PeerTable<RateLimiter>,
    error_counts: PeerTable<u32>,
    max_errors_before_ban: u32,
}

impl View for ErrorRecoveryManager {
    type V = RecoveryState;

    closed spec fn view(&self) -> RecoveryState {
        RecoveryState {
            backoffs: self.backoff_states@,
            limiters: self.rate_limiters@,
            error_counts: self.error_counts@,
            max_errors_before_ban: self.max_errors_before_ban,
        }
    }
}

impl ErrorRecoveryManager {
    /// The tables are well formed, and every backoff and rate limiter was made with
    /// the per-peer settings.
    pub closed spec fn wf(&self) -> bool {
        &&& self.backoff_states.wf()
        &&& self.rate_limiters.wf()
        &&& self.error_counts.wf()
        &&& forall|p: Seq<char>| #[trigger]
            self.backoff_states@.contains_key(p) ==> self.backoff_states@[p].initial_delay()
                == PEER_BACKOFF_INITIAL_MS && self.backoff_states@[p].max_delay()
                == PEER_BACKOFF_MAX_MS
        &&& forall|p: Seq<char>| #[trigger]
            self.rate_limiters@.contains_key(p) ==> self.rate_limiters@[p].throttle_ms()
                == PEER_THROTTLE_MS
    }

    /// Create a new error recovery manager
    pub fn new(max_errors_before_ban: u32) -> (m: Self)
        ensures
            m.wf(),
            peer_settings(m@),
            m@.backoffs == Map::<Seq<char>, ExponentialBackoff>::empty(),
            m@.limiters == Map::<Seq<char>, RateLimiter>::empty(),
            m@.error_counts == Map::<Seq<char>, u32>::empty(),
            m@.max_errors_before_ban == max_errors_before_ban,
    {
        ErrorRecoveryManager {
            backoff_states: PeerTable::new(),
            rate_limiters: PeerTable::new(),
            error_counts: PeerTable::new(),
            max_errors_before_ban,
        }
    }

    /// Handle error with recovery strategy
    pub fn handle_error(&mut self, peer_id: &str, error: &NetworkError) -> (r: Result<
        RecoveryAction,
        NetworkError,
    >)
        requires
            old(self).wf(),
        ensures
            final(self).wf(),
            peer_settings(final(self)@),
            r matches Ok(action) && recovery_step(old(self)@, final(self)@, peer_id@, *error, action),
    {
        let action = match error.recovery_strategy() {
            RecoveryStrategy::ExponentialBackoff => self.handle_exponential_backoff(peer_id),
            RecoveryStrategy::Throttle => self.handle_throttle(peer_id),
            RecoveryStrategy::Reconnect => self.handle_reconnect(peer_id),
            RecoveryStrategy::Retry => RecoveryAction::Retry,
            RecoveryStrategy::WaitAndRetry => RecoveryAction::WaitAndRetry(PARTITION_WAIT_MS),
            RecoveryStrategy::Alert => RecoveryAction::Alert,
            RecoveryStrategy::FailStartup => RecoveryAction::FailStartup,
            RecoveryStrategy::Log => RecoveryAction::Log,
        };
        Ok(action)
    }

    fn handle_exponential_backoff(&mut self, peer_id: &str) -> (action: RecoveryAction)
        requires
            old(self).wf(),
        ensures
            final(self).wf(),
            recovery_step(
                old(self)@,
                final(self)@,
                peer_id@,
                NetworkError::ConnectionTimeout(arbitrary()),
                action,
            ),
    {
        let mut backoff = match self.backoff_states.get(peer_id) {
            Some(b) => *b,
            None => ExponentialBackoff::new(PEER_BACKOFF_INITIAL_MS, PEER_BACKOFF_MAX_MS),
        };
        proof {
            lemma_peer_delay_floor(backoff.attempts());
        }
        let delay = backoff.next_backoff();
        self.backoff_states.insert(peer_id, backoff);
        proof {
            assert(self@.backoffs[peer_id@] == backoff);
            assert(self@.backoffs =~= old(self)@.backoffs.insert(peer_id@, backoff));
        }
        RecoveryAction::ScheduleReconnect(delay)
    }

    fn handle_throttle(&mut self, peer_id: &str) -> (action: RecoveryAction)
        requires
            old(self).wf(),
        ensures
            final(self).wf(),
            recovery_step(
                old(self)@,
                final(self)@,
                peer_id@,
                NetworkError::RateLimitExceeded(arbitrary()),
                action,
            ),
    {
        let throttle = match self.rate_limiters.get(peer_id) {
            Some(limiter) => limiter.throttle_duration(),
            None => {
                let limiter = RateLimiter::new(PEER_RATE_LIMIT, PEER_THROTTLE_MS);
                let t = limiter.throttle_duration();
                self.rate_limiters.insert(peer_id, limiter);
                t
            },
        };
        RecoveryAction::Throttle(throttle)
    }

    fn handle_reconnect(&mut self, peer_id: &str) -> (action: RecoveryAction)
        requires
            old(self).wf(),
        ensures
            final(self).wf(),
            recovery_step(
                old(self)@,
                final(self)@,
                peer_id@,
                NetworkError::PeerDisconnected(arbitrary()),
                action,
            ),
    {
        let count = match self.error_counts.get(peer_id) {
            Some(c) => *c,
            None => 0,
        };
        let count = count.saturating_add(1);
        self.error_counts.insert(peer_id, count);
        if count > self.max_errors_before_ban {
            RecoveryAction::Ban
        } else {
            RecoveryAction::Reconnect
        }
    }

    /// Reset error count for peer, and its backoff if it has one
    pub fn reset_error_count(&mut self, peer_id: &str)
        requires
            old(self).wf(),
        ensures
            final(self).wf(),
            peer_settings(final(self)@),
            final(self)@.error_counts == old(self)@.error_counts.remove(peer_id@),
            final(self)@.limiters == old(self)@.limiters,
            final(self)@.max_errors_before_ban == old(self)@.max_errors_before_ban,
            old(self)@.backoffs.contains_key(peer_id@) ==> {
                &&& final(self)@.backoffs == old(self)@.backoffs.insert(
                    peer_id@,
                    final(self)@.backoffs[peer_id@],
                )
                &&& final(self)@.backoffs[peer_id@].initial_delay() == PEER_BACKOFF_INITIAL_MS
                &&& final(self)@.backoffs[peer_id@].max_delay() == PEER_BACKOFF_MAX_MS
                &&& final(self)@.backoffs[peer_id@].attempts() == 0
                &&& final(self)@.backoffs[peer_id@].last_backoff() is None
            },
            !old(self)@.backoffs.contains_key(peer_id@) ==> final(self)@.backoffs == old(self)@.backoffs,
    {
        self.error_counts.remove(peer_id);
        let found = match self.backoff_states.get(peer_id) {
            Some(b) => Some(*b),
            None => None,
        };
        match found {
            Some(b) => {
                let mut b = b;
                b.reset();
                self.backoff_states.insert(peer_id, b);
                proof {
                    assert(self@.backoffs[peer_id@] == b);
                    assert(self@.backoffs =~= old(self)@.backoffs.insert(peer_id@, b));
                }
            },
            None => {},
        }
    }

    /// Get error count for peer
    pub fn get_error_count(&self, peer_id: &str) -> (n: u32)
        requires
            self.wf(),
        ensures
            n == count_of(self@.error_counts, peer_id@),
    {
        match self.error_counts.get(peer_id) {
            Some(c) => *c,
            None => 0,
        }
    }

    /// Check if peer should be banned
    pub fn should_ban_peer(&self, peer_id: &str) -> (b: bool)
        requires
            self.wf(),
        ensures
            b == (count_of(self@.error_counts, peer_id@) > self@.max_errors_before_ban),
    {
        self.get_error_count(peer_id) > self.max_errors_before_ban
    }
}

/// The per-peer backoff never gives a delay below its initial one.
proof fn lemma_peer_delay_floor(attempt: u32)
    ensures
        backoff_delay(PEER_BACKOFF_INITIAL_MS, PEER_BACKOFF_MAX_MS, attempt) >= 1000,
{
    let a = attempt as nat;
    if a < 64 {
        vstd::arithmetic::power2::lemma_pow2_pos(a);
    }
    assert(PEER_BACKOFF_INITIAL_MS * saturating_pow2(a) >= 1000) by (nonlinear_arith)
        requires
            saturating_pow2(a) >= 1,
    ;
}

/// Handling an error for one peer leaves the error count and the backoff of every
/// other peer as they were.
pub proof fn law_other_peers_untouched(
    pre: RecoveryState,
    post: RecoveryState,
    peer: Seq<char>,
    other: Seq<char>,
    error: NetworkError,
    action: RecoveryAction,
)
    requires
        recovery_step(pre, post, peer, error, action),
        other != peer,
    ensures
        count_of(post.error_counts, other) == count_of(pre.error_counts, other),
        post.backoffs.contains_key(other) == pre.backoffs.contains_key(other),
        post.backoffs.contains_key(other) ==> post.backoffs[other] == pre.backoffs[other],
        post.limiters.contains_key(other) == pre.limiters.contains_key(other),
{
}

/// A peer's error count grows by one with each error whose strategy is to
/// reconnect, and with no other; such an error gets the peer banned exactly when
/// the new count exceeds the limit.
pub proof fn law_reconnect_counts_and_bans(
    pre: RecoveryState,
    post: RecoveryState,
    peer: Seq<char>,
    error: NetworkError,
    action: RecoveryAction,
)
    requires
        recovery_step(pre, post, peer, error, action),
    ensures
        error.spec_recovery_strategy() == RecoveryStrategy::Reconnect ==> count_of(
            post.error_counts,
            peer,
        ) == count_of(pre.error_counts, peer).saturating_add(1),
        error.spec_recovery_strategy() != RecoveryStrategy::Reconnect ==> count_of(
            post.error_counts,
            peer,
        ) == count_of(pre.error_counts, peer),
        action == RecoveryAction::Ban <==> (error.spec_recovery_strategy()
            == RecoveryStrategy::Reconnect && count_of(post.error_counts, peer)
            > post.max_errors_before_ban),
{
}

/// Consecutive connection errors of one peer back off further each time: the
/// delay before jitter for the next error is the one of the attempt after.
pub proof fn law_backoff_advances(
    pre: RecoveryState,
    post: RecoveryState,
    peer: Seq<char>,
    error: NetworkError,
    action: RecoveryAction,
)
    requires
        peer_settings(pre),
        recovery_step(pre, post, peer, error, action),
        error.spec_recovery_strategy() == RecoveryStrategy::ExponentialBackoff,
        peer_attempts(pre.backoffs, peer) < u32::MAX,
    ensures
        next_peer_delay(post.backoffs, peer) == backoff_delay(
            PEER_BACKOFF_INITIAL_MS,
            PEER_BACKOFF_MAX_MS,
            (peer_attempts(pre.backoffs, peer) + 1) as u32,
        ),
        next_peer_delay(pre.backoffs, peer) <= next_peer_delay(post.backoffs, peer),
{
    assert(post.backoffs.contains_key(peer));
    law_backoff_grows_to_cap(PEER_BACKOFF_INITIAL_MS, PEER_BACKOFF_MAX_MS, peer_attempts(pre.backoffs, peer));
}

} // verus!
