//! Lifecycle of the connection to a running Guitarix engine: its state,
//! its address and the exponential back-off between reconnect attempts.
//!
//! The socket work and the sleeping happen outside; this module decides
//! what state the manager is in and how long to wait before each retry.
use core::time::Duration;
use vstd::arithmetic::power2::pow2;
use vstd::prelude::*;

verus! {

/// The state of a Guitarix engine connection.
#[derive(Debug, Clone, Copy, PartialEq, Eq, Structural)]
pub enum ConnectionState {
    Disconnected,
    Connecting,
    Connected,
    Reconnecting,
    Failed,
}

/// The number of reconnect attempts after the first one.
pub const DEFAULT_MAX_RETRIES: u32 = 10;

/// The back-off delay before the first retry, in milliseconds.
pub const DEFAULT_BASE_DELAY_MS: u64 = 200;

/// The cap on any back-off delay, in milliseconds.
pub const DEFAULT_MAX_DELAY_MS: u64 = 10_000;

/// `2^n`, saturated at `u64::MAX`.
pub open spec fn pow2_saturating(n: nat) -> nat
    decreases n,
{
    if n == 0 {
        1
    } else {
        let doubled = 2 * pow2_saturating((n - 1) as nat);
        if doubled > u64::MAX {
            u64::MAX as nat
        } else {
            doubled
        }
    }
}

/// `attempt - 1`, saturated at zero.
pub open spec fn attempt_exponent(attempt: u32) -> nat {
    if attempt == 0 {
        0
    } else {
        (attempt - 1) as nat
    }
}

/// What `Duration::from_millis` returns for `ms`.
pub uninterp spec fn duration_of_millis(ms: u64) -> Duration;

/// Calls `core::time::Duration::from_millis`. Trusted to return the duration
/// that `duration_of_millis` names for the same number of milliseconds; the
/// function is total on `u64`, so nothing is required.
#[verifier::external_body]
fn millis(ms: u64) -> (d: Duration)
    ensures
        d == duration_of_millis(ms),
{
    Duration::from_millis(ms)
}

/// Manages a Guitarix engine connection lifecycle with automatic reconnection.
pub struct ConnectionManager {
    host: String,
    port: u16,
    state: ConnectionState,
    retry_count: u32,
    max_retries: u32,
    /// Multiplier for exponential backoff: delay = base_delay * 2^(attempt - 1)
    base_delay_ms: u64,
    /// Maximum backoff delay cap
    max_delay_ms: u64,
}

impl ConnectionManager {
    pub closed spec fn host_view(&self) -> Seq<char> {
        self.host@
    }

    pub closed spec fn port_view(&self) -> u16 {
        self.port
    }

    pub closed spec fn state_view(&self) -> ConnectionState {
        self.state
    }

    pub closed spec fn retry_count_view(&self) -> u32 {
        self.retry_count
    }

    pub closed spec fn max_retries_view(&self) -> u32 {
        self.max_retries
    }

    pub closed spec fn base_delay_view(&self) -> u64 {
        self.base_delay_ms
    }

    pub closed spec fn max_delay_view(&self) -> u64 {
        self.max_delay_ms
    }

    /// The back-off, in milliseconds, before reconnect attempt `attempt`:
    /// `base * 2^(attempt - 1)` over unbounded integers, capped at
    /// `max_delay_ms`.
    pub open spec fn backoff_ms(&self, attempt: u32) -> int {
        let raw = self.base_delay_view() * pow2(attempt_exponent(attempt));
        if raw <= self.max_delay_view() {
            raw
        } else {
            self.max_delay_view() as int
        }
    }

    /// Everything but the connection state and the retry counter is the same.
    pub open spec fn same_settings(&self, other: &ConnectionManager) -> bool {
        &&& self.host_view() == other.host_view()
        &&& self.port_view() == other.port_view()
        &&& self.max_retries_view() == other.max_retries_view()
        &&& self.base_delay_view() == other.base_delay_view()
        &&& self.max_delay_view() == other.max_delay_view()
    }

    pub fn new(host: &str, port: u16) -> (m: Self)
        ensures
            m.host_view() == host@,
            m.port_view() == port,
            m.state_view() == ConnectionState::Disconnected,
            m.retry_count_view() == 0,
            m.max_retries_view() == DEFAULT_MAX_RETRIES,
            m.base_delay_view() == DEFAULT_BASE_DELAY_MS,
            m.max_delay_view() == DEFAULT_MAX_DELAY_MS,
    {
        Self {
            host: host.to_string(),
            port,
            state: ConnectionState::Disconnected,
            retry_count: 0,
            max_retries: DEFAULT_MAX_RETRIES,
            base_delay_ms: DEFAULT_BASE_DELAY_MS,
            max_delay_ms: DEFAULT_MAX_DELAY_MS,
        }
    }

    pub fn state(&self) -> (s: ConnectionState)
        ensures
            s == self.state_view(),
    {
        self.state
    }

    pub fn host(&self) -> (h: &str)
        ensures
            h@ == self.host_view(),
    {
        self.host.as_str()
    }

    pub fn port(&self) -> (p: u16)
        ensures
            p == self.port_view(),
    {
        self.port
    }

    /// The number of reconnect attempts after the first one.
    pub fn max_retries(&self) -> (n: u32)
        ensures
            n == self.max_retries_view(),
    {
        self.max_retries
    }

    pub fn set_host_port(&mut self, host: &str, port: u16)
        ensures
            final(self).host_view() == host@,
            final(self).port_view() == port,
            final(self).state_view() == old(self).state_view(),
            final(self).retry_count_view() == old(self).retry_count_view(),
            final(self).max_retries_view() == old(self).max_retries_view(),
            final(self).base_delay_view() == old(self).base_delay_view(),
            final(self).max_delay_view() == old(self).max_delay_view(),
    {
        self.host = host.to_string();
        self.port = port;
    }

    /// A single connection attempt begins.
    pub fn connect_started(&mut self)
        ensures
            final(self).state_view() == ConnectionState::Connecting,
            final(self).retry_count_view() == old(self).retry_count_view(),
            final(self).same_settings(old(self)),
    {
        self.state = ConnectionState::Connecting;
    }

    /// A single connection attempt ended, with success when `connected`.
    pub fn connect_finished(&mut self, connected: bool)
        ensures
            connected ==> final(self).state_view() == ConnectionState::Connected
                && final(self).retry_count_view() == 0,
            !connected ==> final(self).state_view() == ConnectionState::Failed
                && final(self).retry_count_view() == old(self).retry_count_view(),
            final(self).same_settings(old(self)),
    {
        if connected {
            self.state = ConnectionState::Connected;
            self.retry_count = 0;
        } else {
            self.state = ConnectionState::Failed;
        }
    }

    /// Decides what follows the failure of attempt `failed_attempt` (the first
    /// attempt is 0): another attempt after the returned delay, or, once
    /// `max_retries` retries have failed, nothing more.
    pub fn next_retry(&mut self, failed_attempt: u32) -> (delay: Option<Duration>)
        requires
            failed_attempt <= old(self).max_retries_view(),
        ensures
            failed_attempt < old(self).max_retries_view() ==> {
                &&& delay == Some(
                    duration_of_millis(old(self).backoff_ms((failed_attempt + 1) as u32) as u64),
                )
                &&& final(self).state_view() == ConnectionState::Reconnecting
            },
            failed_attempt == old(self).max_retries_view() ==> {
                &&& delay is None
                &&& final(self).state_view() == ConnectionState::Failed
            },
            final(self).retry_count_view() == old(self).retry_count_view(),
            final(self).same_settings(old(self)),
    {
        if failed_attempt < self.max_retries {
            let d = self.backoff_delay(failed_attempt + 1);
            self.state = ConnectionState::Reconnecting;
            Some(d)
        } else {
            self.state = ConnectionState::Failed;
            None
        }
    }

    /// Reset retry count (e.g., after a successful manual reconnect).
    pub fn reset_retries(&mut self)
        ensures
            final(self).retry_count_view() == 0,
            final(self).state_view() == old(self).state_view(),
            final(self).same_settings(old(self)),
    {
        self.retry_count = 0;
    }

    /// Compute exponential backoff delay capped at max_delay_ms.
    pub fn backoff_delay(&self, attempt: u32) -> (d: Duration)
        ensures
            d == duration_of_millis(self.backoff_ms(attempt) as u64),
    {
        let exponent = if attempt == 0 {
            0
        } else {
            attempt - 1
        };
        let factor = saturating_pow2(exponent);
        let base = self.base_delay_ms;
        let raw = if base > 0 && factor > u64::MAX / base {
            u64::MAX
        } else {
            assert(base * factor <= u64::MAX) by (nonlinear_arith)
                requires
                    base == 0 || factor <= u64::MAX / base,
            ;
            base * factor
        };
        let capped = if raw <= self.max_delay_ms {
            raw
        } else {
            self.max_delay_ms
        };
        proof {
            let e = attempt_exponent(attempt);
            lemma_pow2_saturating_is_capped_pow2(e);
            if base > 0 && factor > u64::MAX / base {
                assert(base * factor > u64::MAX) by (nonlinear_arith)
                    requires
                        base > 0,
                        factor > u64::MAX / base,
                ;
                assert(base * pow2(e) >= base * factor) by (nonlinear_arith)
                    requires
                        pow2(e) >= factor,
                        base >= 0,
                ;
            } else if factor == u64::MAX {
                assert(base <= 1) by (nonlinear_arith)
                    requires
                        base == 0 || factor <= u64::MAX / base,
                        factor == u64::MAX,
                ;
                if base == 1 {
                    assert(base * pow2(e) >= u64::MAX) by (nonlinear_arith)
                        requires
                            pow2(e) >= u64::MAX,
                            base == 1,
                    ;
                } else {
                    assert(base * pow2(e) == 0) by (nonlinear_arith)
                        requires
                            base == 0,
                    ;
                }
            }
        }
        millis(capped)
    }

    /// Sets the cap on any back-off delay, in milliseconds.
    pub fn set_max_delay_ms(&mut self, ms: u64)
        ensures
            final(self).max_delay_view() == ms,
            final(self).host_view() == old(self).host_view(),
            final(self).port_view() == old(self).port_view(),
            final(self).state_view() == old(self).state_view(),
            final(self).retry_count_view() == old(self).retry_count_view(),
            final(self).max_retries_view() == old(self).max_retries_view(),
            final(self).base_delay_view() == old(self).base_delay_view(),
    {
        self.max_delay_ms = ms;
    }

    /// The cap on any back-off delay, in milliseconds.
    pub fn max_delay_ms(&self) -> (ms: u64)
        ensures
            ms == self.max_delay_view(),
    {
        self.max_delay_ms
    }
}

/// `2^n` saturated at `u64::MAX` is `2^n` when it fits and `u64::MAX` when
/// it does not.
proof fn lemma_pow2_saturating_is_capped_pow2(n: nat)
    ensures
        pow2_saturating(n) == if pow2(n) > u64::MAX {
            u64::MAX as nat
        } else {
            pow2(n)
        },
    decreases n,
{
    if n == 0 {
        vstd::arithmetic::power::lemma_pow0(2);
    } else {
        lemma_pow2_saturating_is_capped_pow2((n - 1) as nat);
        vstd::arithmetic::power2::lemma_pow2_unfold(n);
    }
}

/// `2^n`, saturated at `u64::MAX`.
fn saturating_pow2(n: u32) -> (r: u64)
    ensures
        r == pow2_saturating(n as nat),
{
    let mut r: u64 = 1;
    let mut i: u32 = 0;
    while i < n
        invariant
            i <= n,
            r == pow2_saturating(i as nat),
        decreases n - i,
    {
        if r > u64::MAX / 2 {
            r = u64::MAX;
        } else {
            r = r * 2;
        }
        i = i + 1;
    }
    r
}

/// Back-off ramps up: the delay before a later retry is never shorter than
/// the delay before an earlier one, and no delay exceeds `max_delay_ms`.
pub proof fn lemma_backoff_ramps_and_is_capped(m: &ConnectionManager, a: u32, b: u32)
    requires
        a <= b,
    ensures
        m.backoff_ms(a) <= m.backoff_ms(b),
        m.backoff_ms(b) <= m.max_delay_view(),
{
    if attempt_exponent(a) < attempt_exponent(b) {
        vstd::arithmetic::power2::lemma_pow2_strictly_increases(attempt_exponent(a), attempt_exponent(b));
    }
    assert(m.base_delay_view() * pow2(attempt_exponent(a)) <= m.base_delay_view() * pow2(attempt_exponent(b)))
        by (nonlinear_arith)
        requires
            pow2(attempt_exponent(a)) <= pow2(attempt_exponent(b)),
    ;
}

} // verus!
