//! Reconnect scheduling for the gateway connection, and the exponential
//! retry delay used elsewhere.
use vstd::prelude::*;

verus! {

/// The first delay, and the delay after a successful connection, in seconds.
pub const INITIAL_BACKOFF_SECS: u64 = 1;

/// The longest delay between connection attempts, in seconds.
pub const MAX_BACKOFF_SECS: u64 = 30;

/// The delay that follows `b`: doubled, but never above the cap.
pub open spec fn next_backoff(b: nat) -> nat {
    if 2 * b < MAX_BACKOFF_SECS {
        2 * b
    } else {
        MAX_BACKOFF_SECS as nat
    }
}

/// `2^n`.
pub open spec fn pow2(n: nat) -> nat
    decreases n,
{
    if n == 0 {
        1
    } else {
        2 * pow2((n - 1) as nat)
    }
}

/// The delay after `n` failed attempts in a row, starting from a fresh state.
pub open spec fn backoff_after_failures(n: nat) -> nat
    decreases n,
{
    if n == 0 {
        INITIAL_BACKOFF_SECS as nat
    } else {
        next_backoff(backoff_after_failures((n - 1) as nat))
    }
}

/// Whether a failed connection means the registration was rejected: the
/// gateway answered the WebSocket upgrade with a 4xx status.
pub open spec fn spec_registration_rejected(http_status: Option<u16>) -> bool {
    match http_status {
        Some(s) => 400 <= s < 500,
        None => false,
    }
}

/// How one connection attempt ended.
#[derive(Debug, Clone, Copy, PartialEq, Eq)]
pub enum ConnectOutcome {
    /// The WebSocket connected; it is served until it closes.
    Connected,
    /// The connection failed; `http_status` is the status of the refused
    /// upgrade, when the gateway answered with one.
    Failed { http_status: Option<u16> },
}

/// What to do after a connection attempt.
#[derive(Debug, Clone, Copy, PartialEq, Eq)]
pub struct ReconnectPlan {
    /// Serve the connection until it closes.
    pub serve: bool,
    /// Register the environment again before the next attempt.
    pub reregister: bool,
    /// Seconds to sleep before the next attempt.
    pub sleep_secs: u64,
}

/// The reconnect loop's state: the current delay.
#[derive(Debug)]
pub struct ReconnectState {
    backoff_secs: u64,
}

impl ReconnectState {
    #[verifier::type_invariant]
    spec fn inv(self) -> bool {
        INITIAL_BACKOFF_SECS <= self.backoff_secs <= MAX_BACKOFF_SECS
    }

    /// The current delay in seconds.
    pub closed spec fn spec_backoff(self) -> nat {
        self.backoff_secs as nat
    }

    /// A fresh state, before the first attempt.
    pub fn new() -> (s: Self)
        ensures
            s.spec_backoff() == INITIAL_BACKOFF_SECS,
    {
        ReconnectState { backoff_secs: INITIAL_BACKOFF_SECS }
    }

    /// The current delay in seconds.
    pub fn backoff_secs(&self) -> (r: u64)
        ensures
            r == self.spec_backoff(),
            INITIAL_BACKOFF_SECS <= r <= MAX_BACKOFF_SECS,
    {
        proof {
            use_type_invariant(self);
        }
        self.backoff_secs
    }

    /// Records the outcome of an attempt and says what to do next. A
    /// connection resets the delay; every attempt is followed by a sleep of
    /// the current delay, after which the delay doubles up to the cap.
    pub fn on_outcome(&mut self, outcome: ConnectOutcome) -> (plan: ReconnectPlan)
        ensures
            plan.sleep_secs == (match outcome {
                ConnectOutcome::Connected => INITIAL_BACKOFF_SECS as nat,
                ConnectOutcome::Failed { .. } => old(self).spec_backoff(),
            }),
            final(self).spec_backoff() == next_backoff(plan.sleep_secs as nat),
            INITIAL_BACKOFF_SECS <= plan.sleep_secs <= MAX_BACKOFF_SECS,
            plan.serve == (outcome is Connected),
            plan.reregister == (match outcome {
                ConnectOutcome::Connected => false,
                ConnectOutcome::Failed { http_status } => spec_registration_rejected(http_status),
            }),
            plan.reregister == (outcome matches ConnectOutcome::Failed { http_status: Some(s) }
                && 400 <= s < 500),
    {
        proof {
            use_type_invariant(&*self);
        }
        let plan = match outcome {
            ConnectOutcome::Connected => ReconnectPlan {
                serve: true,
                reregister: false,
                sleep_secs: INITIAL_BACKOFF_SECS,
            },
            ConnectOutcome::Failed { http_status } => {
                let rejected = match http_status {
                    Some(s) => 400 <= s && s < 500,
                    None => false,
                };
                ReconnectPlan { serve: false, reregister: rejected, sleep_secs: self.backoff_secs }
            },
        };
        let doubled = plan.sleep_secs * 2;
        self.backoff_secs = if doubled < MAX_BACKOFF_SECS {
            doubled
        } else {
            MAX_BACKOFF_SECS
        };
        plan
    }
}

/// A failed attempt whose WebSocket upgrade the gateway answered with a
/// client-error status (400 to 499) means the registration was rejected;
/// any other status, or no answer at all, does not.
pub proof fn lemma_registration_rejected_exactly_on_client_errors(s: u16)
    ensures
        spec_registration_rejected(Some(s)) <==> 400 <= s && s < 500,
        !spec_registration_rejected(None),
{
}

/// After `n` failures in a row from a fresh state the delay is `2^n`
/// seconds, capped at thirty.
pub proof fn lemma_backoff_after_failures(n: nat)
    ensures
        backoff_after_failures(n) == (if pow2(n) < MAX_BACKOFF_SECS {
            pow2(n)
        } else {
            MAX_BACKOFF_SECS as nat
        }),
    decreases n,
{
    if n > 0 {
        lemma_backoff_after_failures((n - 1) as nat);
        lemma_pow2_positive((n - 1) as nat);
    }
}

proof fn lemma_pow2_positive(n: nat)
    ensures
        pow2(n) >= 1,
    decreases n,
{
    if n > 0 {
        lemma_pow2_positive((n - 1) as nat);
    }
}

/// The retry delay of attempt `attempt`: `2^attempt * 100` milliseconds;
/// capping is left to callers, and a delay beyond `u64` saturates.
pub open spec fn spec_backoff_millis(attempt: u64) -> nat {
    if 100 * pow2(attempt as nat) <= u64::MAX {
        100 * pow2(attempt as nat)
    } else {
        u64::MAX as nat
    }
}

/// The retry delay of attempt `attempt` in milliseconds.
pub fn backoff_millis(attempt: u64) -> (r: u64)
    ensures
        r == spec_backoff_millis(attempt),
{
    let mut p: u64 = 100;
    let mut i: u64 = 0;
    while i < attempt
        invariant
            i <= attempt,
            p == 100 * pow2(i as nat),
        decreases attempt - i,
    {
        if p > u64::MAX / 2 {
            proof {
                lemma_pow2_monotone((i + 1) as nat, attempt as nat);
                assert(pow2((i + 1) as nat) == 2 * pow2(i as nat));
            }
            return u64::MAX;
        }
        assert(pow2((i + 1) as nat) == 2 * pow2(i as nat));
        p = p * 2;
        i = i + 1;
    }
    p
}

proof fn lemma_pow2_monotone(n: nat, m: nat)
    requires
        n <= m,
    ensures
        pow2(n) <= pow2(m),
    decreases m,
{
    if n < m {
        lemma_pow2_monotone(n, (m - 1) as nat);
    }
}

/// The duration of `ms` milliseconds (`std::time::Duration::from_millis`).
pub uninterp spec fn duration_of_millis(ms: u64) -> std::time::Duration;

/// Calls `std::time::Duration::from_millis`.
///
/// Trusted: the value is, by definition, `duration_of_millis(ms)`.
#[verifier::external_body]
fn duration_from_millis(ms: u64) -> (d: std::time::Duration)
    ensures
        d == duration_of_millis(ms),
{
    std::time::Duration::from_millis(ms)
}

/// Exponential backoff: `2^attempt * 100ms`, capped by callers.
pub fn backoff(attempt: u64) -> (d: std::time::Duration)
    ensures
        d == duration_of_millis(spec_backoff_millis(attempt) as u64),
{
    duration_from_millis(backoff_millis(attempt))
}

} // verus!
