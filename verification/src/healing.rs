//! Session healing: which errors call for a new SSH session, how rebuilding is
//! retried, and how the failures of tunnels and health checks are counted.
//!
//! The waiting and the network work belong to the caller; the functions here
//! make the decisions between them.
use vstd::arithmetic::power2::{lemma2_to64, lemma_pow2_strictly_increases, pow2};
use vstd::prelude::*;

use crate::text::{chars_of, contains_str, decimal, has_substring, lowercase, push_decimal, to_lowercase};

verus! {

/// Whether an error text, lowercased, tells of a session that needs rebuilding:
/// it mentions a failed channel session, a reset connection, a broken pipe, a
/// lost authentication, a closed session, an SSH disconnect, a transport read
/// error, a refused channel open, libssh2's session error -7, or a would-block.
pub open spec fn calls_for_healing(lower: Seq<char>) -> bool {
    ||| has_substring(lower, "channel session"@)
    ||| has_substring(lower, "connection reset"@)
    ||| has_substring(lower, "broken pipe"@)
    ||| has_substring(lower, "not authenticated"@)
    ||| has_substring(lower, "session closed"@)
    ||| has_substring(lower, "ssh disconnect"@)
    ||| has_substring(lower, "transport read"@)
    ||| has_substring(lower, "unable to send channel-open request"@)
    ||| has_substring(lower, "channel open fail"@)
    ||| has_substring(lower, "session(-7)"@)
    ||| has_substring(lower, "would block"@)
}

/// Which errors call for healing: an error text (lowercased) calls for healing
/// when it mentions any of the eleven marks of a broken session, and only then.
pub proof fn law_healing_marks(lower: Seq<char>)
    ensures
        has_substring(lower, "channel session"@) ==> calls_for_healing(lower),
        has_substring(lower, "connection reset"@) ==> calls_for_healing(lower),
        has_substring(lower, "broken pipe"@) ==> calls_for_healing(lower),
        has_substring(lower, "not authenticated"@) ==> calls_for_healing(lower),
        has_substring(lower, "session closed"@) ==> calls_for_healing(lower),
        has_substring(lower, "ssh disconnect"@) ==> calls_for_healing(lower),
        has_substring(lower, "transport read"@) ==> calls_for_healing(lower),
        has_substring(lower, "unable to send channel-open request"@) ==> calls_for_healing(lower),
        has_substring(lower, "channel open fail"@) ==> calls_for_healing(lower),
        has_substring(lower, "session(-7)"@) ==> calls_for_healing(lower),
        has_substring(lower, "would block"@) ==> calls_for_healing(lower),
        calls_for_healing(lower) ==> has_substring(lower, "channel session"@) || has_substring(
            lower,
            "connection reset"@,
        ) || has_substring(lower, "broken pipe"@) || has_substring(lower, "not authenticated"@)
            || has_substring(lower, "session closed"@) || has_substring(lower, "ssh disconnect"@)
            || has_substring(lower, "transport read"@) || has_substring(
            lower,
            "unable to send channel-open request"@,
        ) || has_substring(lower, "channel open fail"@) || has_substring(lower, "session(-7)"@)
            || has_substring(lower, "would block"@),
{
}

/// Whether the lowercased error text `lower` calls for healing.
pub fn lowercase_calls_for_healing(lower: &str) -> (r: bool)
    ensures
        r == calls_for_healing(lower@),
{
    let v = chars_of(lower);
    contains_str(&v, "channel session") || contains_str(&v, "connection reset") || contains_str(
        &v,
        "broken pipe",
    ) || contains_str(&v, "not authenticated") || contains_str(&v, "session closed")
        || contains_str(&v, "ssh disconnect") || contains_str(&v, "transport read")
        || contains_str(&v, "unable to send channel-open request") || contains_str(
        &v,
        "channel open fail",
    ) || contains_str(&v, "session(-7)") || contains_str(&v, "would block")
}

/// Whether the error with the text `error` should trigger session healing: its
/// lowercase calls for healing.
pub fn should_trigger_session_healing(error: &str) -> (r: bool)
    ensures
        r == calls_for_healing(lowercase(error@)),
{
    let lower = to_lowercase(error);
    lowercase_calls_for_healing(lower.as_str())
}

// ---------------------------------------------------------------------------
// Backoff
// ---------------------------------------------------------------------------

/// The wait before the next rebuilding after attempt `attempt` failed, in
/// milliseconds: one second doubled for each earlier attempt, at most 30 seconds.
pub open spec fn healing_delay(attempt: nat) -> nat {
    let d = 1000 * pow2((attempt - 1) as nat);
    if d <= 30000 {
        d
    } else {
        30000
    }
}

/// The wait, in milliseconds, after the failed attempt `attempt` (counted from 1).
pub fn healing_delay_ms(attempt: u32) -> (r: u64)
    requires
        1 <= attempt <= 55,
    ensures
        r == healing_delay(attempt as nat),
{
    proof {
        lemma2_to64();
        if attempt - 1 > 5 {
            lemma_pow2_strictly_increases(5, (attempt - 1) as nat);
        }
    }
    let k = attempt - 1;
    if k == 0 {
        1000
    } else if k == 1 {
        2000
    } else if k == 2 {
        4000
    } else if k == 3 {
        8000
    } else if k == 4 {
        16000
    } else {
        30000
    }
}

/// The backoff grows with each attempt and never passes 30 seconds.
pub proof fn law_healing_delay_grows_and_is_capped(attempt: nat)
    requires
        attempt >= 1,
    ensures
        healing_delay(attempt) <= healing_delay(attempt + 1),
        1000 <= healing_delay(attempt) <= 30000,
{
    lemma2_to64();
    lemma_pow2_strictly_increases((attempt - 1) as nat, attempt);
    if attempt - 1 > 0 {
        lemma_pow2_strictly_increases(0, (attempt - 1) as nat);
    }
}

/// The backoff starts at one second and doubles after each failed attempt until
/// it reaches 30 seconds, where it stays.
pub proof fn law_healing_delay_doubles_up_to_cap(attempt: nat)
    requires
        attempt >= 1,
    ensures
        healing_delay(1) == 1000,
        healing_delay(attempt + 1) == if 2 * healing_delay(attempt) <= 30000 {
            2 * healing_delay(attempt)
        } else {
            30000
        },
{
    lemma2_to64();
    vstd::arithmetic::power2::lemma_pow2_unfold(attempt);
}

// ---------------------------------------------------------------------------
// Retrying the rebuilding of a session
// ---------------------------------------------------------------------------

/// What to do next while healing a session.
#[derive(Debug, PartialEq)]
pub enum HealAction {
    /// Tear down the session and build it again.
    Rebuild,
    /// Wait this many milliseconds, then rebuild again.
    RetryAfter(u64),
    /// Healing is over, with this outcome.
    Finish(Result<(), String>),
}

/// The mathematical form of a [`HealAction`].
pub enum HealActionView {
    Rebuild,
    RetryAfter(nat),
    Finish(Result<(), Seq<char>>),
}

impl View for HealAction {
    type V = HealActionView;

    open spec fn view(&self) -> HealActionView {
        match self {
            HealAction::Rebuild => HealActionView::Rebuild,
            HealAction::RetryAfter(ms) => HealActionView::RetryAfter(*ms as nat),
            HealAction::Finish(Ok(())) => HealActionView::Finish(Ok(())),
            HealAction::Finish(Err(e)) => HealActionView::Finish(Err(e@)),
        }
    }
}

/// The error when every attempt failed; it quotes the last attempt's error.
pub open spec fn healing_failed_message(max_attempts: nat, last_error: Seq<char>) -> Seq<char> {
    "Session healing failed after "@ + decimal(max_attempts) + " attempts: "@ + last_error
}

/// The error when no attempt was allowed at all.
pub open spec fn no_attempt_message() -> Seq<char> {
    "Unexpected end of session healing retry loop"@
}

/// The retries of one healing: attempts are counted from 1 up to `max_attempts`.
pub struct HealRetry {
    attempt: u32,
    max_attempts: u32,
}

impl HealRetry {
    /// The number of the attempt under way.
    pub closed spec fn attempt(&self) -> nat {
        self.attempt as nat
    }

    /// The number of attempts allowed.
    pub closed spec fn max_attempts(&self) -> nat {
        self.max_attempts as nat
    }

    /// The retry state is consistent: the attempt under way is one of those allowed.
    pub closed spec fn wf(&self) -> bool {
        1 <= self.attempt <= self.max_attempts
    }

    /// Starts healing with at most `max_attempts` attempts: the first action
    /// rebuilds, unless no attempt is allowed.
    pub fn start(max_attempts: u32) -> (r: (HealRetry, HealAction))
        ensures
            max_attempts == 0 ==> r.1@ == HealActionView::Finish(Err(no_attempt_message())),
            max_attempts > 0 ==> r.1@ == HealActionView::Rebuild && r.0.wf() && r.0.attempt() == 1
                && r.0.max_attempts() == max_attempts,
    {
        let s = HealRetry { attempt: 1, max_attempts };
        if max_attempts == 0 {
            (s, HealAction::Finish(Err(String::from_str("Unexpected end of session healing retry loop"))))
        } else {
            (s, HealAction::Rebuild)
        }
    }

    /// Takes the outcome of the rebuilding: success ends healing; a failure waits
    /// and retries, unless it was the last attempt allowed.  A failure of the 56th
    /// attempt or a later one, with attempts left, is outside the contract: the
    /// wait after it does not fit in 64 bits.
    pub fn step(&mut self, outcome: Result<(), String>) -> (r: HealAction)
        requires
            old(self).wf(),
            outcome is Err && old(self).attempt() < old(self).max_attempts() ==> old(self).attempt()
                <= 55,
        ensures
            match outcome {
                Ok(()) => r@ == HealActionView::Finish(Ok(())) && final(self).attempt() == old(self).attempt(),
                Err(e) => if old(self).attempt() == old(self).max_attempts() {
                    r@ == HealActionView::Finish(Err(healing_failed_message(old(self).max_attempts(), e@)))
                        && final(self).attempt() == old(self).attempt()
                } else {
                    &&& r@ == HealActionView::RetryAfter(healing_delay(old(self).attempt()))
                    &&& final(self).attempt() == old(self).attempt() + 1
                },
            },
            final(self).wf(),
            final(self).max_attempts() == old(self).max_attempts(),
    {
        match outcome {
            Ok(()) => HealAction::Finish(Ok(())),
            Err(e) => {
                if self.attempt == self.max_attempts {
                    let mut msg = String::from_str("Session healing failed after ");
                    push_decimal(&mut msg, self.max_attempts as u64);
                    msg.append(" attempts: ");
                    msg.append(e.as_str());
                    HealAction::Finish(Err(msg))
                } else {
                    let delay = healing_delay_ms(self.attempt);
                    self.attempt = self.attempt + 1;
                    HealAction::RetryAfter(delay)
                }
            },
        }
    }
}

// ---------------------------------------------------------------------------
// Counting tunnel failures
// ---------------------------------------------------------------------------

/// How an incoming connection fared.
#[derive(Debug, PartialEq, Eq, Clone, Copy, Structural)]
pub enum TunnelOutcome {
    /// The tunnel was set up.
    Connected,
    /// Setting up the tunnel failed; `healable` tells whether the error calls for healing.
    Failed { healable: bool },
}

/// How the error with text `error` counts: healable or not.
pub fn classify_tunnel_error(error: &str) -> (r: TunnelOutcome)
    ensures
        r == (TunnelOutcome::Failed { healable: calls_for_healing(lowercase(error@)) }),
{
    TunnelOutcome::Failed { healable: should_trigger_session_healing(error) }
}

/// Counts the outcome of a tunnel in the shared failure counter, and says whether
/// to heal the session right away: a success or an error that does not call for
/// healing resets the counter; a healable error raises it, and from the second
/// healable failure in a row on, healing starts at once.
pub fn record_tunnel_outcome(counter: &mut u32, outcome: TunnelOutcome) -> (heal_now: bool)
    requires
        outcome == (TunnelOutcome::Failed { healable: true }) ==> *old(counter) < u32::MAX,
    ensures
        match outcome {
            TunnelOutcome::Connected => *final(counter) == 0 && !heal_now,
            TunnelOutcome::Failed { healable } => if healable {
                *final(counter) == *old(counter) + 1 && heal_now == (*final(counter) >= 2)
            } else {
                *final(counter) == 0 && !heal_now
            },
        },
{
    match outcome {
        TunnelOutcome::Connected => {
            *counter = 0;
            false
        },
        TunnelOutcome::Failed { healable } => {
            if healable {
                *counter = *counter + 1;
                *counter >= 2
            } else {
                *counter = 0;
                false
            }
        },
    }
}

/// Counts the end of an immediate healing: a success resets the failure counter.
pub fn record_healing_result(counter: &mut u32, healed: bool)
    ensures
        healed ==> *final(counter) == 0,
        !healed ==> *final(counter) == *old(counter),
{
    if healed {
        *counter = 0;
    }
}

// ---------------------------------------------------------------------------
// The session health monitor
// ---------------------------------------------------------------------------

/// What the health monitor does after a check.
#[derive(Debug, PartialEq, Eq, Clone, Copy, Structural)]
pub enum MonitorAction {
    /// Heal the session (with up to three attempts).
    Heal,
    /// Wait for the next check.
    Wait,
}

/// The state of the session health monitor.
pub struct HealthMonitor {
    pub healing_in_progress: bool,
    pub consecutive_failures: u32,
}

impl HealthMonitor {
    /// A monitor that has seen no failure.
    pub fn new() -> (r: Self)
        ensures
            !r.healing_in_progress,
            r.consecutive_failures == 0,
    {
        HealthMonitor { healing_in_progress: false, consecutive_failures: 0 }
    }

    /// Takes the result of a health check.  An unhealthy session is healed (and
    /// counted as one more failure), unless healing is already under way.  A
    /// healthy session clears the count of failures and lowers the shared tunnel
    /// failure counter by one, down to zero.
    pub fn check(&mut self, healthy: bool, failure_counter: &mut u32) -> (r: MonitorAction)
        requires
            !healthy && !old(self).healing_in_progress ==> old(self).consecutive_failures < u32::MAX,
        ensures
            old(self).healing_in_progress ==> r == MonitorAction::Wait && *final(self) == *old(self)
                && *final(failure_counter) == *old(failure_counter),
            !old(self).healing_in_progress && !healthy ==> {
                &&& r == MonitorAction::Heal
                &&& final(self).healing_in_progress
                &&& final(self).consecutive_failures == old(self).consecutive_failures + 1
                &&& *final(failure_counter) == *old(failure_counter)
            },
            !old(self).healing_in_progress && healthy ==> {
                &&& r == MonitorAction::Wait
                &&& *final(self) == HealthMonitor { healing_in_progress: false, consecutive_failures: 0 }
                &&& *final(failure_counter) == if *old(failure_counter) > 0 {
                    (*old(failure_counter) - 1) as u32
                } else {
                    0
                }
            },
    {
        if self.healing_in_progress {
            return MonitorAction::Wait;
        }
        if !healthy {
            self.healing_in_progress = true;
            self.consecutive_failures = self.consecutive_failures + 1;
            MonitorAction::Heal
        } else {
            self.consecutive_failures = 0;
            if *failure_counter > 0 {
                *failure_counter = *failure_counter - 1;
            }
            MonitorAction::Wait
        }
    }

    /// Takes the end of a healing that the monitor started: success clears the
    /// count of failures; either way healing is no longer under way.
    pub fn healing_finished(&mut self, healed: bool)
        ensures
            !final(self).healing_in_progress,
            healed ==> final(self).consecutive_failures == 0,
            !healed ==> final(self).consecutive_failures == old(self).consecutive_failures,
    {
        self.healing_in_progress = false;
        if healed {
            self.consecutive_failures = 0;
        }
    }
}

} // verus!
