//! How often a fetch is attempted, and how long the host waits in between.
//!
//! A policy bounds the attempts and the time of each. The baseline policy
//! allows one attempt: a failed fetch then fails the run at once.

use vstd::prelude::*;

verus! {

/// The retry policy of the fetcher.
#[derive(Clone, Copy, Debug, PartialEq, Eq, Structural)]
pub struct FetchPolicy {
    /// The most attempts that are made. At least one is made in any case.
    pub max_attempts: u32,
    /// The wait before the second attempt, in milliseconds.
    pub base_delay_ms: u64,
    /// The longest wait before any attempt, in milliseconds.
    pub max_delay_ms: u64,
    /// The time that one attempt may take, in milliseconds. An attempt that
    /// takes longer is reported by the host as a timeout.
    pub deadline_ms: u64,
}

/// The smaller of two numbers.
pub open spec fn smaller(a: nat, b: nat) -> nat {
    if a <= b {
        a
    } else {
        b
    }
}

/// The wait after `failed` failed attempts: the base delay after the first,
/// twice the previous wait after each further one, and never more than the
/// longest wait.
pub open spec fn backoff(base: nat, cap: nat, failed: nat) -> nat
    decreases failed,
{
    if failed <= 1 {
        smaller(base, cap)
    } else {
        smaller(2 * backoff(base, cap, (failed - 1) as nat), cap)
    }
}

/// Once the wait is zero or has reached the longest wait, it stays there.
proof fn lemma_backoff_settles(base: nat, cap: nat, at: nat, later: nat)
    requires
        1 <= at <= later,
        backoff(base, cap, at) == cap || backoff(base, cap, at) == 0,
    ensures
        backoff(base, cap, later) == backoff(base, cap, at),
    decreases later - at,
{
    if later > at {
        lemma_backoff_settles(base, cap, at, (later - 1) as nat);
    }
}

/// The wait never exceeds the longest wait.
pub proof fn lemma_backoff_is_capped(base: nat, cap: nat, failed: nat)
    ensures
        backoff(base, cap, failed) <= cap,
    decreases failed,
{
    if failed > 1 {
        lemma_backoff_is_capped(base, cap, (failed - 1) as nat);
    }
}

impl FetchPolicy {
    /// The number of attempts that the policy allows: `max_attempts`, and
    /// one where that is zero.
    pub open spec fn attempts(self) -> nat {
        if self.max_attempts == 0 {
            1
        } else {
            self.max_attempts as nat
        }
    }

    /// The wait before the attempt that follows `failed` failed ones.
    pub open spec fn wait_after(self, failed: nat) -> nat {
        backoff(self.base_delay_ms as nat, self.max_delay_ms as nat, failed)
    }

    /// After `failed` failed attempts another one is made.
    pub open spec fn retries_after(self, failed: nat) -> bool {
        failed < self.attempts()
    }

    /// The baseline policy: one attempt, with the given deadline.
    pub fn single_attempt(deadline_ms: u64) -> (policy: FetchPolicy)
        ensures
            policy == (FetchPolicy {
                max_attempts: 1,
                base_delay_ms: 0,
                max_delay_ms: 0,
                deadline_ms,
            }),
            policy.attempts() == 1,
    {
        FetchPolicy { max_attempts: 1, base_delay_ms: 0, max_delay_ms: 0, deadline_ms }
    }

    /// Tells whether another attempt is made after `failed` failed ones.
    pub fn allows_retry(&self, failed: u32) -> (again: bool)
        ensures
            again == self.retries_after(failed as nat),
    {
        failed < self.max_attempts || (self.max_attempts == 0 && failed == 0)
    }

    /// The wait, in milliseconds, before the attempt that follows `failed`
    /// failed ones.
    pub fn delay_after(&self, failed: u32) -> (delay: u64)
        ensures
            delay == self.wait_after(failed as nat),
            delay <= self.max_delay_ms,
    {
        let ghost base = self.base_delay_ms as nat;
        let ghost cap = self.max_delay_ms as nat;
        let cap_ms = self.max_delay_ms;
        let mut delay: u64 = if self.base_delay_ms <= cap_ms {
            self.base_delay_ms
        } else {
            cap_ms
        };
        let mut done: u32 = 1;
        while done < failed && 0 < delay && delay < cap_ms
            invariant
                1 <= done,
                done <= failed || (failed == 0 && done == 1),
                cap == self.max_delay_ms as nat,
                base == self.base_delay_ms as nat,
                cap_ms == self.max_delay_ms,
                delay == backoff(base, cap, done as nat),
                delay <= cap_ms,
            decreases failed - done,
        {
            delay = if delay > cap_ms / 2 {
                cap_ms
            } else if delay * 2 <= cap_ms {
                delay * 2
            } else {
                cap_ms
            };
            done += 1;
        }
        proof {
            if failed as nat > done as nat {
                lemma_backoff_settles(base, cap, done as nat, failed as nat);
            }
        }
        delay
    }
}

} // verus!
