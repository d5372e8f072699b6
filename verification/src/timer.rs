//! Exponential backoff timer.
//!
//! The timer tracks the earliest instant at which the next request attempt
//! may be sent (`deadline`) and the current self-throttling delay. All times
//! are whole seconds: deadlines are read on a monotonic clock whose origin
//! the caller picks (the binary uses the instant the client was built), and
//! delays are plain durations.

use vstd::prelude::*;
use vstd::arithmetic::power2::{pow2, lemma_pow2_unfold, lemma2_to64};
use vstd::arithmetic::mul::lemma_mul_inequality;

verus! {

/// Default floor for the self-throttling delay, in seconds.
pub const DEFAULT_MIN_DELAY_SECS: u64 = 60;

/// Default ceiling for the self-throttling delay, in seconds.
pub const DEFAULT_MAX_DELAY_SECS: u64 = 3600;

/// Timer state driving the retry loop: the next permitted send instant and
/// the exponential delay, clamped between `min_delay` and `max_delay`.
pub struct ExponentialBackoffTimer {
    /// Earliest monotonic instant (seconds) at which the next attempt may be sent.
    pub deadline: u64,
    /// Current self-throttling delay in seconds.
    pub delay: u64,
    /// Floor for `delay`; the delay restarts here after an authoritative signal.
    pub min_delay: u64,
    /// Ceiling for `delay`.
    pub max_delay: u64,
}

/// The delay that one `backoff` step produces: doubled, clamped to `max`.
pub open spec fn next_delay(delay: int, max: int) -> int {
    if 2 * delay <= max {
        2 * delay
    } else {
        max
    }
}

/// The delay after `k` consecutive `backoff` steps starting from `min`.
pub open spec fn delay_after_backoffs(min: int, max: int, k: nat) -> int
    decreases k,
{
    if k == 0 {
        min
    } else {
        next_delay(delay_after_backoffs(min, max, (k - 1) as nat), max)
    }
}

impl ExponentialBackoffTimer {
    /// The invariant every operation preserves: the delay stays between its
    /// configured floor and ceiling.
    pub open spec fn wf(self) -> bool {
        self.min_delay <= self.delay <= self.max_delay
    }

    /// A fresh timer starts with its delay at the floor.
    pub fn new(deadline: u64, min_delay: u64, max_delay: u64) -> (t: Self)
        requires
            min_delay <= max_delay,
        ensures
            t.deadline == deadline,
            t.delay == min_delay,
            t.min_delay == min_delay,
            t.max_delay == max_delay,
            t.wf(),
    {
        Self { deadline, delay: min_delay, min_delay, max_delay }
    }

    /// The server communicated an authoritative resumption time: adopt it and
    /// restart the exponential growth from the floor. After this call the
    /// current delay equals `min_delay` regardless of prior growth.
    pub fn set_deadline(&mut self, new_deadline: u64)
        requires
            old(self).wf(),
        ensures
            final(self).deadline == new_deadline,
            final(self).delay == old(self).min_delay,
            final(self).min_delay == old(self).min_delay,
            final(self).max_delay == old(self).max_delay,
            final(self).wf(),
    {
        self.deadline = new_deadline;
        self.delay = self.min_delay;
    }

    /// How long a wait started at `now` still has to run: the seconds until
    /// the deadline, and zero — return at once — when the deadline has
    /// already passed.
    pub fn remaining_wait(&self, now: u64) -> (r: u64)
        ensures
            self.deadline > now ==> r == self.deadline - now,
            self.deadline <= now ==> r == 0,
    {
        if self.deadline > now {
            self.deadline - now
        } else {
            0
        }
    }

    /// An attempt failed with no authoritative signal: push the deadline back
    /// by the current delay, then double the delay, clamped to the ceiling.
    pub fn backoff(&mut self)
        requires
            old(self).wf(),
            old(self).deadline + old(self).delay <= u64::MAX,
        ensures
            final(self).deadline == old(self).deadline + old(self).delay,
            final(self).delay as int == next_delay(old(self).delay as int, old(self).max_delay as int),
            final(self).min_delay == old(self).min_delay,
            final(self).max_delay == old(self).max_delay,
            final(self).wf(),
    {
        self.deadline = self.deadline + self.delay;
        if self.delay <= self.max_delay / 2 {
            self.delay = 2 * self.delay;
        } else {
            self.delay = self.max_delay;
        }
    }
}

/// Law: over any run of consecutive `backoff` calls with no intervening
/// `set_deadline`, the delays are exactly `min(min_delay * 2^k, max_delay)`,
/// hence non-decreasing and never above `max_delay`.
pub proof fn lemma_backoff_delay_schedule(min: int, max: int, k: nat)
    requires
        0 <= min <= max,
    ensures
        delay_after_backoffs(min, max, k) == if min * pow2(k) <= max {
            min * pow2(k)
        } else {
            max
        },
        delay_after_backoffs(min, max, k) <= delay_after_backoffs(min, max, k + 1),
        min <= delay_after_backoffs(min, max, k) <= max,
    decreases k,
{
    if k == 0 {
        lemma2_to64();
        assert(pow2(0) == 1);
        assert(delay_after_backoffs(min, max, 0) == min);
        lemma_backoff_step_bounds(min, max, min);
    } else {
        lemma_backoff_delay_schedule(min, max, (k - 1) as nat);
        lemma_pow2_unfold(k);
        let prev = delay_after_backoffs(min, max, (k - 1) as nat);
        if min * pow2((k - 1) as nat) <= max {
            assert(min * pow2(k) == 2 * (min * pow2((k - 1) as nat))) by {
                lemma_pow2_unfold(k);
                assert(min * (2 * pow2((k - 1) as nat)) == 2 * (min * pow2((k - 1) as nat)))
                    by (nonlinear_arith);
            }
        } else {
            // the previous delay already sits at the ceiling, and the ideal
            // schedule only grows past it
            assert(min * pow2((k - 1) as nat) <= min * pow2(k)) by {
                lemma_pow2_unfold(k);
                assert(pow2((k - 1) as nat) <= pow2(k));
                lemma_mul_inequality(pow2((k - 1) as nat) as int, pow2(k) as int, min);
                assert(pow2((k - 1) as nat) * min <= pow2(k) * min);
                assert(min * pow2((k - 1) as nat) == pow2((k - 1) as nat) * min) by (nonlinear_arith);
                assert(min * pow2(k) == pow2(k) * min) by (nonlinear_arith);
            }
        }
        lemma_backoff_step_bounds(min, max, delay_after_backoffs(min, max, k));
    }
}

/// One `backoff` step keeps the delay within the configured bounds and never
/// shrinks it.
proof fn lemma_backoff_step_bounds(min: int, max: int, d: int)
    requires
        0 <= min <= d <= max,
    ensures
        d <= next_delay(d, max) <= max,
        min <= next_delay(d, max),
{
}

} // verus!
