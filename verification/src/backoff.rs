//! Retry-delay policy for acquiring a device handle.
//!
//! Acquisition of a physical device may fail at any time; each decoder
//! wraps its open call in this policy.  The very first attempt of a
//! process lifetime happens immediately (delay 0).  Within one
//! acquisition episode the delay doubles after every failed attempt,
//! capped at [`MAX_DELAY_SECS`]; a delay of 0 advances to 1.  Once a
//! handle was produced and later invalidated, the next episode starts
//! over at 1 second: the immediate-retry privilege is consumed exactly
//! once per process lifetime.

use vstd::prelude::*;

verus! {

/// Largest delay, in seconds, between two acquisition attempts.
pub const MAX_DELAY_SECS: u64 = 4;

/// The delay that follows `d` after one more failed attempt.
pub open spec fn next_delay(d: u64) -> u64 {
    if d == 0 {
        1
    } else if 2 * d > MAX_DELAY_SECS {
        MAX_DELAY_SECS
    } else {
        (2 * d) as u64
    }
}

/// The delay before attempt number `k` (0-based) of an episode whose
/// first attempt waits `d0` seconds.
pub open spec fn delay_before_attempt(d0: u64, k: nat) -> u64
    decreases k,
{
    if k == 0 {
        d0
    } else {
        next_delay(delay_before_attempt(d0, (k - 1) as nat))
    }
}

/// Retry-delay state for one device.
///
/// `delay_secs` is the wait before the next acquisition attempt.  It is
/// 0 only for the very first attempt of the process lifetime and is
/// otherwise one of 1, 2 or 4 seconds.
pub struct Backoff {
    /// Seconds to wait before the next acquisition attempt.
    pub delay_secs: u64,
}

impl Backoff {
    /// The delay is always one of 0, 1, 2 or 4 seconds.
    pub open spec fn wf(self) -> bool {
        self.delay_secs == 0 || self.delay_secs == 1 || self.delay_secs == 2
            || self.delay_secs == MAX_DELAY_SECS
    }

    /// Fresh policy at process start: the first attempt is immediate.
    pub fn new() -> (r: Backoff)
        ensures
            r.wf(),
            r.delay_secs == 0,
    {
        Backoff { delay_secs: 0 }
    }

    /// Seconds to wait before the next acquisition attempt.
    pub fn current_delay(&self) -> (r: u64)
        ensures
            r == self.delay_secs,
    {
        self.delay_secs
    }

    /// Advance the delay after a failed acquisition attempt: 0 becomes
    /// 1, otherwise the delay doubles, capped at [`MAX_DELAY_SECS`].
    pub fn on_failure(&mut self)
        requires
            old(self).wf(),
        ensures
            final(self).wf(),
            final(self).delay_secs == next_delay(old(self).delay_secs),
    {
        if self.delay_secs == 0 {
            self.delay_secs = 1;
        } else {
            let doubled = self.delay_secs * 2;
            if doubled > MAX_DELAY_SECS {
                self.delay_secs = MAX_DELAY_SECS;
            } else {
                self.delay_secs = doubled;
            }
        }
    }

    /// Start a fresh acquisition episode after a previously acquired
    /// handle was invalidated: the delay restarts at 1 second, never
    /// again at 0.
    pub fn new_episode(&mut self)
        ensures
            final(self).wf(),
            final(self).delay_secs == 1,
    {
        self.delay_secs = 1;
    }
}

/// Backoff sequence law: in the very first episode of a process the
/// delays observed before attempts 0, 1, 2, 3, ... are exactly
/// 0, 1, 2, 4, 4, ...; in any later episode (first delay 1) they are
/// 1, 2, 4, 4, ....
pub proof fn lemma_backoff_sequence(k: nat)
    ensures
        delay_before_attempt(0, k) == (if k == 0 {
            0u64
        } else if k == 1 {
            1u64
        } else if k == 2 {
            2u64
        } else {
            MAX_DELAY_SECS
        }),
        delay_before_attempt(1, k) == (if k == 0 {
            1u64
        } else if k == 1 {
            2u64
        } else {
            MAX_DELAY_SECS
        }),
    decreases k,
{
    if k > 0 {
        lemma_backoff_sequence((k - 1) as nat);
    }
}

} // verus!
