//! The epoch clock: wall-time since the current epoch began, against a fixed
//! epoch length. Instants are milliseconds of a monotonic clock; should the
//! host hand in a non-monotonic instant anyway, the elapsed time is clamped
//! below at zero.

use vstd::prelude::*;

verus! {

/// Wall-clock state of the current epoch.
#[derive(Clone, Copy, Debug, PartialEq, Eq, Structural)]
pub struct EpochClock {
    /// Minimum wall-clock interval between successive rollovers, in
    /// milliseconds.
    pub epoch_length: u64,
    /// Instant, in milliseconds, at which the current epoch began.
    pub epoch_started: u64,
}

impl EpochClock {
    /// Milliseconds elapsed since the current epoch began, clamped below at
    /// zero so that a backwards wall-clock step never yields a negative
    /// elapsed time.
    pub open spec fn spec_elapsed(self, now: u64) -> int {
        if now >= self.epoch_started {
            now - self.epoch_started
        } else {
            0
        }
    }

    /// Whether a full epoch length has passed since the current epoch began.
    pub open spec fn spec_is_elapsed(self, now: u64) -> bool {
        self.spec_elapsed(now) >= self.epoch_length
    }

    /// A clock whose current epoch begins at `now`.
    pub fn new(epoch_length: u64, now: u64) -> (c: EpochClock)
        ensures
            c == (EpochClock { epoch_length, epoch_started: now }),
    {
        EpochClock { epoch_length, epoch_started: now }
    }

    /// True iff the current epoch is due to roll over.
    pub fn is_elapsed(&self, now: u64) -> (r: bool)
        ensures
            r == self.spec_is_elapsed(now),
    {
        let elapsed: u64 = if now >= self.epoch_started {
            now - self.epoch_started
        } else {
            0
        };
        elapsed >= self.epoch_length
    }

    /// Begin a new epoch at `now`, keeping the epoch length.
    pub fn reset(&mut self, now: u64)
        ensures
            *final(self) == (EpochClock { epoch_started: now, ..*old(self) }),
    {
        self.epoch_started = now;
    }
}

} // verus!
