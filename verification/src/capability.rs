//! Timestamp capabilities. A capability permits emission on one output at one
//! timestamp and can only be downgraded monotonically. The source operator
//! holds one capability per output, kept in lock-step by `CapPair`, whose
//! single `downgrade` advances both together.

use vstd::prelude::*;

verus! {

/// Permission to emit on one output at the timestamp `time`.
#[derive(Clone, Copy, Debug, PartialEq, Eq, Structural)]
pub struct Capability {
    pub time: u64,
}

impl Capability {
    /// A capability for timestamp `time`.
    pub fn new(time: u64) -> (c: Capability)
        ensures
            c == (Capability { time }),
    {
        Capability { time }
    }

    /// A copy of this capability delayed to the later timestamp `time`.
    pub fn delayed(&self, time: u64) -> (c: Capability)
        requires
            time >= self.time,
        ensures
            c == (Capability { time }),
    {
        Capability { time }
    }

    /// Advance this capability to `time`. Downgrades are monotonic: a caller
    /// may never move a capability backwards.
    pub fn downgrade(&mut self, time: u64)
        requires
            time >= old(self).time,
        ensures
            *final(self) == (Capability { time }),
    {
        self.time = time;
    }
}

/// The operator's two capabilities — one for the data output, one for the
/// snapshot output — advanced only in lock-step.
#[derive(Clone, Copy, Debug, PartialEq, Eq, Structural)]
pub struct CapPair {
    pub data: Capability,
    pub snap: Capability,
}

impl CapPair {
    /// The pair is well formed when both capabilities carry the same
    /// timestamp.
    pub open spec fn wf(self) -> bool {
        self.data.time == self.snap.time
    }

    /// The common timestamp of the pair.
    pub open spec fn spec_time(self) -> u64 {
        self.data.time
    }

    /// A pair of capabilities both delayed to `start_at`.
    pub fn new(start_at: u64) -> (p: CapPair)
        ensures
            p.wf(),
            p.spec_time() == start_at,
    {
        CapPair { data: Capability::new(start_at), snap: Capability::new(start_at) }
    }

    /// The common timestamp of both capabilities.
    pub fn time(&self) -> (t: u64)
        requires
            self.wf(),
        ensures
            t == self.spec_time(),
    {
        self.data.time
    }

    /// Advance both capabilities together to `time`.
    pub fn downgrade(&mut self, time: u64)
        requires
            old(self).wf(),
            time >= old(self).spec_time(),
        ensures
            final(self).wf(),
            final(self).spec_time() == time,
            final(self).data.time == time,
            final(self).snap.time == time,
    {
        self.data.downgrade(time);
        self.snap.downgrade(time);
    }
}

} // verus!
