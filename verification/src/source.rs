//! The source operator kernel. Between activations it holds the two output
//! capabilities, the end-of-input flag and the epoch clock; each activation
//! hands it what the host observed (the probe gate, the clock reading, one
//! reader poll outcome) and receives back what to emit and whether to re-arm.
//!
//! The order inside one activation follows the activation contract: first the
//! rollover (snapshot for the closing epoch, capabilities advanced by one,
//! clock reset), then the single reader poll, so an item delivered in a
//! rollover activation already belongs to the new epoch; at end of input both
//! capabilities are released in the same activation.

use vstd::prelude::*;

use crate::capability::CapPair;
use crate::capability::Capability;
use crate::clock::EpochClock;
use crate::recovery::RecoveryKey;
use crate::recovery::StateKey;
use crate::recovery::StateOp;
use crate::recovery::StateUpdate;
use crate::recovery::StepId;
use crate::recovery::frame_snapshot;

verus! {

/// What one non-blocking poll of the input reader observed.
#[derive(Clone, Copy, Debug)]
pub enum PollOutcome<D> {
    /// No item is available now; try again later.
    Pending,
    /// The reader is exhausted.
    Eof,
    /// The reader delivered an item for the current epoch.
    Item(D),
}

/// The shape of a poll outcome, without the item payload.
#[derive(Clone, Copy, Debug, PartialEq, Eq, Structural)]
pub enum PollKind {
    Pending,
    Eof,
    Item,
}

impl<D> PollOutcome<D> {
    /// The shape of this outcome.
    pub open spec fn kind(self) -> PollKind {
        match self {
            PollOutcome::Pending => PollKind::Pending,
            PollOutcome::Eof => PollKind::Eof,
            PollOutcome::Item(_) => PollKind::Item,
        }
    }
}

/// The shape of an optional poll: an activation whose gate is closed polls
/// nothing, which the transition treats like a pending poll.
pub open spec fn poll_kind_of<D>(poll: Option<PollOutcome<D>>) -> PollKind {
    match poll {
        Some(p) => p.kind(),
        None => PollKind::Pending,
    }
}

/// A data item together with the timestamp under which it is emitted.
#[derive(Debug)]
pub struct TimedItem<D> {
    pub time: u64,
    pub item: D,
}

/// What one activation emits and decides.
#[derive(Debug)]
pub struct ActivationOutput<D> {
    /// At most one snapshot record, keyed to the closing epoch, emitted
    /// before any data item of this activation.
    pub snapshot: Option<StateUpdate>,
    /// At most one data item, stamped with the capability time at emission.
    pub data: Option<TimedItem<D>>,
    /// Whether the operator re-arms its activator: true until end of input.
    pub rearm: bool,
}

/// One emission as seen on the operator's outputs. Specifications use it to
/// state ordering properties over whole runs.
pub enum Emitted {
    /// A snapshot record emitted at the closing epoch.
    Snapshot { epoch: int },
    /// A data item emitted at a timestamp.
    Data { time: int },
}

impl Emitted {
    /// The timestamp the emission carries.
    pub open spec fn time(self) -> int {
        match self {
            Emitted::Snapshot { epoch } => epoch,
            Emitted::Data { time } => time,
        }
    }
}

impl<D> ActivationOutput<D> {
    /// The emissions of this activation in program order: the snapshot, if
    /// any, strictly before the data item, if any.
    pub open spec fn spec_trace(self) -> Seq<Emitted> {
        (match self.snapshot {
            Some(u) => seq![Emitted::Snapshot { epoch: u.key.epoch as int }],
            None => Seq::<Emitted>::empty(),
        }) + (match self.data {
            Some(ti) => seq![Emitted::Data { time: ti.time as int }],
            None => Seq::<Emitted>::empty(),
        })
    }
}

/// The source operator state between activations.
#[derive(Debug)]
pub struct EpochSource {
    /// Identifier of this operator instance; first coordinate of the
    /// recovery key.
    pub step_id: StepId,
    /// Identifier of the state partition this operator owns.
    pub state_key: StateKey,
    /// The timestamp both capabilities begin at.
    pub start_at: u64,
    /// The two output capabilities; live until end of input, then released.
    pub caps: Option<CapPair>,
    /// Whether the reader has reported end of stream.
    pub eof: bool,
    /// The rollover clock.
    pub clock: EpochClock,
}

impl EpochSource {
    /// Whether both capabilities are live.
    pub open spec fn live(self) -> bool {
        self.caps is Some
    }

    /// The current epoch: the common time of the live capabilities.
    pub open spec fn spec_epoch(self) -> u64
        recommends
            self.live(),
    {
        self.caps.unwrap().spec_time()
    }

    /// Well-formed state: live capabilities agree on their timestamp and
    /// never stand before `start_at`, and once the reader has ended both
    /// capabilities are released.
    pub open spec fn wf(self) -> bool {
        &&& (self.caps matches Some(c) ==> c.wf() && c.spec_time() >= self.start_at)
        &&& (self.eof ==> self.caps is None)
    }

    /// The back-pressure gate: open when the capabilities are live and no
    /// downstream consumer still owes progress strictly before the current
    /// epoch. Only an open gate permits snapshotting and polling.
    pub open spec fn spec_gate_open(self, probe_behind: bool) -> bool {
        self.live() && !probe_behind
    }

    /// Whether this activation rolls the epoch over: an open gate with a
    /// full epoch length elapsed.
    pub open spec fn spec_rollover_due(self, probe_behind: bool, now: u64) -> bool {
        self.spec_gate_open(probe_behind) && self.clock.spec_is_elapsed(now)
    }

    /// The state transition of one activation.
    pub open spec fn spec_next(self, probe_behind: bool, now: u64, poll: PollKind) -> EpochSource {
        if self.spec_gate_open(probe_behind) {
            let rolled = self.clock.spec_is_elapsed(now);
            let time2: u64 = if rolled {
                (self.spec_epoch() + 1) as u64
            } else {
                self.spec_epoch()
            };
            let clock2 = if rolled {
                EpochClock { epoch_started: now, ..self.clock }
            } else {
                self.clock
            };
            let eof2 = poll is Eof;
            EpochSource {
                caps: if eof2 {
                    None
                } else {
                    Some(
                        CapPair {
                            data: Capability { time: time2 },
                            snap: Capability { time: time2 },
                        },
                    )
                },
                eof: eof2,
                clock: clock2,
                ..self
            }
        } else {
            if self.eof {
                EpochSource { caps: None, ..self }
            } else {
                self
            }
        }
    }

    /// The emissions of one activation, in program order: the snapshot for
    /// the closing epoch first, then a data item in the (possibly new) epoch.
    pub open spec fn spec_emitted(self, probe_behind: bool, now: u64, poll: PollKind) -> Seq<
        Emitted,
    > {
        if self.spec_gate_open(probe_behind) {
            let e = self.spec_epoch() as int;
            let rolled = self.clock.spec_is_elapsed(now);
            let snaps: Seq<Emitted> = if rolled {
                seq![Emitted::Snapshot { epoch: e }]
            } else {
                Seq::<Emitted>::empty()
            };
            let time2: int = if rolled {
                e + 1
            } else {
                e
            };
            let datas: Seq<Emitted> = if poll is Item {
                seq![Emitted::Data { time: time2 }]
            } else {
                Seq::<Emitted>::empty()
            };
            snaps + datas
        } else {
            Seq::<Emitted>::empty()
        }
    }

    /// A new operator: both capabilities delayed to `start_at`, reader not
    /// yet ended, and an epoch clock begun at `now`.
    pub fn new(
        step_id: StepId,
        state_key: StateKey,
        start_at: u64,
        epoch_length: u64,
        now: u64,
    ) -> (s: EpochSource)
        ensures
            s == (EpochSource {
                step_id,
                state_key,
                start_at,
                caps: Some(
                    CapPair {
                        data: Capability { time: start_at },
                        snap: Capability { time: start_at },
                    },
                ),
                eof: false,
                clock: EpochClock { epoch_length, epoch_started: now },
            }),
            s.wf(),
            s.live(),
            s.spec_epoch() == start_at,
    {
        EpochSource {
            step_id,
            state_key,
            start_at,
            caps: Some(CapPair::new(start_at)),
            eof: false,
            clock: EpochClock::new(epoch_length, now),
        }
    }

    /// The current epoch while the capabilities are live.
    pub fn epoch(&self) -> (e: Option<u64>)
        requires
            self.wf(),
        ensures
            e == (if self.live() {
                Some(self.spec_epoch())
            } else {
                None::<u64>
            }),
    {
        match &self.caps {
            Some(c) => Some(c.time()),
            None => None,
        }
    }

    /// Whether this activation may emit and poll: live capabilities with no
    /// back-pressure from downstream.
    pub fn gate_open(&self, probe_behind: bool) -> (r: bool)
        ensures
            r == self.spec_gate_open(probe_behind),
    {
        self.caps.is_some() && !probe_behind
    }

    /// Whether this activation will roll the epoch over — and so needs the
    /// reader snapshot taken before the activation is stepped.
    pub fn rollover_due(&self, probe_behind: bool, now: u64) -> (r: bool)
        ensures
            r == self.spec_rollover_due(probe_behind, now),
    {
        self.gate_open(probe_behind) && self.clock.is_elapsed(now)
    }

    /// One activation. `probe_behind` is whether the downstream frontier
    /// still owes progress strictly before the current epoch;
    /// `snapshot_bytes` is the reader snapshot, taken exactly when a rollover
    /// is due; `poll` is the single reader poll, made exactly on an open
    /// gate. The snapshot is taken before the poll, so it captures the
    /// reader position at the end of the closing epoch.
    pub fn step<D>(
        &mut self,
        probe_behind: bool,
        now: u64,
        snapshot_bytes: Option<Vec<u8>>,
        poll: Option<PollOutcome<D>>,
    ) -> (act: ActivationOutput<D>)
        requires
            old(self).wf(),
            snapshot_bytes is Some <==> old(self).spec_rollover_due(probe_behind, now),
            poll is Some <==> old(self).spec_gate_open(probe_behind),
            old(self).spec_rollover_due(probe_behind, now) ==> old(self).spec_epoch() < u64::MAX,
        ensures
            final(self).wf(),
            *final(self) == old(self).spec_next(probe_behind, now, poll_kind_of(poll)),
            act.spec_trace() == old(self).spec_emitted(probe_behind, now, poll_kind_of(poll)),
            act.snapshot == (if old(self).spec_rollover_due(probe_behind, now) {
                Some(
                    StateUpdate {
                        key: RecoveryKey {
                            step_id: old(self).step_id,
                            state_key: old(self).state_key,
                            epoch: old(self).spec_epoch(),
                        },
                        op: StateOp::Upsert { snapshot: snapshot_bytes.unwrap(), next_awake: None },
                    },
                )
            } else {
                None::<StateUpdate>
            }),
            act.data matches Some(ti) ==> {
                &&& old(self).spec_gate_open(probe_behind)
                &&& poll matches Some(PollOutcome::Item(d)) && ti.item == d
                &&& ti.time == final(self).spec_epoch()
                &&& final(self).live()
            },
            old(self).spec_gate_open(probe_behind) && poll_kind_of(poll) is Item ==> act.data
                is Some,
            act.rearm == !final(self).eof,
    {
        let mut snap_out: Option<StateUpdate> = None;
        let mut data_out: Option<TimedItem<D>> = None;
        if self.gate_open(probe_behind) {
            let mut cp = self.caps.unwrap();
            let epoch = cp.time();
            if self.clock.is_elapsed(now) {
                let bytes = snapshot_bytes.unwrap();
                snap_out = Some(frame_snapshot(&self.step_id, &self.state_key, epoch, bytes));
                cp.downgrade(epoch + 1);
                self.clock.reset(now);
            }
            match poll {
                Some(PollOutcome::Pending) => {},
                Some(PollOutcome::Eof) => {
                    self.eof = true;
                },
                Some(PollOutcome::Item(item)) => {
                    data_out = Some(TimedItem { time: cp.time(), item });
                },
                None => {},
            }
            self.caps = Some(cp);
        }
        if self.eof {
            self.caps = None;
        }
        let rearm = !self.eof;
        ActivationOutput { snapshot: snap_out, data: data_out, rearm }
    }
}

} // verus!
