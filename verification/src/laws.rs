//! Laws of the source operator, stated and proved over whole runs: a run
//! folds the activation transition over a sequence of observed inputs and
//! concatenates the emissions of every activation in program order.

use vstd::prelude::*;

use crate::capability::CapPair;
use crate::capability::Capability;
use crate::clock::EpochClock;
use crate::source::Emitted;
use crate::source::EpochSource;
use crate::source::PollKind;

verus! {

/// What one activation observed: the back-pressure probe, the clock reading,
/// and the shape of the reader poll.
pub struct ActivationInput {
    pub probe_behind: bool,
    pub now: u64,
    pub poll: PollKind,
}

/// The state after running the operator over `ins`, activation by activation.
pub open spec fn run_state(s: EpochSource, ins: Seq<ActivationInput>) -> EpochSource
    decreases ins.len(),
{
    if ins.len() == 0 {
        s
    } else {
        run_state(s, ins.drop_last()).spec_next(
            ins.last().probe_behind,
            ins.last().now,
            ins.last().poll,
        )
    }
}

/// Every emission of that run, on both outputs, in program order.
pub open spec fn run_trace(s: EpochSource, ins: Seq<ActivationInput>) -> Seq<Emitted>
    decreases ins.len(),
{
    if ins.len() == 0 {
        Seq::<Emitted>::empty()
    } else {
        run_trace(s, ins.drop_last()) + run_state(s, ins.drop_last()).spec_emitted(
            ins.last().probe_behind,
            ins.last().now,
            ins.last().poll,
        )
    }
}

/// One activation preserves well-formedness, keeps the epoch length, the
/// start timestamp and the identifiers, and advances the epoch by at most
/// one.
pub proof fn lemma_step_preserves_wf(
    s: EpochSource,
    probe_behind: bool,
    now: u64,
    poll: PollKind,
)
    requires
        s.wf(),
        s.live() ==> s.spec_epoch() < u64::MAX,
    ensures
        ({
            let s2 = s.spec_next(probe_behind, now, poll);
            &&& s2.wf()
            &&& s2.clock.epoch_length == s.clock.epoch_length
            &&& s2.start_at == s.start_at
            &&& s2.step_id == s.step_id
            &&& s2.state_key == s.state_key
            &&& (s2.live() ==> s.live() && s.spec_epoch() <= s2.spec_epoch() <= s.spec_epoch()
                + 1)
        }),
{
}

/// A whole run from a well-formed state with enough epoch headroom stays well
/// formed; the epoch length, the start timestamp and the identifiers never
/// change, and the epoch grows by at most one per activation.
pub proof fn lemma_run_wf(s: EpochSource, ins: Seq<ActivationInput>)
    requires
        s.wf(),
        s.live() ==> s.spec_epoch() + ins.len() <= u64::MAX,
    ensures
        ({
            let s2 = run_state(s, ins);
            &&& s2.wf()
            &&& s2.clock.epoch_length == s.clock.epoch_length
            &&& s2.start_at == s.start_at
            &&& s2.step_id == s.step_id
            &&& s2.state_key == s.state_key
            &&& (s2.live() ==> s.live() && s.spec_epoch() <= s2.spec_epoch() <= s.spec_epoch()
                + ins.len())
        }),
    decreases ins.len(),
{
    if ins.len() > 0 {
        lemma_run_wf(s, ins.drop_last());
        lemma_step_preserves_wf(
            run_state(s, ins.drop_last()),
            ins.last().probe_behind,
            ins.last().now,
            ins.last().poll,
        );
    }
}

/// Law: whenever both capabilities are live they carry the same timestamp.
/// Every state reachable from a well-formed state keeps the data capability
/// and the snapshot capability in lock-step.
pub proof fn lemma_caps_lock_step(s: EpochSource, ins: Seq<ActivationInput>)
    requires
        s.wf(),
        s.live() ==> s.spec_epoch() + ins.len() <= u64::MAX,
    ensures
        run_state(s, ins).caps matches Some(c) ==> c.data.time == c.snap.time,
{
    lemma_run_wf(s, ins);
}

/// Adjacent emissions in a trace never jump: each timestamp repeats the one
/// before it or follows it by exactly one.
pub open spec fn adjacent_times_ok(trace: Seq<Emitted>) -> bool {
    forall|i: int|
        0 <= i && i + 1 < trace.len() ==> ((#[trigger] trace[i + 1]).time() == trace[i].time()
            || trace[i + 1].time() == trace[i].time() + 1)
}

/// Law: on the two outputs together, consecutive emitted timestamps either
/// repeat or advance by exactly one — no epoch is ever skipped in the
/// emission order.
pub proof fn lemma_trace_adjacent(s: EpochSource, ins: Seq<ActivationInput>)
    requires
        s.wf(),
        s.live() ==> s.spec_epoch() + ins.len() <= u64::MAX,
    ensures
        adjacent_times_ok(run_trace(s, ins)),
        ({
            let s2 = run_state(s, ins);
            let trace = run_trace(s, ins);
            trace.len() > 0 && s2.live() ==> trace.last().time() <= s2.spec_epoch()
                <= trace.last().time() + 1
        }),
    decreases ins.len(),
{
    if ins.len() > 0 {
        let pre = run_state(s, ins.drop_last());
        let prefix = run_trace(s, ins.drop_last());
        let step = pre.spec_emitted(ins.last().probe_behind, ins.last().now, ins.last().poll);
        lemma_trace_adjacent(s, ins.drop_last());
        lemma_run_wf(s, ins.drop_last());
        lemma_step_preserves_wf(
            pre,
            ins.last().probe_behind,
            ins.last().now,
            ins.last().poll,
        );
        assert forall|i: int| 0 <= i && i + 1 < (prefix + step).len() implies ((#[trigger] (prefix
            + step)[i + 1]).time() == (prefix + step)[i].time() || (prefix + step)[i + 1].time()
            == (prefix + step)[i].time() + 1) by {
            if i + 1 < prefix.len() {
                assert((prefix + step)[i] == prefix[i]);
                assert((prefix + step)[i + 1] == prefix[i + 1]);
            } else if i + 1 == prefix.len() {
                assert((prefix + step)[i] == prefix[i]);
                assert((prefix + step)[i + 1] == step[0]);
                assert(prefix.last() == prefix[i]);
            } else {
                assert((prefix + step)[i] == step[i - prefix.len()]);
                assert((prefix + step)[i + 1] == step[i + 1 - prefix.len()]);
            }
        }
    }
}

/// Every data item at a timestamp past the start is preceded, strictly
/// earlier in the trace, by the snapshot of the epoch just before it.
pub open spec fn data_preceded_by_snapshot(start_at: int, trace: Seq<Emitted>) -> bool {
    forall|i: int|
        0 <= i < trace.len() && (#[trigger] trace[i]) is Data && trace[i]->time > start_at
            ==> exists|j: int|
            0 <= j < i && #[trigger] trace[j] == (Emitted::Snapshot { epoch: trace[i]->time - 1 })
}

/// Helper invariant for the law below: while the capabilities are live, the
/// snapshot of the epoch just before the current one has already been
/// emitted, unless the current epoch is still the start epoch.
spec fn snapshot_coverage(s: EpochSource, trace: Seq<Emitted>) -> bool {
    s.live() ==> (s.spec_epoch() == s.start_at || exists|j: int|
        0 <= j < trace.len() && #[trigger] trace[j] == (Emitted::Snapshot {
            epoch: s.spec_epoch() - 1,
        }))
}

proof fn lemma_data_preceded_helper(s: EpochSource, ins: Seq<ActivationInput>)
    requires
        s.wf(),
        s.live() ==> s.spec_epoch() + ins.len() <= u64::MAX,
        s.live() ==> s.spec_epoch() == s.start_at,
    ensures
        data_preceded_by_snapshot(s.start_at as int, run_trace(s, ins)),
        snapshot_coverage(run_state(s, ins), run_trace(s, ins)),
    decreases ins.len(),
{
    if ins.len() > 0 {
        let pre = run_state(s, ins.drop_last());
        let prefix = run_trace(s, ins.drop_last());
        let probe_behind = ins.last().probe_behind;
        let now = ins.last().now;
        let poll = ins.last().poll;
        let step = pre.spec_emitted(probe_behind, now, poll);
        let trace = run_trace(s, ins);
        lemma_data_preceded_helper(s, ins.drop_last());
        lemma_run_wf(s, ins.drop_last());
        lemma_step_preserves_wf(pre, probe_behind, now, poll);
        assert forall|i: int|
            0 <= i < trace.len() && (#[trigger] trace[i]) is Data && trace[i]->time
                > s.start_at implies exists|j: int|
            0 <= j < i && #[trigger] trace[j] == (Emitted::Snapshot {
                epoch: trace[i]->time - 1,
            }) by {
            if i < prefix.len() {
                assert(trace[i] == prefix[i]);
                let j = choose|j: int|
                    0 <= j < i && #[trigger] prefix[j] == (Emitted::Snapshot {
                        epoch: prefix[i]->time - 1,
                    });
                assert(trace[j] == prefix[j]);
            } else {
                assert(trace[i] == step[i - prefix.len()]);
                let e = pre.spec_epoch() as int;
                let rolled = pre.clock.spec_is_elapsed(now);
                if rolled {
                    // The data item, if any, carries `e + 1`, and the
                    // snapshot for `e` stands immediately before it.
                    assert(step[0] == (Emitted::Snapshot { epoch: e }));
                    assert(trace[prefix.len() as int] == step[0]);
                } else {
                    // The data item carries the unchanged epoch `e`; the
                    // coverage invariant locates the snapshot for `e - 1`.
                    assert(step[i - prefix.len()] == (Emitted::Data { time: e }));
                    assert(pre.start_at == s.start_at);
                    assert(pre.spec_epoch() != pre.start_at);
                    let j = choose|j: int|
                        0 <= j < prefix.len() && #[trigger] prefix[j] == (Emitted::Snapshot {
                            epoch: e - 1,
                        });
                    assert(trace[j] == prefix[j]);
                }
            }
        }
        let s2 = run_state(s, ins);
        if s2.live() {
            let e = pre.spec_epoch() as int;
            if pre.spec_gate_open(probe_behind) {
                assert(pre.spec_epoch() < u64::MAX);
                if pre.clock.spec_is_elapsed(now) {
                    // The rollover itself emitted the snapshot for `e`, and
                    // the new epoch is `e + 1`.
                    assert(step[0] == (Emitted::Snapshot { epoch: e }));
                    assert(trace[prefix.len() as int] == step[0]);
                    assert(s2.spec_epoch() == e + 1);
                } else {
                    // The epoch is unchanged; the coverage witness carries
                    // over from the prefix.
                    assert(s2.spec_epoch() == pre.spec_epoch());
                    if pre.spec_epoch() != pre.start_at {
                        let j = choose|j: int|
                            0 <= j < prefix.len() && #[trigger] prefix[j] == (Emitted::Snapshot {
                                epoch: e - 1,
                            });
                        assert(trace[j] == prefix[j]);
                    }
                }
            } else {
                // A closed gate leaves the state unchanged, and the
                // coverage witness carries over from the prefix.
                assert(s2 == pre);
                if pre.spec_epoch() != pre.start_at {
                    let j = choose|j: int|
                        0 <= j < prefix.len() && #[trigger] prefix[j] == (Emitted::Snapshot {
                            epoch: e - 1,
                        });
                    assert(trace[j] == prefix[j]);
                }
            }
        }
    }
}

/// Law: for every emitted data item with timestamp `t` past the start epoch,
/// a snapshot record with timestamp `t - 1` was emitted strictly before it.
/// Stated over every run of a freshly started operator.
pub proof fn lemma_data_preceded_by_snapshot(s: EpochSource, ins: Seq<ActivationInput>)
    requires
        s.wf(),
        s.live(),
        s.spec_epoch() == s.start_at,
        s.spec_epoch() + ins.len() <= u64::MAX,
    ensures
        data_preceded_by_snapshot(s.start_at as int, run_trace(s, ins)),
{
    lemma_data_preceded_helper(s, ins);
}

/// Running over a concatenation is running over the parts in turn.
proof fn lemma_run_state_app(s: EpochSource, a: Seq<ActivationInput>, b: Seq<ActivationInput>)
    ensures
        run_state(s, a + b) == run_state(run_state(s, a), b),
    decreases b.len(),
{
    if b.len() == 0 {
        assert(a + b =~= a);
    } else {
        lemma_run_state_app(s, a, b.drop_last());
        assert((a + b).drop_last() =~= a + b.drop_last());
        assert((a + b).last() == b.last());
    }
}

/// A run never lowers the clock's start below a bound that every observed
/// instant respects.
proof fn lemma_started_lower_bound(s: EpochSource, ins: Seq<ActivationInput>, bound: u64)
    requires
        s.clock.epoch_started >= bound,
        forall|k: int| 0 <= k < ins.len() ==> (#[trigger] ins[k]).now >= bound,
    ensures
        run_state(s, ins).clock.epoch_started >= bound,
    decreases ins.len(),
{
    if ins.len() > 0 {
        lemma_started_lower_bound(s, ins.drop_last(), bound);
    }
}

/// Whether activation `i` of the run rolls the epoch over.
pub open spec fn rollover_at(s: EpochSource, ins: Seq<ActivationInput>, i: int) -> bool {
    run_state(s, ins.take(i)).spec_rollover_due(ins[i].probe_behind, ins[i].now)
}

/// Law: between any two rollovers at least a full epoch length of wall-clock
/// time passes, provided the host hands in non-decreasing instants (a
/// monotonic clock, as the design requires).
pub proof fn lemma_rollover_spacing(
    s: EpochSource,
    ins: Seq<ActivationInput>,
    i: int,
    j: int,
)
    requires
        s.wf(),
        s.live() ==> s.spec_epoch() + ins.len() <= u64::MAX,
        0 <= i < j < ins.len(),
        rollover_at(s, ins, i),
        rollover_at(s, ins, j),
        forall|k: int, l: int|
            0 <= k <= l < ins.len() ==> (#[trigger] ins[k]).now <= (#[trigger] ins[l]).now,
    ensures
        ins[j].now >= ins[i].now + s.clock.epoch_length,
{
    let si = run_state(s, ins.take(i));
    let si1 = run_state(s, ins.take(i + 1));
    assert(ins.take(i + 1).drop_last() =~= ins.take(i));
    assert(ins.take(i + 1).last() == ins[i]);
    assert(si1 == si.spec_next(ins[i].probe_behind, ins[i].now, ins[i].poll));
    lemma_run_wf(s, ins.take(i + 1));
    assert(si1.clock.epoch_started == ins[i].now);
    assert(si1.clock.epoch_length == s.clock.epoch_length);
    let mid = ins.subrange(i + 1, j);
    assert(ins.take(j) =~= ins.take(i + 1) + mid);
    lemma_run_state_app(s, ins.take(i + 1), mid);
    let sj = run_state(s, ins.take(j));
    assert(sj == run_state(si1, mid));
    assert forall|k: int| 0 <= k < mid.len() implies (#[trigger] mid[k]).now >= ins[i].now by {
        assert(mid[k] == ins[i + 1 + k]);
    }
    lemma_started_lower_bound(si1, mid, ins[i].now);
    lemma_run_wf(s, ins.take(j));
    assert(sj.clock.epoch_length == s.clock.epoch_length);
    if s.clock.epoch_length > 0 {
        assert(sj.clock.spec_is_elapsed(ins[j].now));
        assert(ins[j].now >= sj.clock.epoch_started);
    }
}

/// Two states that agree on everything an activation consults — the
/// capabilities, the end-of-input flag and the clock — stay in agreement and
/// emit the same trace over the same observations. The identifiers and the
/// recorded start timestamp never influence the dynamics.
pub open spec fn same_dynamics(a: EpochSource, b: EpochSource) -> bool {
    a.caps == b.caps && a.eof == b.eof && a.clock == b.clock
}

proof fn lemma_same_dynamics_run(a: EpochSource, b: EpochSource, ins: Seq<ActivationInput>)
    requires
        same_dynamics(a, b),
    ensures
        same_dynamics(run_state(a, ins), run_state(b, ins)),
        run_trace(a, ins) == run_trace(b, ins),
    decreases ins.len(),
{
    if ins.len() > 0 {
        lemma_same_dynamics_run(a, b, ins.drop_last());
    }
}

/// Law (snapshot round trip, operator side): a rollover at epoch `e` leaves
/// the operator in a state indistinguishable, in everything an activation
/// consults, from a freshly started operator whose capabilities begin at
/// `e + 1` and whose clock begins at the rollover instant. Both therefore
/// emit identical traces over the same subsequent observations — a restart
/// that rebuilds the reader from the rollover's snapshot resumes exactly at
/// the next epoch boundary. That the rebuilt reader replays the same items is
/// the reader's own snapshot contract, outside this kernel.
pub proof fn lemma_snapshot_round_trip(
    s: EpochSource,
    probe_behind: bool,
    now: u64,
    ins: Seq<ActivationInput>,
)
    requires
        s.wf(),
        s.spec_rollover_due(probe_behind, now),
        s.spec_epoch() < u64::MAX,
    ensures
        ({
            let next_epoch = (s.spec_epoch() + 1) as u64;
            let resumed = EpochSource {
                step_id: s.step_id,
                state_key: s.state_key,
                start_at: next_epoch,
                caps: Some(
                    CapPair {
                        data: Capability { time: next_epoch },
                        snap: Capability { time: next_epoch },
                    },
                ),
                eof: false,
                clock: EpochClock { epoch_length: s.clock.epoch_length, epoch_started: now },
            };
            run_trace(resumed, ins) == run_trace(
                s.spec_next(probe_behind, now, PollKind::Pending),
                ins,
            )
        }),
{
    let next_epoch = (s.spec_epoch() + 1) as u64;
    let resumed = EpochSource {
        step_id: s.step_id,
        state_key: s.state_key,
        start_at: next_epoch,
        caps: Some(
            CapPair {
                data: Capability { time: next_epoch },
                snap: Capability { time: next_epoch },
            },
        ),
        eof: false,
        clock: EpochClock { epoch_length: s.clock.epoch_length, epoch_started: now },
    };
    let s2 = s.spec_next(probe_behind, now, PollKind::Pending);
    assert(same_dynamics(resumed, s2));
    lemma_same_dynamics_run(resumed, s2, ins);
}

/// Law: end of input on the very first poll — before any rollover is due —
/// emits nothing at all; the activation releases both capabilities and does
/// not re-arm. The capabilities still stood at the start timestamp.
pub proof fn lemma_eof_on_first_poll(s: EpochSource, now: u64)
    requires
        s.wf(),
        s.live(),
        s.spec_epoch() == s.start_at,
        !s.clock.spec_is_elapsed(now),
    ensures
        s.spec_emitted(false, now, PollKind::Eof) == Seq::<Emitted>::empty(),
        s.spec_next(false, now, PollKind::Eof).caps is None,
        s.spec_next(false, now, PollKind::Eof).eof,
{
    assert(s.spec_emitted(false, now, PollKind::Eof) =~= Seq::<Emitted>::empty());
}

/// Law: end of input exactly at a rollover activation still emits the
/// snapshot for the closing epoch — and nothing else — before the activation
/// releases both capabilities.
pub proof fn lemma_eof_at_rollover(s: EpochSource, probe_behind: bool, now: u64)
    requires
        s.wf(),
        s.spec_rollover_due(probe_behind, now),
    ensures
        s.spec_emitted(probe_behind, now, PollKind::Eof) == seq![
            Emitted::Snapshot { epoch: s.spec_epoch() as int },
        ],
        s.spec_next(probe_behind, now, PollKind::Eof).caps is None,
        s.spec_next(probe_behind, now, PollKind::Eof).eof,
{
    assert(s.spec_emitted(probe_behind, now, PollKind::Eof) =~= seq![
        Emitted::Snapshot { epoch: s.spec_epoch() as int },
    ]);
}

} // verus!
