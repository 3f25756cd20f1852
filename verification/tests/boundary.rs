use periodic_epoch::recovery::{StateKey, StateOp, StepId};
use periodic_epoch::source::{EpochSource, PollOutcome};

fn boundary_source(start_at: u64, epoch_length: u64, now: u64) -> EpochSource {
    EpochSource::new(
        StepId("edge".to_string()),
        StateKey("worker-1".to_string()),
        start_at,
        epoch_length,
        now,
    )
}

#[test]
fn eof_at_rollover_still_snapshots_closing_epoch() {
    let mut src = boundary_source(3, 5, 0);

    // A full epoch length has passed and the reader ends in the very same
    // activation: the snapshot for the closing epoch is still emitted, then
    // both capabilities are released.
    assert!(src.rollover_due(false, 5));
    let act = src.step::<&str>(false, 5, Some(vec![0x01, 0x02]), Some(PollOutcome::Eof));
    let snap = act.snapshot.expect("snapshot for the closing epoch");
    assert_eq!(snap.key.epoch, 3);
    assert_eq!(
        snap.op,
        StateOp::Upsert { snapshot: vec![0x01, 0x02], next_awake: None }
    );
    assert!(act.data.is_none());
    assert!(!act.rearm);
    assert_eq!(src.epoch(), None);
}

#[test]
fn zero_epoch_length_rolls_once_per_activation() {
    let mut src = boundary_source(0, 0, 0);

    // With a zero epoch length every open-gate activation rolls over, but
    // each activation emits at most one snapshot: epochs cost one activation
    // each and none is skipped.
    for expected_epoch in 0..5u64 {
        assert!(src.rollover_due(false, 0));
        let act = src.step::<&str>(false, 0, Some(vec![]), Some(PollOutcome::Pending));
        let snap = act.snapshot.expect("one snapshot per activation");
        assert_eq!(snap.key.epoch, expected_epoch);
        assert!(act.data.is_none());
        assert_eq!(src.epoch(), Some(expected_epoch + 1));
    }
}

#[test]
fn items_after_rollover_carry_the_new_epoch() {
    let mut src = boundary_source(0, 10, 0);

    let act = src.step(false, 0, None, Some(PollOutcome::Item("early")));
    assert_eq!(act.data.expect("early item").time, 0);

    assert!(src.rollover_due(false, 10));
    let act = src.step(false, 10, Some(vec![9]), Some(PollOutcome::Item("late")));
    assert_eq!(act.snapshot.expect("snapshot").key.epoch, 0);
    let ti = act.data.expect("late item");
    assert_eq!((ti.time, ti.item), (1, "late"));
}

#[test]
fn backwards_clock_never_rolls_early() {
    // The clock clamps a backwards wall-clock step to a zero elapsed time.
    let mut src = boundary_source(0, 5, 100);
    assert!(!src.rollover_due(false, 97));
    let act = src.step::<&str>(false, 97, None, Some(PollOutcome::Pending));
    assert!(act.snapshot.is_none());
    assert_eq!(src.epoch(), Some(0));
    assert!(src.rollover_due(false, 105));
}

#[test]
fn resumed_source_replays_the_suffix() {
    // Run a source up to and through a rollover, recording the emissions of
    // the suffix that starts with the new epoch.
    let mut original = boundary_source(0, 4, 0);
    let act = original.step(false, 1, None, Some(PollOutcome::Item("a")));
    assert_eq!(act.data.expect("item").time, 0);

    assert!(original.rollover_due(false, 4));
    let act = original.step::<&str>(false, 4, Some(vec![0x55]), Some(PollOutcome::Pending));
    let snap = act.snapshot.expect("rollover snapshot");
    assert_eq!(snap.key.epoch, 0);

    // A restart reconstructs the reader from those snapshot bytes and starts
    // a fresh operator at the epoch after the one the snapshot closed, with a
    // clock begun at the rollover instant.
    let mut resumed = boundary_source(1, 4, 4);
    assert_eq!(resumed.epoch(), original.epoch());

    let suffix_polls = [
        PollOutcome::Item("b"),
        PollOutcome::Pending,
        PollOutcome::Item("c"),
    ];
    let nows = [5u64, 6, 9];
    for k in 0..suffix_polls.len() {
        let now = nows[k];
        let due_orig = original.rollover_due(false, now);
        let due_res = resumed.rollover_due(false, now);
        assert_eq!(due_orig, due_res);
        let bytes_orig = if due_orig { Some(vec![0x77]) } else { None };
        let bytes_res = if due_res { Some(vec![0x77]) } else { None };
        let act_orig = original.step(false, now, bytes_orig, Some(suffix_polls[k]));
        let act_res = resumed.step(false, now, bytes_res, Some(suffix_polls[k]));
        match (&act_orig.snapshot, &act_res.snapshot) {
            (None, None) => {}
            (Some(a), Some(b)) => assert_eq!(a.key.epoch, b.key.epoch),
            _ => panic!("one source snapshotted and the other did not"),
        }
        match (&act_orig.data, &act_res.data) {
            (None, None) => {}
            (Some(a), Some(b)) => assert_eq!((a.time, a.item), (b.time, b.item)),
            _ => panic!("one source emitted and the other did not"),
        }
        assert_eq!(original.epoch(), resumed.epoch());
    }
}
