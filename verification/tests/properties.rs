use periodic_epoch::recovery::{StateKey, StepId};
use periodic_epoch::source::{EpochSource, PollOutcome};

fn props_source(start_at: u64, epoch_length: u64) -> EpochSource {
    EpochSource::new(
        StepId("props".to_string()),
        StateKey("worker-3".to_string()),
        start_at,
        epoch_length,
        0,
    )
}

// A mixed script: items, quiet polls and enough elapsed time for several
// rollovers. Each entry is one activation's clock reading and poll.
fn props_script() -> Vec<(u64, PollOutcome<u64>)> {
    let mut script = Vec::new();
    for now in 0..20u64 {
        let poll = if now % 3 == 0 {
            PollOutcome::Item(now)
        } else {
            PollOutcome::Pending
        };
        script.push((now, poll));
    }
    script
}

// Runs the script and records every emission in program order:
// `(false, epoch)` for a snapshot record, `(true, time)` for a data item.
fn props_run(src: &mut EpochSource, script: &[(u64, PollOutcome<u64>)]) -> Vec<(bool, u64)> {
    let mut trace = Vec::new();
    for &(now, poll) in script {
        let due = src.rollover_due(false, now);
        let bytes = if due { Some(vec![0xC3]) } else { None };
        let act = src.step(false, now, bytes, Some(poll));
        if let Some(update) = &act.snapshot {
            trace.push((false, update.key.epoch));
        }
        if let Some(timed) = &act.data {
            trace.push((true, timed.time));
        }
    }
    trace
}

#[test]
fn capabilities_stay_in_lock_step() {
    let mut src = props_source(0, 3);
    for &(now, poll) in &props_script() {
        let due = src.rollover_due(false, now);
        let bytes = if due { Some(vec![]) } else { None };
        let _ = src.step(false, now, bytes, Some(poll));
        if let Some(pair) = src.caps {
            assert_eq!(pair.data.time, pair.snap.time);
        }
    }
}

#[test]
fn every_item_past_start_has_the_previous_snapshot_before_it() {
    let mut src = props_source(0, 3);
    let trace = props_run(&mut src, &props_script());
    assert!(trace.iter().any(|&(is_data, t)| is_data && t > 0));
    for (i, &(is_data, t)) in trace.iter().enumerate() {
        if is_data && t > 0 {
            assert!(
                trace[..i]
                    .iter()
                    .any(|&(is_data2, e)| !is_data2 && e == t - 1),
                "item at {t} lacks a preceding snapshot for {}",
                t - 1
            );
        }
    }
}

#[test]
fn consecutive_timestamps_step_by_at_most_one() {
    let mut src = props_source(0, 3);
    let trace = props_run(&mut src, &props_script());
    assert!(trace.len() > 4);
    for pair in trace.windows(2) {
        let (t1, t2) = (pair[0].1, pair[1].1);
        assert!(t2 == t1 || t2 == t1 + 1, "timestamps jumped from {t1} to {t2}");
    }
}

#[test]
fn rollovers_are_at_least_an_epoch_length_apart() {
    let epoch_length = 3u64;
    let mut src = props_source(0, epoch_length);
    let mut rollover_nows = Vec::new();
    for &(now, poll) in &props_script() {
        let due = src.rollover_due(false, now);
        let bytes = if due { Some(vec![]) } else { None };
        let act = src.step(false, now, bytes, Some(poll));
        if act.snapshot.is_some() {
            rollover_nows.push(now);
        }
    }
    assert!(rollover_nows.len() >= 2);
    for pair in rollover_nows.windows(2) {
        assert!(pair[1] - pair[0] >= epoch_length);
    }
}
