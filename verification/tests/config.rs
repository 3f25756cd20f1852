use periodic_epoch::config::{
    resolve_epoch_length, ConfigError, PeriodicEpochConfig, DEFAULT_EPOCH_LENGTH_MILLIS,
};
use periodic_epoch::recovery::{frame_snapshot, RecoveryKey, StateKey, StateOp, StepId};

#[test]
fn default_epoch_length_is_ten_seconds() {
    assert_eq!(DEFAULT_EPOCH_LENGTH_MILLIS, 10_000);
    assert_eq!(resolve_epoch_length(None), Ok(10_000));
}

#[test]
fn configured_epoch_length_is_used() {
    let config = PeriodicEpochConfig::new(250);
    assert_eq!(config.epoch_length(), Ok(250));
    assert_eq!(resolve_epoch_length(Some(&config)), Ok(250));
}

#[test]
fn zero_epoch_length_is_accepted() {
    let config = PeriodicEpochConfig::new(0);
    assert_eq!(config.epoch_length(), Ok(0));
}

#[test]
fn negative_epoch_length_is_a_configuration_error() {
    let config = PeriodicEpochConfig::new(-1);
    assert_eq!(config.epoch_length(), Err(ConfigError::NegativeEpochLength));
    assert_eq!(
        resolve_epoch_length(Some(&config)),
        Err(ConfigError::NegativeEpochLength)
    );
}

#[test]
fn framer_keys_bytes_to_step_state_and_epoch() {
    let step_id = StepId("input".to_string());
    let state_key = StateKey("worker-2".to_string());
    let update = frame_snapshot(&step_id, &state_key, 7, vec![1, 2, 3]);
    assert_eq!(
        update.key,
        RecoveryKey { step_id, state_key, epoch: 7 }
    );
    assert_eq!(
        update.op,
        StateOp::Upsert { snapshot: vec![1, 2, 3], next_awake: None }
    );
}

#[test]
fn framer_is_idempotent_on_identical_inputs() {
    let step_id = StepId("input".to_string());
    let state_key = StateKey("worker-2".to_string());
    let first = frame_snapshot(&step_id, &state_key, 11, vec![4, 5]);
    let second = frame_snapshot(&step_id, &state_key, 11, vec![4, 5]);
    assert_eq!(first, second);
}
