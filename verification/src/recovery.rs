//! Recovery records: the snapshot framer keys reader snapshot bytes to
//! `(step, state key, epoch)` so that a recovery store can resume the source
//! at the epoch boundary the snapshot closed.

use vstd::prelude::*;

verus! {

/// Identifier of one operator instance within a dataflow; stable across
/// restarts. First coordinate of the recovery key.
#[derive(Debug, PartialEq, Eq, Hash)]
pub struct StepId(pub String);

impl Clone for StepId {
    fn clone(&self) -> (r: Self)
        ensures
            r == self,
    {
        StepId(self.0.clone())
    }
}

/// Identifier of the partition of state this operator owns; stable across
/// restarts. Second coordinate of the recovery key.
#[derive(Debug, PartialEq, Eq, Hash)]
pub struct StateKey(pub String);

impl Clone for StateKey {
    fn clone(&self) -> (r: Self)
        ensures
            r == self,
    {
        StateKey(self.0.clone())
    }
}

/// Address of one snapshot in the recovery store: which operator, which state
/// partition, and the epoch whose end the snapshot captures.
#[derive(Clone, Debug, PartialEq, Eq)]
pub struct RecoveryKey {
    pub step_id: StepId,
    pub state_key: StateKey,
    pub epoch: u64,
}

/// An operation against the recovery store.
#[derive(Clone, Debug, PartialEq, Eq)]
pub enum StateOp {
    /// Store `snapshot` as the state under the key, with an optional request
    /// to be woken at an instant in milliseconds. The periodic-epoch source
    /// never asks to be woken.
    Upsert { snapshot: Vec<u8>, next_awake: Option<u64> },
    /// Remove the state under the key. Part of the recovery taxonomy, but
    /// never produced by the periodic-epoch source.
    Discard,
}

/// One record on the state-update output: an operation addressed to one
/// recovery key. The embedded epoch equals the timestamp under which the
/// record is emitted.
#[derive(Clone, Debug, PartialEq, Eq)]
pub struct StateUpdate {
    pub key: RecoveryKey,
    pub op: StateOp,
}

/// Frame reader snapshot bytes into the recovery record for the closing
/// epoch. Pure construction: the record carries exactly the epoch passed in,
/// no wake-up request, and identical inputs give identical records (the
/// ensures pins the result completely).
pub fn frame_snapshot(step_id: &StepId, state_key: &StateKey, epoch: u64, snapshot: Vec<u8>) -> (u:
    StateUpdate)
    ensures
        u == (StateUpdate {
            key: RecoveryKey { step_id: *step_id, state_key: *state_key, epoch },
            op: StateOp::Upsert { snapshot, next_awake: None },
        }),
{
    StateUpdate {
        key: RecoveryKey { step_id: step_id.clone(), state_key: state_key.clone(), epoch },
        op: StateOp::Upsert { snapshot, next_awake: None },
    }
}

} // verus!
