//! A periodic-epoch source operator: the decision kernel of a dataflow source
//! that partitions the records of an input reader into integer epochs that
//! advance on a wall-clock schedule, and that emits one recovery snapshot per
//! epoch rollover, keyed to the closing epoch.
//!
//! The kernel is a state machine. Each host activation hands it what the
//! runtime observed (the probe gate, the clock, one reader poll outcome) and
//! receives back what to emit (at most one snapshot, at most one data item)
//! and whether to re-arm the activator. The host side that owns the real
//! dataflow handles lives outside this crate and only applies those decisions.

pub mod capability;
pub mod clock;
pub mod config;
pub mod laws;
pub mod recovery;
pub mod source;
