//! Configuration of the epoch schedule. The host configuration layer hands in
//! a signed duration in milliseconds; a negative length is a configuration
//! error, surfaced at construction and never at runtime.

use vstd::prelude::*;

verus! {

/// Epoch length used when no configuration is supplied: ten seconds.
pub const DEFAULT_EPOCH_LENGTH_MILLIS: u64 = 10_000;

/// A configuration error. Raised at construction time only.
#[derive(Clone, Copy, Debug, PartialEq, Eq, Structural)]
pub enum ConfigError {
    /// The configured epoch length is negative, so it is convertible to no
    /// duration.
    NegativeEpochLength,
}

/// Configuration of the periodic-epoch source: the system-time length of each
/// epoch, as the signed millisecond count the host configuration layer
/// measures.
#[derive(Clone, Copy, Debug, PartialEq, Eq, Structural)]
pub struct PeriodicEpochConfig {
    pub epoch_length_millis: i64,
}

impl PeriodicEpochConfig {
    /// A configuration with the given epoch length.
    pub fn new(epoch_length_millis: i64) -> (c: PeriodicEpochConfig)
        ensures
            c == (PeriodicEpochConfig { epoch_length_millis }),
    {
        PeriodicEpochConfig { epoch_length_millis }
    }

    /// The configured epoch length as an unsigned duration in milliseconds:
    /// the configured value exactly when it is non-negative, and an error
    /// otherwise.
    pub fn epoch_length(&self) -> (r: Result<u64, ConfigError>)
        ensures
            self.epoch_length_millis >= 0 ==> r == Ok::<u64, ConfigError>(
                self.epoch_length_millis as u64,
            ),
            self.epoch_length_millis < 0 ==> r == Err::<u64, ConfigError>(
                ConfigError::NegativeEpochLength,
            ),
    {
        if self.epoch_length_millis >= 0 {
            Ok(self.epoch_length_millis as u64)
        } else {
            Err(ConfigError::NegativeEpochLength)
        }
    }
}

/// The epoch length a run uses: the configured value when a configuration is
/// supplied and non-negative, the default when none is supplied, and an error
/// when the configured value is negative.
pub fn resolve_epoch_length(config: Option<&PeriodicEpochConfig>) -> (r: Result<u64, ConfigError>)
    ensures
        config is None ==> r == Ok::<u64, ConfigError>(DEFAULT_EPOCH_LENGTH_MILLIS),
        config matches Some(c) ==> r == (if c.epoch_length_millis >= 0 {
            Ok::<u64, ConfigError>(c.epoch_length_millis as u64)
        } else {
            Err::<u64, ConfigError>(ConfigError::NegativeEpochLength)
        }),
{
    match config {
        None => Ok(DEFAULT_EPOCH_LENGTH_MILLIS),
        Some(c) => c.epoch_length(),
    }
}

} // verus!
