//! What can go wrong, by the part of the lifecycle that reports it.

use vstd::prelude::*;

verus! {

/// A configuration value that the service cannot run with.
#[derive(Clone, Debug, PartialEq, Eq)]
pub enum ConfigError {
    /// The warning phase was given a negative length.
    NegativeWarnDuration(i64),
    /// The reboot phase was given a negative length.
    NegativeRebootDuration(i64),
    /// The pause between two warnings was zero.
    ZeroWarnInterval,
    /// The daily reboot time is no `HH:MM:SS` or `HH:MM` time of day.
    InvalidRebootTime(String),
}

/// Why a stored start record could not be read.
#[derive(Clone, Copy, Debug, PartialEq, Eq, Structural)]
pub enum RecordFault {
    /// The record is not a single JSON string.
    NotAString,
    /// The string in the record is not an RFC 3339 timestamp.
    NotATimestamp,
}

/// A failure reported by an operating-system action.
#[derive(Clone, Debug, PartialEq, Eq)]
pub struct OsError {
    pub message: String,
}

/// A failure that ends the service.
#[derive(Clone, Debug, PartialEq, Eq)]
pub enum ServiceError {
    /// The configuration is unusable.
    Config(ConfigError),
    /// The stored start record exists but cannot be read back.
    StateCorrupt(RecordFault),
    /// The start record could not be written.
    StateWriteError,
    /// Setting or clearing a banner failed.
    Banner(OsError),
    /// The reboot action failed.
    RebootAction(OsError),
    /// The shutdown action failed.
    ShutdownAction(OsError),
}

impl ConfigError {
    /// A copy of this error.
    pub fn duplicate(&self) -> (r: ConfigError)
        ensures
            r == *self,
    {
        match self {
            ConfigError::NegativeWarnDuration(days) => ConfigError::NegativeWarnDuration(*days),
            ConfigError::NegativeRebootDuration(days) => ConfigError::NegativeRebootDuration(
                *days,
            ),
            ConfigError::ZeroWarnInterval => ConfigError::ZeroWarnInterval,
            ConfigError::InvalidRebootTime(text) => ConfigError::InvalidRebootTime(text.clone()),
        }
    }
}

impl OsError {
    /// A copy of this error.
    pub fn duplicate(&self) -> (r: OsError)
        ensures
            r == *self,
    {
        OsError { message: self.message.clone() }
    }
}

impl ServiceError {
    /// A copy of this error.
    pub fn duplicate(&self) -> (r: ServiceError)
        ensures
            r == *self,
    {
        match self {
            ServiceError::Config(e) => ServiceError::Config(e.duplicate()),
            ServiceError::StateCorrupt(fault) => ServiceError::StateCorrupt(*fault),
            ServiceError::StateWriteError => ServiceError::StateWriteError,
            ServiceError::Banner(e) => ServiceError::Banner(e.duplicate()),
            ServiceError::RebootAction(e) => ServiceError::RebootAction(e.duplicate()),
            ServiceError::ShutdownAction(e) => ServiceError::ShutdownAction(e.duplicate()),
        }
    }
}

} // verus!
