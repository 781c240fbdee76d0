//! The errors a generator can return, at construction or at generation time.

use vstd::prelude::*;
use vstd::string::StringExecFns;

verus! {

/// Everything that can go wrong when building a generator or generating an ID.
#[derive(Debug, Clone, PartialEq)]
pub enum SnowflakeError {
    /// An invalid configuration value at construction time. Carries a
    /// description of the offending value and its valid range.
    ArgumentError(String),
    /// The system clock regressed — behind the generator's epoch, or within
    /// a tick whose sequence space is already spent — so no safe ID can be
    /// produced.
    ClockMoveBackwards,
    /// The spin-wait for the next time period exceeded the configured timeout.
    WaitForNextPeriodTimeout,
    /// The configured epoch is not strictly before the current time.
    InvalidEpoch,
    /// The current time could not be read, or could not be represented in
    /// 64-bit milliseconds: distinct from a clock regression.
    FailedConvertToMillis,
}

impl SnowflakeError {
    /// The text that `message` returns.
    pub open spec fn spec_message(self) -> Seq<char> {
        match self {
            SnowflakeError::ArgumentError(m) => "argument error: "@ + m@,
            SnowflakeError::ClockMoveBackwards => "clock move backwards"@,
            SnowflakeError::WaitForNextPeriodTimeout => "wait for next period timeout"@,
            SnowflakeError::InvalidEpoch => "epoch must be greater than the current time"@,
            SnowflakeError::FailedConvertToMillis => "failed to convert timestamp to milliseconds"@,
        }
    }

    /// A human-readable description of the error.
    pub fn message(&self) -> (r: String)
        ensures
            r@ == self.spec_message(),
    {
        match self {
            SnowflakeError::ArgumentError(m) => {
                let mut s = String::from_str("argument error: ");
                s.append(m.as_str());
                s
            },
            SnowflakeError::ClockMoveBackwards => String::from_str("clock move backwards"),
            SnowflakeError::WaitForNextPeriodTimeout => String::from_str(
                "wait for next period timeout",
            ),
            SnowflakeError::InvalidEpoch => String::from_str(
                "epoch must be greater than the current time",
            ),
            SnowflakeError::FailedConvertToMillis => String::from_str(
                "failed to convert timestamp to milliseconds",
            ),
        }
    }
}

} // verus!
