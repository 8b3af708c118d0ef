use vstd::prelude::*;

verus! {

/// Why a configuration value was rejected.
#[derive(Clone, Copy, Debug, PartialEq, Eq, Structural)]
pub enum ConfigError {
    /// The digits of a duration do not fit in 64 bits.
    InvalidNumber,
    /// A duration carries a unit other than ms, s, m, h or d.
    UnknownUnit,
    /// The text is not a duration at all.
    InvalidFormat,
    /// The duration, in milliseconds, does not fit in 64 bits.
    Overflow,
    /// The cron expression does not parse.
    InvalidSchedule,
}

} // verus!
