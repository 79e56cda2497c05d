//! How much the bridge logs, as chosen on the command line.

use vstd::prelude::*;

verus! {

/// The most often that the verbosity flag may be repeated.
pub const MAX_VERBOSITY: u8 = 4;

/// The least severe kind of record that is still logged.
#[derive(Clone, Copy, Debug, PartialEq, Eq, Structural)]
pub enum LogLevel {
    Error,
    Warn,
    Info,
    Debug,
    Trace,
}

/// The level that a number of verbosity flags asks for: errors only without a
/// flag, one level more with each flag, and none beyond [`MAX_VERBOSITY`].
pub open spec fn level_of(verbosity: u8) -> Option<LogLevel> {
    if verbosity == 0 {
        Some(LogLevel::Error)
    } else if verbosity == 1 {
        Some(LogLevel::Warn)
    } else if verbosity == 2 {
        Some(LogLevel::Info)
    } else if verbosity == 3 {
        Some(LogLevel::Debug)
    } else if verbosity == 4 {
        Some(LogLevel::Trace)
    } else {
        None
    }
}

impl LogLevel {
    /// The level for `verbosity` repetitions of the verbosity flag, or `None`
    /// where the flag was given more than [`MAX_VERBOSITY`] times.
    pub fn from_verbosity(verbosity: u8) -> (level: Option<LogLevel>)
        ensures
            level == level_of(verbosity),
            level is Some <==> verbosity <= MAX_VERBOSITY,
    {
        match verbosity {
            0 => Some(LogLevel::Error),
            1 => Some(LogLevel::Warn),
            2 => Some(LogLevel::Info),
            3 => Some(LogLevel::Debug),
            4 => Some(LogLevel::Trace),
            _ => None,
        }
    }
}

} // verus!
