//! Logging verbosity levels. The logging backend itself lives outside the
//! library; the library only carries the configured level.

use vstd::prelude::*;
use vstd::string::StringExecFns;

verus! {

/// The verbosity threshold for the run.
#[derive(Clone, Copy, Debug, PartialEq, Eq, Structural)]
pub enum LogLevel {
    Trace,
    Debug,
    Info,
    Warn,
    Error,
}

/// The lower-case name of a level, as the logging backend's filter
/// expects it.
pub open spec fn level_name(l: LogLevel) -> Seq<char> {
    match l {
        LogLevel::Trace => "trace"@,
        LogLevel::Debug => "debug"@,
        LogLevel::Info => "info"@,
        LogLevel::Warn => "warn"@,
        LogLevel::Error => "error"@,
    }
}

impl LogLevel {
    /// Renders the level for the logging backend, exactly as
    /// [`level_name`] describes.
    pub fn name(&self) -> (r: String)
        ensures
            r@ == level_name(*self),
    {
        match self {
            LogLevel::Trace => String::from_str("trace"),
            LogLevel::Debug => String::from_str("debug"),
            LogLevel::Info => String::from_str("info"),
            LogLevel::Warn => String::from_str("warn"),
            LogLevel::Error => String::from_str("error"),
        }
    }
}

} // verus!
