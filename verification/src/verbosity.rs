//! Log-verbosity selection.
//!
//! Quiet forces error-only output; otherwise each repetition of the verbose
//! flag escalates one step, from warnings through informational and debug
//! output up to trace output.  How records are rendered and where they go is
//! the logging sink's business, outside this crate; only the selection rule
//! lives here.

use vstd::prelude::*;

verus! {

/// How much the run logs.
#[derive(Clone, Copy, PartialEq, Eq, Structural, Debug)]
pub enum LogLevel {
    /// Errors only.
    ErrorOnly,
    /// Warnings and errors.
    Warn,
    /// Informational output and above.
    Info,
    /// Debug output and above.
    Debug,
    /// Everything.
    Trace,
}

/// The level selected by the quiet flag and the number of verbose flags.
pub open spec fn level_spec(quiet: bool, verbose: usize) -> LogLevel {
    if quiet {
        LogLevel::ErrorOnly
    } else if verbose == 0 {
        LogLevel::Warn
    } else if verbose == 1 {
        LogLevel::Info
    } else if verbose == 2 {
        LogLevel::Debug
    } else {
        LogLevel::Trace
    }
}

/// Select the run's log level: quiet wins over any number of verbose flags.
pub fn log_level(quiet: bool, verbose: usize) -> (level: LogLevel)
    ensures
        level == level_spec(quiet, verbose),
{
    if quiet {
        LogLevel::ErrorOnly
    } else if verbose == 0 {
        LogLevel::Warn
    } else if verbose == 1 {
        LogLevel::Info
    } else if verbose == 2 {
        LogLevel::Debug
    } else {
        LogLevel::Trace
    }
}

} // verus!
