//! How much is logged, and how, as chosen on the command line.

use vstd::prelude::*;

verus! {

/// The most detailed level of messages that is still written.
#[derive(Debug, Clone, Copy, PartialEq, Eq, Structural)]
pub enum LogLevel {
    Info,
    Debug,
    Trace,
}

/// What the log writer is set up with.
#[derive(Debug, Clone, Copy, PartialEq, Eq, Structural)]
pub struct LogSettings {
    /// Messages above this level of detail are dropped.
    pub max_level: LogLevel,
    /// Whether messages are written with terminal colours.
    pub ansi: bool,
}

/// The level that `verbose` repetitions of the verbosity flag ask for: none
/// keeps the default, one adds debugging messages, two or more add traces.
pub open spec fn level_for(verbose: u8) -> LogLevel {
    if verbose == 0 {
        LogLevel::Info
    } else if verbose == 1 {
        LogLevel::Debug
    } else {
        LogLevel::Trace
    }
}

/// The log settings for `verbose` repetitions of the verbosity flag, with
/// colours unless `no_color` is set.
pub fn log_settings(verbose: u8, no_color: bool) -> (settings: LogSettings)
    ensures
        settings.max_level == level_for(verbose),
        settings.ansi == !no_color,
{
    let max_level = match verbose {
        0 => LogLevel::Info,
        1 => LogLevel::Debug,
        _ => LogLevel::Trace,
    };
    LogSettings { max_level, ansi: !no_color }
}

/// More repetitions of the verbosity flag never make the log less detailed.
pub proof fn lemma_verbosity_is_monotonic(fewer: u8, more: u8)
    requires
        fewer <= more,
    ensures
        level_for(fewer) == LogLevel::Trace ==> level_for(more) == LogLevel::Trace,
        level_for(more) == LogLevel::Info ==> level_for(fewer) == LogLevel::Info,
{
}

} // verus!
