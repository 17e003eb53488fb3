//! Log levels and the filter that keeps errors off standard output.

use vstd::prelude::*;
use crate::command::Verbosity;

verus! {

/// The severity of a log record, from most to least severe.
#[derive(Debug, Clone, Copy, PartialEq, Eq, Structural)]
pub enum Level {
    Error,
    Warn,
    Info,
    Debug,
    Trace,
}

/// A threshold on log records: `Off` lets none through.
#[derive(Debug, Clone, Copy, PartialEq, Eq, Structural)]
pub enum LevelFilter {
    Off,
    Error,
    Warn,
    Info,
    Debug,
    Trace,
}

/// How verbose a level is: `Error` is 1, `Trace` is 5.
pub open spec fn level_rank(level: Level) -> nat {
    match level {
        Level::Error => 1,
        Level::Warn => 2,
        Level::Info => 3,
        Level::Debug => 4,
        Level::Trace => 5,
    }
}

/// How verbose a threshold is: `Off` is 0, `Trace` is 5.
pub open spec fn filter_rank(filter: LevelFilter) -> nat {
    match filter {
        LevelFilter::Off => 0,
        LevelFilter::Error => 1,
        LevelFilter::Warn => 2,
        LevelFilter::Info => 3,
        LevelFilter::Debug => 4,
        LevelFilter::Trace => 5,
    }
}

fn level_value(level: Level) -> (r: u8)
    ensures
        r == level_rank(level),
{
    match level {
        Level::Error => 1,
        Level::Warn => 2,
        Level::Info => 3,
        Level::Debug => 4,
        Level::Trace => 5,
    }
}

fn filter_value(filter: LevelFilter) -> (r: u8)
    ensures
        r == filter_rank(filter),
{
    match filter {
        LevelFilter::Off => 0,
        LevelFilter::Error => 1,
        LevelFilter::Warn => 2,
        LevelFilter::Info => 3,
        LevelFilter::Debug => 4,
        LevelFilter::Trace => 5,
    }
}

/// What a filter decides about a record.
#[derive(Debug, Clone, Copy, PartialEq, Eq, Structural)]
pub enum FilterResponse {
    /// Leave the decision to the next filter.
    Neutral,
    /// Drop the record.
    Reject,
}

/// Lets through only the records more verbose than its level.
#[derive(Debug, Clone, Copy, PartialEq, Eq)]
pub struct InverseThresholdFilter {
    pub level: LevelFilter,
}

impl InverseThresholdFilter {
    /// The filter with this level.
    pub fn new(level: LevelFilter) -> (r: Self)
        ensures
            r.level == level,
    {
        InverseThresholdFilter { level }
    }

    /// Neutral on a record more verbose than the level, else reject.
    pub fn filter(&self, level: Level) -> (r: FilterResponse)
        ensures
            level_rank(level) > filter_rank(self.level) ==> r == FilterResponse::Neutral,
            level_rank(level) <= filter_rank(self.level) ==> r == FilterResponse::Reject,
    {
        if level_value(level) > filter_value(self.level) {
            FilterResponse::Neutral
        } else {
            FilterResponse::Reject
        }
    }
}

/// The level of the root logger: `Debug` when verbose, else `Warn` when
/// quiet, else `Info`.
pub fn root_level(verbosity: &Verbosity) -> (r: LevelFilter)
    ensures
        verbosity.verbose ==> r == LevelFilter::Debug,
        !verbosity.verbose && verbosity.quiet ==> r == LevelFilter::Warn,
        !verbosity.verbose && !verbosity.quiet ==> r == LevelFilter::Info,
{
    if verbosity.verbose {
        LevelFilter::Debug
    } else if verbosity.quiet {
        LevelFilter::Warn
    } else {
        LevelFilter::Info
    }
}

} // verus!

verus! {

/// The level that the webmail client's command line imposes on the level of
/// its logging file: `Warn` when quiet, else `Trace` when verbose, else none.
pub fn environment_level(verbosity: &Verbosity) -> (r: Option<LevelFilter>)
    ensures
        verbosity.quiet ==> r == Some(LevelFilter::Warn),
        !verbosity.quiet && verbosity.verbose ==> r == Some(LevelFilter::Trace),
        !verbosity.quiet && !verbosity.verbose ==> r is None,
{
    if verbosity.quiet {
        Some(LevelFilter::Warn)
    } else if verbosity.verbose {
        Some(LevelFilter::Trace)
    } else {
        None
    }
}

} // verus!
