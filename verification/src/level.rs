//! Severity levels and filtering thresholds.
//!
//! A record carries a [`Level`]; the sink's configuration carries
//! [`LevelFilter`] thresholds.  A record passes a threshold iff its severity
//! rank does not exceed the threshold's rank, so `Off` rejects every record
//! and `Trace` accepts every record.

use vstd::prelude::*;

verus! {

/// Severity of a single log record, from most severe (`Error`) to least
/// severe (`Trace`).
#[derive(Clone, Copy, PartialEq, Eq, Structural, Debug)]
pub enum Level {
    Error,
    Warn,
    Info,
    Debug,
    Trace,
}

/// A filtering threshold: `Off` rejects everything; each later variant also
/// accepts the next less severe level, up to `Trace`, which accepts all.
#[derive(Clone, Copy, PartialEq, Eq, Structural, Debug)]
pub enum LevelFilter {
    Off,
    Error,
    Warn,
    Info,
    Debug,
    Trace,
}

impl DeepView for LevelFilter {
    type V = LevelFilter;

    open spec fn deep_view(&self) -> LevelFilter {
        *self
    }
}

/// Rank of a record level: `Error` is 1 and `Trace` is 5.
pub open spec fn level_rank(l: Level) -> nat {
    match l {
        Level::Error => 1,
        Level::Warn => 2,
        Level::Info => 3,
        Level::Debug => 4,
        Level::Trace => 5,
    }
}

/// Rank of a threshold: `Off` is 0 (below every record level) and `Trace` is 5.
pub open spec fn filter_rank(f: LevelFilter) -> nat {
    match f {
        LevelFilter::Off => 0,
        LevelFilter::Error => 1,
        LevelFilter::Warn => 2,
        LevelFilter::Info => 3,
        LevelFilter::Debug => 4,
        LevelFilter::Trace => 5,
    }
}

/// A record at level `l` passes the threshold `f` iff its rank does not
/// exceed the threshold's rank.
pub open spec fn level_passes(l: Level, f: LevelFilter) -> bool {
    level_rank(l) <= filter_rank(f)
}

/// Upper-case name of a record level, as it appears in the formatted payload.
pub open spec fn spec_level_name(l: Level) -> Seq<char> {
    match l {
        Level::Error => "ERROR"@,
        Level::Warn => "WARN"@,
        Level::Info => "INFO"@,
        Level::Debug => "DEBUG"@,
        Level::Trace => "TRACE"@,
    }
}

/// Variant name of a threshold, as it appears in the sink's configuration
/// description.
pub open spec fn spec_filter_name(f: LevelFilter) -> Seq<char> {
    match f {
        LevelFilter::Off => "Off"@,
        LevelFilter::Error => "Error"@,
        LevelFilter::Warn => "Warn"@,
        LevelFilter::Info => "Info"@,
        LevelFilter::Debug => "Debug"@,
        LevelFilter::Trace => "Trace"@,
    }
}

impl Level {
    /// Rank of this level as an executable value.
    pub fn rank(self) -> (r: u8)
        ensures
            r == level_rank(self),
    {
        match self {
            Level::Error => 1,
            Level::Warn => 2,
            Level::Info => 3,
            Level::Debug => 4,
            Level::Trace => 5,
        }
    }

    /// Whether a record at this level passes the threshold `f`.
    pub fn passes(self, f: LevelFilter) -> (r: bool)
        ensures
            r == level_passes(self, f),
    {
        self.rank() <= f.rank()
    }

    /// The upper-case name of this level.
    pub fn name(self) -> (r: &'static str)
        ensures
            r@ == spec_level_name(self),
    {
        match self {
            Level::Error => "ERROR",
            Level::Warn => "WARN",
            Level::Info => "INFO",
            Level::Debug => "DEBUG",
            Level::Trace => "TRACE",
        }
    }
}

impl LevelFilter {
    /// Rank of this threshold as an executable value.
    pub fn rank(self) -> (r: u8)
        ensures
            r == filter_rank(self),
    {
        match self {
            LevelFilter::Off => 0,
            LevelFilter::Error => 1,
            LevelFilter::Warn => 2,
            LevelFilter::Info => 3,
            LevelFilter::Debug => 4,
            LevelFilter::Trace => 5,
        }
    }

    /// The variant name of this threshold.
    pub fn name(self) -> (r: &'static str)
        ensures
            r@ == spec_filter_name(self),
    {
        match self {
            LevelFilter::Off => "Off",
            LevelFilter::Error => "Error",
            LevelFilter::Warn => "Warn",
            LevelFilter::Info => "Info",
            LevelFilter::Debug => "Debug",
            LevelFilter::Trace => "Trace",
        }
    }
}

} // verus!
