//! Log severity levels and the maximum-severity filter.

use vstd::prelude::*;

verus! {

/// Severity of one log record, from most severe to least severe.
#[derive(Clone, Copy, PartialEq, Eq, Structural, Debug, Hash)]
pub enum Level {
    Error,
    Warn,
    Info,
    Debug,
    Trace,
}

/// A maximum-severity setting for the sink: records whose level is less
/// severe than this are dropped before they reach the store.
#[derive(Clone, Copy, PartialEq, Eq, Structural, Debug, Hash)]
pub enum LevelFilter {
    Off,
    Error,
    Warn,
    Info,
    Debug,
    Trace,
}

/// Numeric rank of a level: 1 for the most severe (`Error`) up to 5 for the
/// least severe (`Trace`).
pub open spec fn severity(level: Level) -> int {
    match level {
        Level::Error => 1,
        Level::Warn => 2,
        Level::Info => 3,
        Level::Debug => 4,
        Level::Trace => 5,
    }
}

/// Numeric rank of a level filter: 0 for `Off` (everything dropped) up to 5
/// for `Trace` (everything admitted).
pub open spec fn filter_severity(filter: LevelFilter) -> int {
    match filter {
        LevelFilter::Off => 0,
        LevelFilter::Error => 1,
        LevelFilter::Warn => 2,
        LevelFilter::Info => 3,
        LevelFilter::Debug => 4,
        LevelFilter::Trace => 5,
    }
}

/// A record of this level passes a sink configured with this filter.
pub open spec fn level_admitted(level: Level, filter: LevelFilter) -> bool {
    severity(level) <= filter_severity(filter)
}

/// Position of a level in the per-viewer array of enabled levels:
/// 0 for `Error` through 4 for `Trace`.
pub open spec fn level_index(level: Level) -> int {
    severity(level) - 1
}

/// Fixed-width (five character) display name of a level, as it appears
/// inside the bracketed prefix of a formatted line.
pub open spec fn level_label(level: Level) -> Seq<char> {
    match level {
        Level::Error => "ERROR"@,
        Level::Warn => "WARN "@,
        Level::Info => "INFO "@,
        Level::Debug => "DEBUG"@,
        Level::Trace => "TRACE"@,
    }
}

impl Level {
    /// Numeric rank, executable counterpart of [`severity`].
    pub fn severity_u8(self) -> (n: u8)
        ensures
            n as int == severity(self),
    {
        match self {
            Level::Error => 1,
            Level::Warn => 2,
            Level::Info => 3,
            Level::Debug => 4,
            Level::Trace => 5,
        }
    }

    /// Index into the per-viewer array of enabled levels.
    pub fn index(self) -> (i: usize)
        ensures
            i as int == level_index(self),
            i < 5,
    {
        match self {
            Level::Error => 0,
            Level::Warn => 1,
            Level::Info => 2,
            Level::Debug => 3,
            Level::Trace => 4,
        }
    }

    /// Fixed-width display name, executable counterpart of [`level_label`].
    pub fn label(self) -> (s: &'static str)
        ensures
            s@ == level_label(self),
    {
        match self {
            Level::Error => "ERROR",
            Level::Warn => "WARN ",
            Level::Info => "INFO ",
            Level::Debug => "DEBUG",
            Level::Trace => "TRACE",
        }
    }
}

impl LevelFilter {
    /// Numeric rank, executable counterpart of [`filter_severity`].
    pub fn severity_u8(self) -> (n: u8)
        ensures
            n as int == filter_severity(self),
    {
        match self {
            LevelFilter::Off => 0,
            LevelFilter::Error => 1,
            LevelFilter::Warn => 2,
            LevelFilter::Info => 3,
            LevelFilter::Debug => 4,
            LevelFilter::Trace => 5,
        }
    }

    /// Whether a record of `level` passes this filter.
    pub fn admits(self, level: Level) -> (b: bool)
        ensures
            b == level_admitted(level, self),
    {
        level.severity_u8() <= self.severity_u8()
    }
}

} // verus!
