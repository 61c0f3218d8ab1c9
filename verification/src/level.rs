//! Severity levels and level filters.

use vstd::prelude::*;

verus! {

/// The severity of a log record, from the most severe (`Error`) to the most
/// verbose (`Trace`).
#[derive(Clone, Copy, Debug, PartialEq, Eq, Structural)]
pub enum Level {
    Error,
    Warn,
    Info,
    Debug,
    Trace,
}

/// A threshold on levels: `Off` lets nothing pass, any other filter lets pass
/// its own level and every more severe one.
#[derive(Clone, Copy, Debug, PartialEq, Eq, Structural)]
pub enum LevelFilter {
    Off,
    Error,
    Warn,
    Info,
    Debug,
    Trace,
}

impl Level {
    /// The position of the level in the order of verbosity: 1 for `Error` up
    /// to 5 for `Trace`.  A level is more verbose, and less severe, than
    /// every level of a smaller ordinal.
    pub open spec fn ordinal(self) -> int {
        match self {
            Level::Error => 1,
            Level::Warn => 2,
            Level::Info => 3,
            Level::Debug => 4,
            Level::Trace => 5,
        }
    }

    /// The filter that lets pass this level and the more severe ones.
    pub open spec fn filter(self) -> LevelFilter {
        match self {
            Level::Error => LevelFilter::Error,
            Level::Warn => LevelFilter::Warn,
            Level::Info => LevelFilter::Info,
            Level::Debug => LevelFilter::Debug,
            Level::Trace => LevelFilter::Trace,
        }
    }

    /// Whether the level is `Debug` or `Trace`.
    pub open spec fn is_verbose(self) -> bool {
        self.ordinal() >= Level::Debug.ordinal()
    }

    /// Computes [`Level::ordinal`].
    pub fn rank(self) -> (r: u8)
        ensures
            r == self.ordinal(),
    {
        match self {
            Level::Error => 1,
            Level::Warn => 2,
            Level::Info => 3,
            Level::Debug => 4,
            Level::Trace => 5,
        }
    }

    /// Whether this level is at least as verbose as `other`.
    pub fn at_least(self, other: Level) -> (r: bool)
        ensures
            r == (self.ordinal() >= other.ordinal()),
    {
        self.rank() >= other.rank()
    }

    /// Computes [`Level::is_verbose`].
    pub fn verbose(self) -> (r: bool)
        ensures
            r == self.is_verbose(),
    {
        self.at_least(Level::Debug)
    }

    /// Computes [`Level::filter`].
    pub fn to_level_filter(self) -> (f: LevelFilter)
        ensures
            f == self.filter(),
            f.ordinal() == self.ordinal(),
    {
        match self {
            Level::Error => LevelFilter::Error,
            Level::Warn => LevelFilter::Warn,
            Level::Info => LevelFilter::Info,
            Level::Debug => LevelFilter::Debug,
            Level::Trace => LevelFilter::Trace,
        }
    }

    /// The most severe level: the one that comes first in the order of
    /// verbosity.
    pub fn most_severe() -> (level: Level)
        ensures
            level == Level::Error,
            forall|other: Level| other.ordinal() >= level.ordinal(),
    {
        match first_level() {
            Some(level) => level,
            None => Level::Error,
        }
    }
}

impl LevelFilter {
    /// 0 for `Off`; for any other filter the ordinal of its level.
    pub open spec fn ordinal(self) -> int {
        match self {
            LevelFilter::Off => 0,
            LevelFilter::Error => 1,
            LevelFilter::Warn => 2,
            LevelFilter::Info => 3,
            LevelFilter::Debug => 4,
            LevelFilter::Trace => 5,
        }
    }

    /// Whether a record of `level` passes the filter.
    pub open spec fn allows(self, level: Level) -> bool {
        level.ordinal() <= self.ordinal()
    }

    /// Computes [`LevelFilter::ordinal`].
    pub fn rank(self) -> (r: u8)
        ensures
            r == self.ordinal(),
    {
        match self {
            LevelFilter::Off => 0,
            LevelFilter::Error => 1,
            LevelFilter::Warn => 2,
            LevelFilter::Info => 3,
            LevelFilter::Debug => 4,
            LevelFilter::Trace => 5,
        }
    }

    /// Computes [`LevelFilter::allows`].
    pub fn enabled(self, level: Level) -> (r: bool)
        ensures
            r == self.allows(level),
    {
        level.rank() <= self.rank()
    }
}

/// The first item of `log::Level::iter()`.  That iterator walks the levels
/// from the most severe to the most verbose, so the first item is
/// `log::Level::Error`; the contract claims exactly that and is not proved.
#[verifier::external_body]
fn first_level() -> (first: Option<Level>)
    ensures
        first == Some(Level::Error),
{
    match log::Level::iter().next() {
        Some(log::Level::Error) => Some(Level::Error),
        Some(log::Level::Warn) => Some(Level::Warn),
        Some(log::Level::Info) => Some(Level::Info),
        Some(log::Level::Debug) => Some(Level::Debug),
        Some(log::Level::Trace) => Some(Level::Trace),
        None => None,
    }
}

} // verus!
