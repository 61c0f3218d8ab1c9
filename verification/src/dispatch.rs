//! Which records are shown, and on which stream.
//!
//! A record first meets a level threshold: the threshold of the named module
//! where the record comes from it, the default threshold otherwise.  A record
//! that passes goes to exactly one of the two streams: `Info` and the more
//! severe levels to standard output, `Debug` and `Trace` to standard error.

use vstd::prelude::*;
use crate::format::Formatter;
use crate::level::{Level, LevelFilter};

verus! {

/// One of the two streams that lines are written to.
#[derive(Clone, Copy, Debug, PartialEq, Eq, Structural)]
pub enum Sink {
    Stdout,
    Stderr,
}

impl Sink {
    /// The stream of the records of `level`: standard output for `Info` and
    /// the more severe levels, standard error for `Debug` and `Trace`.
    pub open spec fn of(level: Level) -> Sink {
        if level.ordinal() <= Level::Info.ordinal() {
            Sink::Stdout
        } else {
            Sink::Stderr
        }
    }

    /// Whether the stream takes the records of `level`.
    pub open spec fn accepts(self, level: Level) -> bool {
        Sink::of(level) == self
    }

    /// Computes [`Sink::of`].
    pub fn for_level(level: Level) -> (sink: Sink)
        ensures
            sink == Sink::of(level),
    {
        if Level::Info.at_least(level) {
            Sink::Stdout
        } else {
            Sink::Stderr
        }
    }

    /// The filter of the stream's branch; computes [`Sink::accepts`].
    pub fn filter(self, level: Level) -> (accepted: bool)
        ensures
            accepted == self.accepts(level),
    {
        Sink::for_level(level) == self
    }
}

/// The description of a dispatch: the thresholds, and the layout of the
/// lines of each stream.
#[derive(Clone, Copy, Debug)]
pub struct DispatchPlan {
    /// The threshold for records from outside the named module.
    pub default_filter: LevelFilter,
    /// The module that has a threshold of its own.
    pub module_name: &'static str,
    /// The threshold for records of the named module.
    pub module_filter: LevelFilter,
    /// The layout of the lines on standard output.
    pub stdout: Formatter,
    /// The layout of the lines on standard error.
    pub stderr: Formatter,
}

impl DispatchPlan {
    /// The threshold that a record meets; `in_module` says whether the
    /// record comes from the named module or from a module below it.
    pub open spec fn threshold(&self, in_module: bool) -> LevelFilter {
        if in_module {
            self.module_filter
        } else {
            self.default_filter
        }
    }

    /// The stream on which a record of `level` is shown, or `None` where the
    /// threshold holds it back.
    pub open spec fn destination(&self, in_module: bool, level: Level) -> Option<Sink> {
        if self.threshold(in_module).allows(level) {
            Some(Sink::of(level))
        } else {
            None
        }
    }

    /// The layout of the lines on `sink`.
    pub open spec fn layout(&self, sink: Sink) -> Formatter {
        match sink {
            Sink::Stdout => self.stdout,
            Sink::Stderr => self.stderr,
        }
    }

    /// Computes [`DispatchPlan::destination`]: the stream whose branch takes
    /// the record, once the record has passed its threshold.
    pub fn route(&self, in_module: bool, level: Level) -> (sink: Option<Sink>)
        ensures
            sink == self.destination(in_module, level),
    {
        let threshold = if in_module {
            self.module_filter
        } else {
            self.default_filter
        };
        if !threshold.enabled(level) {
            None
        } else if Sink::Stdout.filter(level) {
            Some(Sink::Stdout)
        } else if Sink::Stderr.filter(level) {
            Some(Sink::Stderr)
        } else {
            None
        }
    }

    /// Computes [`DispatchPlan::layout`].
    pub fn formatter(&self, sink: Sink) -> (formatter: Formatter)
        ensures
            formatter == self.layout(sink),
    {
        match sink {
            Sink::Stdout => self.stdout,
            Sink::Stderr => self.stderr,
        }
    }
}

/// Every level has exactly one stream: standard output takes `Error`, `Warn`
/// and `Info` and nothing else, standard error takes `Debug` and `Trace` and
/// nothing else.
pub proof fn lemma_one_stream_per_level(level: Level)
    ensures
        Sink::Stdout.accepts(level) <==> level.ordinal() <= Level::Info.ordinal(),
        Sink::Stderr.accepts(level) <==> level.ordinal() > Level::Info.ordinal(),
        Sink::Stdout.accepts(level) != Sink::Stderr.accepts(level),
{
}

/// Whatever the plan and wherever the record comes from, a record that is
/// shown is shown on the stream of its level: `Info` and above on standard
/// output and never on standard error, `Debug` and `Trace` on standard error
/// and never on standard output.
pub proof fn lemma_shown_on_stream_of_level(plan: DispatchPlan, in_module: bool, level: Level)
    ensures
        level.ordinal() <= Level::Info.ordinal() ==> plan.destination(in_module, level)
            != Some(Sink::Stderr),
        level.ordinal() > Level::Info.ordinal() ==> plan.destination(in_module, level)
            != Some(Sink::Stdout),
        plan.threshold(in_module).allows(level) ==> plan.destination(in_module, level) == Some(
            Sink::of(level),
        ),
{
}

} // verus!
