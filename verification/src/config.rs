//! The configuration of the logging of one module.

use vstd::prelude::*;
use crate::dispatch::{DispatchPlan, Sink};
use crate::format::Formatter;
use crate::level::{Level, LevelFilter};
use crate::names::{short_label, LevelNames};

verus! {

/// How one module is logged: the module, the most verbose level that is
/// shown of it, and the labels of the levels.  A configuration is built once
/// and used up by [`LoggingConfig::dispatch`].
#[derive(Debug)]
pub struct LoggingConfig {
    module_name: &'static str,
    level: Level,
    level_names: LevelNames,
}

impl LoggingConfig {
    /// The module whose level is configured.
    pub closed spec fn module_name(&self) -> &'static str {
        self.module_name
    }

    /// The most verbose level that is shown of the module.
    pub closed spec fn level(&self) -> Level {
        self.level
    }

    /// The labels of the levels.
    pub closed spec fn names(&self) -> LevelNames {
        self.level_names
    }

    /// The threshold for records from outside the module: warnings and
    /// errors where the module is logged at `Debug` or `Trace`, nothing
    /// otherwise.
    pub open spec fn default_filter(&self) -> LevelFilter {
        if self.level().is_verbose() {
            LevelFilter::Warn
        } else {
            LevelFilter::Off
        }
    }

    /// The layout of the lines of a stream; `colored_output` says whether
    /// the stream is a terminal.
    pub open spec fn layout(&self, colored_output: bool) -> Formatter {
        Formatter { max_level: self.level(), level_names: self.names(), colored_output }
    }

    /// The dispatch of the configuration, given which of the two streams are
    /// terminals.
    pub open spec fn plan(&self, stdout_colored: bool, stderr_colored: bool) -> DispatchPlan {
        DispatchPlan {
            default_filter: self.default_filter(),
            module_name: self.module_name(),
            module_filter: self.level().filter(),
            stdout: self.layout(stdout_colored),
            stderr: self.layout(stderr_colored),
        }
    }

    /// The configuration that shows of `module_name` the records up to
    /// `level`, under the short labels.
    pub fn new(module_name: &'static str, level: Level) -> (config: LoggingConfig)
        ensures
            config.module_name() == module_name,
            config.level() == level,
            forall|of: Level| #[trigger] config.names().label(of) == short_label(of),
    {
        LoggingConfig { module_name, level, level_names: LevelNames::short() }
    }

    /// Drops the labels where the level is less verbose than `Debug`; a
    /// configuration of `Debug` or `Trace` is returned as it is.
    pub fn minimal(self) -> (config: LoggingConfig)
        ensures
            config.module_name() == self.module_name(),
            config.level() == self.level(),
            self.level().is_verbose() ==> config == self,
            !self.level().is_verbose() ==> forall|of: Level| #[trigger]
                config.names().label(of) == Seq::<char>::empty(),
    {
        let mut config = self;
        if !config.level.verbose() {
            config.level_names = LevelNames::blank();
        }
        config
    }

    /// Replaces the labels by those that `get` gives; `get` is asked once
    /// for each level.
    pub fn level_names<F: Fn(Level) -> &'static str>(self, get: F) -> (config: LoggingConfig)
        requires
            forall|of: Level| call_requires(get, (of,)),
        ensures
            config.module_name() == self.module_name(),
            config.level() == self.level(),
            forall|of: Level| call_ensures(get, (of,), #[trigger] config.names().name(of)),
    {
        let mut config = self;
        config.level_names = LevelNames::from_fn(get);
        config
    }

    /// The layout of the lines of a stream; `colored_output` says whether
    /// the lines are wrapped in colour escape sequences.
    pub fn configure_formatter(&self, colored_output: bool) -> (formatter: Formatter)
        ensures
            formatter == self.layout(colored_output),
    {
        Formatter { max_level: self.level, level_names: self.level_names, colored_output }
    }

    /// The dispatch of the configuration, given which of the two streams are
    /// terminals.
    pub fn dispatch_with(self, stdout_colored: bool, stderr_colored: bool) -> (plan: DispatchPlan)
        ensures
            plan == self.plan(stdout_colored, stderr_colored),
    {
        let stdout = self.configure_formatter(stdout_colored);
        let stderr = self.configure_formatter(stderr_colored);
        DispatchPlan {
            default_filter: if self.level.verbose() {
                LevelFilter::Warn
            } else {
                LevelFilter::Off
            },
            module_name: self.module_name,
            module_filter: self.level.to_level_filter(),
            stdout,
            stderr,
        }
    }

    /// The dispatch of the configuration for the streams of this process:
    /// the lines of a stream are coloured where the stream is a terminal.
    pub fn dispatch(self) -> (plan: DispatchPlan)
        ensures
            plan == self.plan(plan.stdout.colored_output, plan.stderr.colored_output),
    {
        let stdout_colored = is_terminal(Sink::Stdout);
        let stderr_colored = is_terminal(Sink::Stderr);
        self.dispatch_with(stdout_colored, stderr_colored)
    }
}

/// A record of the configured module that is more verbose than the
/// configured level is held back, whichever streams are terminals: where
/// `level` is at least as verbose as `bound`, `bound` at least as verbose as
/// the configured level, and `level` is not the configured level itself.
pub proof fn lemma_module_filter_holds_back(
    config: LoggingConfig,
    level: Level,
    bound: Level,
    stdout_colored: bool,
    stderr_colored: bool,
)
    requires
        level.ordinal() >= bound.ordinal(),
        bound.ordinal() >= config.level().ordinal(),
        level != config.level(),
    ensures
        config.plan(stdout_colored, stderr_colored).destination(true, level) is None,
{
}

/// A record of the configured module is shown if and only if it is no more
/// verbose than the configured level; a record from elsewhere is shown if
/// and only if it is an error or a warning and the configured level is
/// `Debug` or `Trace`.
pub proof fn lemma_shown_records(
    config: LoggingConfig,
    in_module: bool,
    level: Level,
    stdout_colored: bool,
    stderr_colored: bool,
)
    ensures
        config.plan(stdout_colored, stderr_colored).destination(true, level) is Some
            <==> level.ordinal() <= config.level().ordinal(),
        config.plan(stdout_colored, stderr_colored).destination(false, level) is Some <==> (
        level.ordinal() <= Level::Warn.ordinal() && config.level().is_verbose()),
{
}

/// Whether the stream is a terminal, as `atty::is` finds it.  The answer
/// depends on the process's environment; nothing is claimed of it.
#[verifier::external_body]
fn is_terminal(sink: Sink) -> bool {
    atty::is(
        match sink {
            Sink::Stdout => atty::Stream::Stdout,
            Sink::Stderr => atty::Stream::Stderr,
        },
    )
}

} // verus!
