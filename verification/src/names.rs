//! The labels that stand for the levels at the start of a line.

use vstd::prelude::*;
use crate::level::Level;

verus! {

/// The short label of a level: its initial, a colon and a space.
pub open spec fn short_label(level: Level) -> Seq<char> {
    match level {
        Level::Error => seq!['E', ':', ' '],
        Level::Warn => seq!['W', ':', ' '],
        Level::Info => seq!['I', ':', ' '],
        Level::Debug => seq!['D', ':', ' '],
        Level::Trace => seq!['T', ':', ' '],
    }
}

/// A label for each level.
#[derive(Clone, Copy, Debug)]
pub struct LevelNames {
    error: &'static str,
    warn: &'static str,
    info: &'static str,
    debug: &'static str,
    trace: &'static str,
}

impl LevelNames {
    /// The label of `level`, as the string that was given for it.
    pub closed spec fn name(&self, level: Level) -> &'static str {
        match level {
            Level::Error => self.error,
            Level::Warn => self.warn,
            Level::Info => self.info,
            Level::Debug => self.debug,
            Level::Trace => self.trace,
        }
    }

    /// The label of `level`.
    pub open spec fn label(&self, level: Level) -> Seq<char> {
        self.name(level)@
    }

    /// The short labels: `E: `, `W: `, `I: `, `D: ` and `T: `.
    pub fn short() -> (names: LevelNames)
        ensures
            forall|level: Level| #[trigger] names.label(level) == short_label(level),
    {
        proof {
            reveal_strlit("E: ");
            reveal_strlit("W: ");
            reveal_strlit("I: ");
            reveal_strlit("D: ");
            reveal_strlit("T: ");
        }
        let names = LevelNames { error: "E: ", warn: "W: ", info: "I: ", debug: "D: ", trace: "T: " };
        assert forall|level: Level| names.label(level) == short_label(level) by {
            assert(names.label(level) =~= short_label(level));
        }
        names
    }

    /// No label for any level.
    pub fn blank() -> (names: LevelNames)
        ensures
            forall|level: Level| #[trigger] names.label(level) == Seq::<char>::empty(),
    {
        proof {
            reveal_strlit("");
        }
        let names = LevelNames { error: "", warn: "", info: "", debug: "", trace: "" };
        assert forall|level: Level| names.label(level) == Seq::<char>::empty() by {
            assert(names.label(level) =~= Seq::<char>::empty());
        }
        names
    }

    /// The labels that `get` gives: `get` is asked once for each level.
    pub fn from_fn<F: Fn(Level) -> &'static str>(get: F) -> (names: LevelNames)
        requires
            forall|level: Level| call_requires(get, (level,)),
        ensures
            forall|level: Level| call_ensures(get, (level,), #[trigger] names.name(level)),
    {
        LevelNames {
            error: get(Level::Error),
            warn: get(Level::Warn),
            info: get(Level::Info),
            debug: get(Level::Debug),
            trace: get(Level::Trace),
        }
    }

    /// The label of `level`.
    pub fn get(&self, level: Level) -> (name: &'static str)
        ensures
            name == self.name(level),
            name@ == self.label(level),
    {
        match level {
            Level::Error => self.error,
            Level::Warn => self.warn,
            Level::Info => self.info,
            Level::Debug => self.debug,
            Level::Trace => self.trace,
        }
    }
}

} // verus!
