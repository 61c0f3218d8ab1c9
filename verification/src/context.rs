//! The context of the messages: a short name, shown in brackets before every
//! message while it is open.
//!
//! At most one context is open at a time.  The slot that holds it is an
//! ordinary value, owned by whoever shares it between the code that opens a
//! context and the code that formats records.

use vstd::prelude::*;
use vstd::string::*;
use crate::level::Level;

verus! {

/// How a context of the given name is shown: `[name] `.
pub open spec fn bracketed(name: Seq<char>) -> Seq<char> {
    seq!['['] + name + seq![']', ' ']
}

/// An open context, as contracts see it.
pub struct ActiveContext {
    /// The least verbose configuration under which the context is shown.
    pub min_level: Level,
    /// The text that is put before a message.
    pub message: Seq<char>,
}

struct ContextValue {
    min_level: Level,
    message: String,
}

/// The place of the one context that may be open.
pub struct ContextSlot {
    value: Option<ContextValue>,
}

impl View for ContextSlot {
    type V = Option<ActiveContext>;

    closed spec fn view(&self) -> Option<ActiveContext> {
        match self.value {
            Some(value) => Some(
                ActiveContext { min_level: value.min_level, message: value.message@ },
            ),
            None => None,
        }
    }
}

impl ContextSlot {
    /// What the slot puts before a message under a configuration of
    /// `level`: the text of the open context where `level` is at least as
    /// verbose as the context asks, and nothing otherwise.
    pub open spec fn shown(&self, level: Level) -> Seq<char> {
        match self@ {
            Some(context) if level.ordinal() >= context.min_level.ordinal() => context.message,
            _ => Seq::empty(),
        }
    }

    /// A slot with no context open.
    pub fn new() -> (slot: ContextSlot)
        ensures
            slot@ is None,
    {
        ContextSlot { value: None }
    }

    /// Whether a context is open.
    pub fn is_active(&self) -> (active: bool)
        ensures
            active == (self@ is Some),
    {
        self.value.is_some()
    }
}

/// The token of an open context.  It is handed out when the context is
/// opened and taken back by [`GlobalContext::close`], so each context is
/// closed at most once.
pub struct GlobalContext {}

impl GlobalContext {
    /// Opens a context that is shown under every configuration.
    ///
    /// No context may be open: contexts do not nest.
    pub fn new(slot: &mut ContextSlot, name: &str) -> (guard: GlobalContext)
        requires
            old(slot)@ is None,
        ensures
            final(slot)@ == Some(
                ActiveContext { min_level: Level::Error, message: bracketed(name@) },
            ),
            forall|level: Level| final(slot).shown(level) == bracketed(name@),
    {
        GlobalContext::new_conditional(slot, Level::most_severe(), name)
    }

    /// Opens a context that is shown under configurations of `min_level` and
    /// of more verbose levels.
    ///
    /// No context may be open: contexts do not nest.
    pub fn new_conditional(slot: &mut ContextSlot, min_level: Level, name: &str) -> (guard:
        GlobalContext)
        requires
            old(slot)@ is None,
        ensures
            final(slot)@ == Some(ActiveContext { min_level, message: bracketed(name@) }),
    {
        proof {
            reveal_strlit("[");
            reveal_strlit("] ");
        }
        let mut message = String::from_str("[");
        message.append(name);
        message.append("] ");
        assert(message@ =~= bracketed(name@));
        slot.value = Some(ContextValue { min_level, message });
        GlobalContext {  }
    }

    /// The text that `slot` puts before a message under a configuration of
    /// `level`.
    pub fn get(slot: &ContextSlot, level: Level) -> (context: String)
        ensures
            context@ == slot.shown(level),
    {
        match &slot.value {
            Some(value) if level.at_least(value.min_level) => value.message.clone(),
            _ => String::new(),
        }
    }

    /// Closes the context: the slot is empty afterwards.
    pub fn close(self, slot: &mut ContextSlot)
        ensures
            final(slot)@ is None,
    {
        slot.value = None;
    }
}

} // verus!
