use easy_logging::{ContextSlot, GlobalContext, Level};

const LEVELS: [Level; 5] = [Level::Error, Level::Warn, Level::Info, Level::Debug, Level::Trace];

#[test]
fn empty_slot_shows_nothing() {
    let slot = ContextSlot::new();
    assert!(!slot.is_active());
    for level in LEVELS {
        assert_eq!(GlobalContext::get(&slot, level), "");
    }
}

#[test]
fn open_context_is_bracketed() {
    let mut slot = ContextSlot::new();
    let guard = GlobalContext::new(&mut slot, "request-17");
    assert!(slot.is_active());
    assert_eq!(GlobalContext::get(&slot, Level::Info), "[request-17] ");
    guard.close(&mut slot);
}

#[test]
fn plain_context_is_shown_at_every_level() {
    let mut slot = ContextSlot::new();
    let guard = GlobalContext::new(&mut slot, "job");
    for level in LEVELS {
        assert_eq!(GlobalContext::get(&slot, level), "[job] ");
    }
    guard.close(&mut slot);
}

#[test]
fn conditional_context_is_hidden_below_its_level() {
    let mut slot = ContextSlot::new();
    let guard = GlobalContext::new_conditional(&mut slot, Level::Debug, "job");
    assert_eq!(GlobalContext::get(&slot, Level::Error), "");
    assert_eq!(GlobalContext::get(&slot, Level::Warn), "");
    assert_eq!(GlobalContext::get(&slot, Level::Info), "");
    assert_eq!(GlobalContext::get(&slot, Level::Debug), "[job] ");
    assert_eq!(GlobalContext::get(&slot, Level::Trace), "[job] ");
    guard.close(&mut slot);
}

#[test]
fn conditional_context_at_the_most_severe_level_is_always_shown() {
    let mut slot = ContextSlot::new();
    let guard = GlobalContext::new_conditional(&mut slot, Level::most_severe(), "job");
    for level in LEVELS {
        assert_eq!(GlobalContext::get(&slot, level), "[job] ");
    }
    guard.close(&mut slot);
}

#[test]
fn closing_empties_the_slot() {
    let mut slot = ContextSlot::new();
    let guard = GlobalContext::new(&mut slot, "job");
    guard.close(&mut slot);
    assert!(!slot.is_active());
    for level in LEVELS {
        assert_eq!(GlobalContext::get(&slot, level), "");
    }
}

#[test]
fn a_context_can_follow_a_closed_one() {
    let mut slot = ContextSlot::new();
    let first = GlobalContext::new(&mut slot, "first");
    first.close(&mut slot);
    let second = GlobalContext::new_conditional(&mut slot, Level::Warn, "second");
    assert_eq!(GlobalContext::get(&slot, Level::Warn), "[second] ");
    assert_eq!(GlobalContext::get(&slot, Level::Error), "");
    second.close(&mut slot);
    assert!(!slot.is_active());
}

#[test]
fn an_open_context_is_reported_before_a_second_one_is_tried() {
    let mut slot = ContextSlot::new();
    assert!(!slot.is_active());
    let guard = GlobalContext::new(&mut slot, "outer");
    assert!(slot.is_active());
    guard.close(&mut slot);
    assert!(!slot.is_active());
}

#[test]
fn empty_and_unusual_names_are_kept_as_they_are() {
    let mut slot = ContextSlot::new();
    let guard = GlobalContext::new(&mut slot, "");
    assert_eq!(GlobalContext::get(&slot, Level::Info), "[] ");
    guard.close(&mut slot);
    let guard = GlobalContext::new(&mut slot, "a b]c");
    assert_eq!(GlobalContext::get(&slot, Level::Info), "[a b]c] ");
    guard.close(&mut slot);
    let guard = GlobalContext::new(&mut slot, "zählen");
    assert_eq!(GlobalContext::get(&slot, Level::Info), "[zählen] ");
    guard.close(&mut slot);
}
