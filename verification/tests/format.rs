use easy_logging::{
    timestamp, ContextSlot, Formatter, GlobalContext, Level, LevelNames, LoggingConfig, Record,
};

const TIME: &str = "[12:34:56.789]";

fn record<'a>(level: Level, message: &'a str) -> Record<'a> {
    Record { level, message, file: Some("src/foo.rs"), line: Some(7) }
}

fn formatter(level: Level, colored_output: bool) -> Formatter {
    LoggingConfig::new("app", level).configure_formatter(colored_output)
}

fn is_clock_time(time: &str) -> bool {
    let chars: Vec<char> = time.chars().collect();
    chars.len() == 14
        && chars.iter().enumerate().all(|(at, c)| match at {
            0 => *c == '[',
            3 | 6 => *c == ':',
            9 => *c == '.',
            13 => *c == ']',
            _ => c.is_ascii_digit(),
        })
}

#[test]
fn terse_line_is_label_and_message() {
    let line = formatter(Level::Info, false).render(TIME, "", &record(Level::Info, "started"));
    assert_eq!(line, "I: started");
}

#[test]
fn terse_line_has_a_label_for_each_level() {
    let formatter = formatter(Level::Info, false);
    assert_eq!(formatter.render(TIME, "", &record(Level::Error, "m")), "E: m");
    assert_eq!(formatter.render(TIME, "", &record(Level::Warn, "m")), "W: m");
    assert_eq!(formatter.render(TIME, "", &record(Level::Info, "m")), "I: m");
    assert_eq!(formatter.render(TIME, "", &record(Level::Debug, "m")), "D: m");
    assert_eq!(formatter.render(TIME, "", &record(Level::Trace, "m")), "T: m");
}

#[test]
fn terse_line_puts_the_context_before_the_message() {
    let line =
        formatter(Level::Warn, false).render(TIME, "[job] ", &record(Level::Warn, "slow"));
    assert_eq!(line, "W: [job] slow");
}

#[test]
fn verbose_line_has_time_and_location() {
    let line = formatter(Level::Debug, false).render(TIME, "", &record(Level::Info, "started"));
    assert_eq!(line, "[12:34:56.789] [    foo.rs:007] I: started");
}

#[test]
fn verbose_line_at_trace() {
    let line =
        formatter(Level::Trace, false).render(TIME, "[job] ", &record(Level::Trace, "tick"));
    assert_eq!(line, "[12:34:56.789] [    foo.rs:007] T: [job] tick");
}

#[test]
fn verbose_line_at_lines_999_1000_and_9999() {
    let formatter = formatter(Level::Debug, false);
    let at = |line: u32| Record {
        level: Level::Debug,
        message: "m",
        file: Some("src/foo.rs"),
        line: Some(line),
    };
    assert_eq!(formatter.render(TIME, "", &at(999)), "[12:34:56.789] [    foo.rs:999] D: m");
    assert_eq!(formatter.render(TIME, "", &at(1000)), "[12:34:56.789] [   foo.rs:1000] D: m");
    assert_eq!(formatter.render(TIME, "", &at(9999)), "[12:34:56.789] [   foo.rs:9999] D: m");
}

#[test]
fn verbose_line_without_location() {
    let formatter = formatter(Level::Debug, false);
    let no_file = Record { level: Level::Info, message: "m", file: None, line: Some(7) };
    let no_line = Record { level: Level::Info, message: "m", file: Some("src/a.rs"), line: None };
    let neither = Record { level: Level::Info, message: "m", file: None, line: None };
    assert_eq!(formatter.render(TIME, "", &no_file), "[12:34:56.789] I: m");
    assert_eq!(formatter.render(TIME, "", &no_line), "[12:34:56.789] I: m");
    assert_eq!(formatter.render(TIME, "", &neither), "[12:34:56.789] I: m");
}

#[test]
fn terse_line_ignores_time_and_location() {
    let formatter = formatter(Level::Error, false);
    assert_eq!(formatter.render(TIME, "", &record(Level::Error, "m")), "E: m");
    assert_eq!(formatter.render("", "", &record(Level::Error, "m")), "E: m");
}

#[test]
fn coloured_terse_lines() {
    let formatter = formatter(Level::Info, true);
    assert_eq!(formatter.render(TIME, "", &record(Level::Error, "m")), "\x1b[31mE: m\x1b[0m");
    assert_eq!(formatter.render(TIME, "", &record(Level::Warn, "m")), "\x1b[33mW: m\x1b[0m");
    assert_eq!(formatter.render(TIME, "", &record(Level::Info, "m")), "\x1b[32mI: m\x1b[0m");
    assert_eq!(formatter.render(TIME, "", &record(Level::Debug, "m")), "\x1b[36mD: m\x1b[0m");
    assert_eq!(formatter.render(TIME, "", &record(Level::Trace, "m")), "\x1b[35mT: m\x1b[0m");
}

#[test]
fn coloured_verbose_line() {
    let line =
        formatter(Level::Debug, true).render(TIME, "[job] ", &record(Level::Warn, "slow"));
    assert_eq!(line, "\x1b[33m[12:34:56.789] [    foo.rs:007] W: [job] slow\x1b[0m");
}

#[test]
fn coloured_line_starts_with_the_colour_and_ends_with_the_reset() {
    let prefixes = [
        (Level::Error, "\x1b[31m"),
        (Level::Warn, "\x1b[33m"),
        (Level::Info, "\x1b[32m"),
        (Level::Debug, "\x1b[36m"),
        (Level::Trace, "\x1b[35m"),
    ];
    for max_level in [Level::Info, Level::Trace] {
        for (level, prefix) in prefixes {
            let line = formatter(max_level, true).render(TIME, "[c] ", &record(level, "text"));
            assert!(line.starts_with(prefix));
            assert!(line.ends_with("\x1b[0m"));
        }
    }
}

#[test]
fn plain_line_has_no_escape_character() {
    for max_level in [Level::Error, Level::Warn, Level::Info, Level::Debug, Level::Trace] {
        for level in [Level::Error, Level::Warn, Level::Info, Level::Debug, Level::Trace] {
            let line = formatter(max_level, false).render(TIME, "[c] ", &record(level, "text"));
            assert!(!line.contains('\x1b'));
        }
    }
}

#[test]
fn minimal_line_is_the_message_alone() {
    let formatter = LoggingConfig::new("app", Level::Info).minimal().configure_formatter(false);
    assert_eq!(formatter.render(TIME, "", &record(Level::Info, "done")), "done");
    assert_eq!(formatter.render(TIME, "[job] ", &record(Level::Error, "failed")), "[job] failed");
}

#[test]
fn empty_message_and_unusual_text() {
    let formatter = formatter(Level::Info, false);
    assert_eq!(formatter.render(TIME, "", &record(Level::Info, "")), "I: ");
    assert_eq!(formatter.render(TIME, "", &record(Level::Info, "a\nb")), "I: a\nb");
    assert_eq!(formatter.render(TIME, "", &record(Level::Info, "日本語")), "I: 日本語");
}

#[test]
fn formatter_fields_can_be_set_directly() {
    let formatter =
        Formatter { max_level: Level::Warn, level_names: LevelNames::blank(), colored_output: true };
    assert_eq!(formatter.render(TIME, "", &record(Level::Warn, "m")), "\x1b[33mm\x1b[0m");
}

#[test]
fn timestamp_is_a_clock_time() {
    let time = timestamp();
    assert!(is_clock_time(&time), "{}", time);
}

#[test]
fn format_of_a_terse_line_is_exact() {
    let slot = ContextSlot::new();
    let line = formatter(Level::Info, false).format(&slot, &record(Level::Info, "started"));
    assert_eq!(line, "I: started");
}

#[test]
fn format_of_a_verbose_line_starts_with_the_time() {
    let slot = ContextSlot::new();
    let line = formatter(Level::Debug, false).format(&slot, &record(Level::Info, "started"));
    assert_eq!(line.chars().count(), 14 + " [    foo.rs:007] I: started".len());
    assert!(is_clock_time(&line[..14]), "{}", line);
    assert_eq!(&line[14..], " [    foo.rs:007] I: started");
}

#[test]
fn context_is_in_the_line_while_open_and_not_after() {
    let mut slot = ContextSlot::new();
    for max_level in [Level::Info, Level::Debug] {
        for colored in [false, true] {
            let formatter = formatter(max_level, colored);
            let guard = GlobalContext::new(&mut slot, "name");
            let open = formatter.format(&slot, &record(Level::Info, "working"));
            assert!(open.contains("[name] "), "{}", open);
            guard.close(&mut slot);
            let closed = formatter.format(&slot, &record(Level::Info, "working"));
            assert!(!closed.contains("[name] "), "{}", closed);
        }
    }
}

#[test]
fn format_reads_the_context_under_the_configured_level() {
    let mut slot = ContextSlot::new();
    let guard = GlobalContext::new_conditional(&mut slot, Level::Info, "job");
    let at_warn = formatter(Level::Warn, false).format(&slot, &record(Level::Error, "m"));
    let at_info = formatter(Level::Info, false).format(&slot, &record(Level::Error, "m"));
    assert_eq!(at_warn, "E: m");
    assert_eq!(at_info, "E: [job] m");
    guard.close(&mut slot);
}
