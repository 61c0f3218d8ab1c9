//! The layout of a line.
//!
//! A terse line is the level's label, the context and the message.  A verbose
//! line puts the time and the source location before them.  Either is
//! wrapped in the escape sequences of the level's colour where the stream is
//! a terminal.

use vstd::prelude::*;
use vstd::string::*;
use crate::color::{color_prefix, color_suffix, get_level_color, Color, ESCAPE};
use crate::context::{bracketed, ActiveContext, ContextSlot, GlobalContext};
use crate::level::Level;
use crate::location::{append_location, lemma_location_free_of, location_column};
use crate::names::LevelNames;
use crate::text::{contains, free_of, lemma_contains_middle, lemma_free_of_concat};

verus! {

/// What a line shows of a log record.
#[derive(Clone, Copy, Debug)]
pub struct Record<'a> {
    /// The severity of the record.
    pub level: Level,
    /// The text of the record.
    pub message: &'a str,
    /// The source file that the record comes from, where it is known.
    pub file: Option<&'a str>,
    /// The line in that file, where it is known.
    pub line: Option<u32>,
}

/// A record, as contracts see it.
pub struct RecordView {
    pub level: Level,
    pub message: Seq<char>,
    pub file: Option<Seq<char>>,
    pub line: Option<u32>,
}

impl<'a> View for Record<'a> {
    type V = RecordView;

    open spec fn view(&self) -> RecordView {
        RecordView {
            level: self.level,
            message: self.message@,
            file: match self.file {
                Some(file) => Some(file@),
                None => None,
            },
            line: self.line,
        }
    }
}

/// A terse line: label, context, message.
pub open spec fn terse_line(label: Seq<char>, context: Seq<char>, message: Seq<char>) -> Seq<
    char,
> {
    label + context + message
}

/// A verbose line: time, location column, a space, then the terse line.
pub open spec fn verbose_line(
    time: Seq<char>,
    location: Seq<char>,
    label: Seq<char>,
    context: Seq<char>,
    message: Seq<char>,
) -> Seq<char> {
    time + location + seq![' '] + terse_line(label, context, message)
}

/// The pattern of the time at the start of a verbose line: hours, minutes,
/// seconds and milliseconds, in brackets.
pub const TIME_PATTERN: &'static str = "[%T%.3f]";

/// Whether `c` is a decimal digit.
pub open spec fn is_digit(c: char) -> bool {
    '0' <= c <= '9'
}

/// Whether `time` has the form `[HH:MM:SS.mmm]`.
pub open spec fn is_clock_time(time: Seq<char>) -> bool {
    &&& time.len() == 14
    &&& time[0] == '['
    &&& is_digit(time[1])
    &&& is_digit(time[2])
    &&& time[3] == ':'
    &&& is_digit(time[4])
    &&& is_digit(time[5])
    &&& time[6] == ':'
    &&& is_digit(time[7])
    &&& is_digit(time[8])
    &&& time[9] == '.'
    &&& is_digit(time[10])
    &&& is_digit(time[11])
    &&& is_digit(time[12])
    &&& time[13] == ']'
}

/// How the records of one stream are laid out.
#[derive(Clone, Copy, Debug)]
pub struct Formatter {
    /// The level that the module is logged at.  It selects the layout,
    /// verbose for `Debug` and `Trace`, and decides whether a context is
    /// shown.
    pub max_level: Level,
    /// The labels of the levels.
    pub level_names: LevelNames,
    /// Whether lines are wrapped in colour escape sequences.
    pub colored_output: bool,
}

impl Formatter {
    /// The line without colour.
    pub open spec fn body(&self, time: Seq<char>, context: Seq<char>, record: RecordView) -> Seq<
        char,
    > {
        let label = self.level_names.label(record.level);
        if self.max_level.is_verbose() {
            verbose_line(
                time,
                location_column(record.file, record.line),
                label,
                context,
                record.message,
            )
        } else {
            terse_line(label, context, record.message)
        }
    }

    /// The line for `record`, given the time and the context to show.
    pub open spec fn line(&self, time: Seq<char>, context: Seq<char>, record: RecordView) -> Seq<
        char,
    > {
        if self.colored_output {
            Color::of(record.level).paint(self.body(time, context, record))
        } else {
            self.body(time, context, record)
        }
    }

    /// Lays out the line for `record`.  `time` is shown as it is given, in
    /// the verbose layout only; `context` is put before the message.
    pub fn render(&self, time: &str, context: &str, record: &Record) -> (line: String)
        ensures
            line@ == self.line(time@, context@, record@),
    {
        let color = get_level_color(record.level);
        let mut line = String::new();
        if self.colored_output {
            let prefix = color_prefix(color);
            line.append(prefix.as_str());
        }
        if self.max_level.verbose() {
            proof {
                reveal_strlit(" ");
            }
            line.append(time);
            match (record.file, record.line) {
                (Some(file), Some(number)) => {
                    append_location(&mut line, file, number);
                },
                _ => {},
            }
            line.append(" ");
        }
        line.append(self.level_names.get(record.level));
        line.append(context);
        line.append(record.message);
        if self.colored_output {
            let suffix = color_suffix(color);
            line.append(suffix.as_str());
        }
        assert(line@ =~= self.line(time@, context@, record@));
        line
    }

    /// Lays out the line for `record` as of now: the context is read from
    /// `slot` under the formatter's level, and a verbose line starts with the
    /// local time of the call.  A terse line shows no time.
    pub fn format(&self, slot: &ContextSlot, record: &Record) -> (line: String)
        ensures
            self.max_level.is_verbose() ==> exists|time: Seq<char>|
                is_clock_time(time) && line@ == self.line(
                    time,
                    slot.shown(self.max_level),
                    record@,
                ),
            !self.max_level.is_verbose() ==> line@ == self.line(
                Seq::empty(),
                slot.shown(self.max_level),
                record@,
            ),
    {
        let time = if self.max_level.verbose() {
            timestamp()
        } else {
            String::new()
        };
        let context = GlobalContext::get(slot, self.max_level);
        self.render(time.as_str(), context.as_str(), record)
    }
}

/// A coloured line starts with the escape sequence of the colour of the
/// record's level and ends with the reset sequence; between them stands the
/// line without colour.
pub proof fn lemma_colored_line(
    formatter: Formatter,
    time: Seq<char>,
    context: Seq<char>,
    record: RecordView,
)
    requires
        formatter.colored_output,
    ensures
        ({
            let line = formatter.line(time, context, record);
            let body = formatter.body(time, context, record);
            let prefix = Color::of(record.level).prefix();
            let suffix = Color::of(record.level).suffix();
            &&& line.len() == prefix.len() + body.len() + suffix.len()
            &&& line.subrange(0, prefix.len() as int) == prefix
            &&& line.subrange(prefix.len() as int, line.len() - suffix.len()) == body
            &&& line.subrange(line.len() - suffix.len(), line.len() as int) == suffix
        }),
{
    let line = formatter.line(time, context, record);
    let body = formatter.body(time, context, record);
    let prefix = Color::of(record.level).prefix();
    let suffix = Color::of(record.level).suffix();
    assert(line.subrange(0, prefix.len() as int) =~= prefix);
    assert(line.subrange(prefix.len() as int, line.len() - suffix.len()) =~= body);
    assert(line.subrange(line.len() - suffix.len(), line.len() as int) =~= suffix);
}

/// A line without colour holds no escape character, where the time, the
/// file name, the label, the context and the message that it is made of hold
/// none.
pub proof fn lemma_plain_line(
    formatter: Formatter,
    time: Seq<char>,
    context: Seq<char>,
    record: RecordView,
)
    requires
        !formatter.colored_output,
        free_of(time, ESCAPE),
        free_of(context, ESCAPE),
        free_of(record.message, ESCAPE),
        free_of(formatter.level_names.label(record.level), ESCAPE),
        record.file matches Some(file) ==> free_of(file, ESCAPE),
    ensures
        formatter.line(time, context, record) == formatter.body(time, context, record),
        free_of(formatter.line(time, context, record), ESCAPE),
{
    let label = formatter.level_names.label(record.level);
    let place = location_column(record.file, record.line);
    match (record.file, record.line) {
        (Some(file), Some(line)) => {
            lemma_location_free_of(file, line as nat, ESCAPE);
        },
        _ => {},
    }
    assert(free_of(place, ESCAPE));
    lemma_free_of_concat(label, context, ESCAPE);
    lemma_free_of_concat(label + context, record.message, ESCAPE);
    lemma_free_of_concat(time, place, ESCAPE);
    lemma_free_of_concat(time + place, seq![' '], ESCAPE);
    lemma_free_of_concat(
        time + place + seq![' '],
        terse_line(label, context, record.message),
        ESCAPE,
    );
}

/// The line holds the context, whole and in one piece, whatever the layout.
pub proof fn lemma_line_contains_context(
    formatter: Formatter,
    time: Seq<char>,
    context: Seq<char>,
    record: RecordView,
)
    ensures
        contains(formatter.line(time, context, record), context),
{
    let label = formatter.level_names.label(record.level);
    let place = location_column(record.file, record.line);
    let color = Color::of(record.level);
    let body = formatter.body(time, context, record);
    let lead = if formatter.max_level.is_verbose() {
        time + place + seq![' '] + label
    } else {
        label
    };
    assert(body =~= lead + context + record.message);
    if formatter.colored_output {
        assert(formatter.line(time, context, record) =~= (color.prefix() + lead) + context + (
        record.message + color.suffix()));
        lemma_contains_middle(color.prefix() + lead, context, record.message + color.suffix());
    } else {
        lemma_contains_middle(lead, context, record.message);
    }
}

/// While a context of `name` is open, every line of a formatter whose
/// level is at least as verbose as the context asks holds `[name] `.
pub proof fn lemma_context_is_shown_from_its_level(
    formatter: Formatter,
    slot: ContextSlot,
    min_level: Level,
    name: Seq<char>,
    time: Seq<char>,
    record: RecordView,
)
    requires
        slot@ == Some(ActiveContext { min_level, message: bracketed(name) }),
        formatter.max_level.ordinal() >= min_level.ordinal(),
    ensures
        contains(
            formatter.line(time, slot.shown(formatter.max_level), record),
            bracketed(name),
        ),
{
    lemma_line_contains_context(formatter, time, bracketed(name), record);
}

/// While a context of `name` is open that is shown under every
/// configuration, every line holds `[name] `.
pub proof fn lemma_open_context_is_shown(
    formatter: Formatter,
    slot: ContextSlot,
    name: Seq<char>,
    time: Seq<char>,
    record: RecordView,
)
    requires
        slot@ == Some(ActiveContext { min_level: Level::Error, message: bracketed(name) }),
    ensures
        contains(
            formatter.line(time, slot.shown(formatter.max_level), record),
            bracketed(name),
        ),
{
    lemma_context_is_shown_from_its_level(formatter, slot, Level::Error, name, time, record);
}

/// Once the context is closed, a line is the line of an empty context:
/// nothing of the context is left in it.
pub proof fn lemma_closed_context_adds_nothing(
    formatter: Formatter,
    slot: ContextSlot,
    time: Seq<char>,
    record: RecordView,
)
    requires
        slot@ is None,
    ensures
        formatter.line(time, slot.shown(formatter.max_level), record) == formatter.line(
            time,
            Seq::empty(),
            record,
        ),
{
}

/// Once the context is closed, a line does not hold `[name] `, unless the
/// time, the location, the label, the message or the colour sequences
/// happen to spell it.
pub proof fn lemma_closed_context_is_not_shown(
    formatter: Formatter,
    slot: ContextSlot,
    name: Seq<char>,
    time: Seq<char>,
    record: RecordView,
)
    requires
        slot@ is None,
        !contains(formatter.line(time, Seq::empty(), record), bracketed(name)),
    ensures
        !contains(
            formatter.line(time, slot.shown(formatter.max_level), record),
            bracketed(name),
        ),
{
    lemma_closed_context_adds_nothing(formatter, slot, time, record);
}

/// A clock time never holds an escape character.
pub proof fn lemma_clock_time_is_plain(time: Seq<char>)
    requires
        is_clock_time(time),
    ensures
        free_of(time, ESCAPE),
{
    assert forall|i: int| 0 <= i < time.len() implies time[i] != ESCAPE by {
        if i == 0 || i == 3 || i == 6 || i == 9 || i == 13 {
        } else {
            assert(is_digit(time[i]));
        }
    }
}

/// A line without colour that starts with a clock time holds no escape
/// character, where the file name, the label, the context and the message
/// hold none.
pub proof fn lemma_plain_timed_line(
    formatter: Formatter,
    time: Seq<char>,
    context: Seq<char>,
    record: RecordView,
)
    requires
        !formatter.colored_output,
        is_clock_time(time),
        free_of(context, ESCAPE),
        free_of(record.message, ESCAPE),
        free_of(formatter.level_names.label(record.level), ESCAPE),
        record.file matches Some(file) ==> free_of(file, ESCAPE),
    ensures
        free_of(formatter.line(time, context, record), ESCAPE),
{
    lemma_clock_time_is_plain(time);
    lemma_plain_line(formatter, time, context, record);
}

/// The local time of the call, as a clock time.
pub fn timestamp() -> (time: String)
    ensures
        is_clock_time(time@),
{
    local_time(TIME_PATTERN)
}

/// The local time of the call, `chrono::Local::now()`, written in `pattern`
/// by `chrono`'s `format`.  The pattern is [`TIME_PATTERN`]: `chrono` fails on
/// a pattern that it cannot read.
///
/// Which time comes back is not claimed.  Claimed, and not proved, is the
/// form that `chrono` documents for the pattern: `%T` writes hour, minute
/// and second with two digits each, between colons, and `%.3f` writes a dot
/// and three digits.
#[verifier::external_body]
fn local_time(pattern: &str) -> (time: String)
    requires
        pattern@ == TIME_PATTERN@,
    ensures
        is_clock_time(time@),
{
    chrono::Local::now().format(pattern).to_string()
}

} // verus!
