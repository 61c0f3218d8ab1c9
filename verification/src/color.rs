//! The colour of a line, by severity, and its ANSI escape sequences.

use vstd::prelude::*;
use crate::level::Level;

verus! {

/// The character that starts an ANSI escape sequence.
pub const ESCAPE: char = '\x1b';

/// The colours in which lines are shown.
#[derive(Clone, Copy, Debug, PartialEq, Eq, Structural)]
pub enum Color {
    Red,
    Yellow,
    Green,
    Cyan,
    Purple,
}

impl Color {
    /// The two digits that select the colour as a foreground colour.
    pub open spec fn code(self) -> Seq<char> {
        match self {
            Color::Red => seq!['3', '1'],
            Color::Green => seq!['3', '2'],
            Color::Yellow => seq!['3', '3'],
            Color::Purple => seq!['3', '5'],
            Color::Cyan => seq!['3', '6'],
        }
    }

    /// The escape sequence that switches the terminal to the colour.
    pub open spec fn prefix(self) -> Seq<char> {
        seq![ESCAPE, '['] + self.code() + seq!['m']
    }

    /// The escape sequence that switches the terminal back to its normal
    /// style; it is the same after every colour.
    pub open spec fn suffix(self) -> Seq<char> {
        seq![ESCAPE, '[', '0', 'm']
    }

    /// `text` between the colour's two escape sequences.
    pub open spec fn paint(self, text: Seq<char>) -> Seq<char> {
        self.prefix() + text + self.suffix()
    }

    /// The colour in which records of `level` are shown.
    pub open spec fn of(level: Level) -> Color {
        match level {
            Level::Error => Color::Red,
            Level::Warn => Color::Yellow,
            Level::Info => Color::Green,
            Level::Debug => Color::Cyan,
            Level::Trace => Color::Purple,
        }
    }
}

/// The colour in which records of `level` are shown.
pub fn get_level_color(level: Level) -> (color: Color)
    ensures
        color == Color::of(level),
{
    match level {
        Level::Error => Color::Red,
        Level::Warn => Color::Yellow,
        Level::Info => Color::Green,
        Level::Debug => Color::Cyan,
        Level::Trace => Color::Purple,
    }
}

/// What `ansi_term::Colour::prefix` writes for the colour, as a string: the
/// escape character, `[`, the colour's foreground code and `m`.  The contract
/// claims this of `ansi_term` and is not proved.
#[verifier::external_body]
pub(crate) fn color_prefix(color: Color) -> (prefix: String)
    ensures
        prefix@ == color.prefix(),
{
    let outside = match color {
        Color::Red => ansi_term::Colour::Red,
        Color::Yellow => ansi_term::Colour::Yellow,
        Color::Green => ansi_term::Colour::Green,
        Color::Cyan => ansi_term::Colour::Cyan,
        Color::Purple => ansi_term::Colour::Purple,
    };
    outside.prefix().to_string()
}

/// What `ansi_term::Colour::suffix` writes for the colour, as a string: the
/// reset sequence, whatever the colour.  The contract claims this of
/// `ansi_term` and is not proved.
#[verifier::external_body]
pub(crate) fn color_suffix(color: Color) -> (suffix: String)
    ensures
        suffix@ == color.suffix(),
{
    let outside = match color {
        Color::Red => ansi_term::Colour::Red,
        Color::Yellow => ansi_term::Colour::Yellow,
        Color::Green => ansi_term::Colour::Green,
        Color::Cyan => ansi_term::Colour::Cyan,
        Color::Purple => ansi_term::Colour::Purple,
    };
    outside.suffix().to_string()
}

} // verus!
