//! The source-location column of a verbose line: ` [<file>:<line>]`.
//!
//! The file name and the line number share a field of [`COLUMN_WIDTH`]
//! characters.  The line number takes [`LINE_WIDTH`] of them, or as many as
//! its digits need; the file name gets the rest, right-aligned, and loses its
//! leading characters where it is longer.

use vstd::prelude::*;
use vstd::string::*;
use crate::text::{
    append_repeated, decimal, decimal_len, decimal_string, free_of, lemma_decimal_digits,
    lemma_decimal_len, pad_left, tail,
};

verus! {

/// The width of the file name where the line number has up to three digits.
pub const FILE_WIDTH: usize = 10;

/// The least width of the line number.
pub const LINE_WIDTH: usize = 3;

/// The joint width of file name and line number.
pub const COLUMN_WIDTH: usize = 13;

/// The width of the line-number field: the number of digits of `line`, but
/// at least [`LINE_WIDTH`] and at most [`COLUMN_WIDTH`].
pub open spec fn line_width(line: nat) -> nat {
    let digits = decimal_len(line);
    if digits < LINE_WIDTH {
        LINE_WIDTH as nat
    } else if digits > COLUMN_WIDTH {
        COLUMN_WIDTH as nat
    } else {
        digits
    }
}

/// The width of the file-name field: what the line number leaves of
/// [`COLUMN_WIDTH`].
pub open spec fn file_width(line: nat) -> nat {
    (COLUMN_WIDTH - line_width(line)) as nat
}

/// The path prefix that is not shown.
pub open spec fn source_root() -> Seq<char> {
    seq!['s', 'r', 'c', '/']
}

/// `file` without a leading `src/`.
pub open spec fn shown_file(file: Seq<char>) -> Seq<char> {
    if file.len() >= 4 && file.subrange(0, 4) == source_root() {
        file.skip(4)
    } else {
        file
    }
}

/// The file-name field: the shown file name cut to its last `width`
/// characters and right-aligned with spaces.
pub open spec fn file_field(file: Seq<char>, width: nat) -> Seq<char> {
    pad_left(tail(shown_file(file), width), width, ' ')
}

/// The line-number field: `line` in decimal, zero-padded to `width`.
pub open spec fn line_field(line: nat, width: nat) -> Seq<char> {
    pad_left(decimal(line), width, '0')
}

/// The location column of a record that carries both a file and a line.
pub open spec fn location(file: Seq<char>, line: nat) -> Seq<char> {
    seq![' ', '['] + file_field(file, file_width(line)) + seq![':'] + line_field(
        line,
        line_width(line),
    ) + seq![']']
}

/// The location column of a record: empty unless the record carries both a
/// file and a line.
pub open spec fn location_column(file: Option<Seq<char>>, line: Option<u32>) -> Seq<char> {
    match (file, line) {
        (Some(file), Some(line)) => location(file, line as nat),
        _ => Seq::empty(),
    }
}

/// A number of four or more digits has three digits more than its thousands.
proof fn lemma_decimal_len_thousands(n: nat)
    ensures
        n < 1000 ==> decimal_len(n) <= 3,
        n >= 1000 ==> decimal_len(n) == 3 + decimal_len(n / 1000),
{
    reveal_with_fuel(decimal_len, 4);
    if n >= 1000 {
        assert(n / 10 / 10 / 10 == n / 1000);
    }
}

/// The two fields always share [`COLUMN_WIDTH`] characters.  Up to line 999
/// the file name has ten of them and the line number three; from line 1000
/// to line 9999 the file name has nine and the line number four.  The line
/// number of a record always fits its field.
pub proof fn lemma_column_widths(line: u32)
    ensures
        file_width(line as nat) + line_width(line as nat) == COLUMN_WIDTH,
        line <= 999 ==> file_width(line as nat) == 10 && line_width(line as nat) == 3,
        1000 <= line <= 9999 ==> file_width(line as nat) == 9 && line_width(line as nat) == 4,
        decimal_len(line as nat) <= line_width(line as nat),
        line >= 1000 ==> line_width(line as nat) == decimal_len(line as nat),
{
    reveal_with_fuel(decimal_len, 11);
}

/// Both fields are exactly as wide as they are meant to be, whatever the
/// file name, so the location column of a record always has
/// `COLUMN_WIDTH + 4` characters.
pub proof fn lemma_location_len(file: Seq<char>, line: u32)
    ensures
        file_field(file, file_width(line as nat)).len() == file_width(line as nat),
        line_field(line as nat, line_width(line as nat)).len() == line_width(line as nat),
        location(file, line as nat).len() == COLUMN_WIDTH + 4,
{
    lemma_column_widths(line);
    lemma_decimal_len(line as nat);
}

/// Where the file name holds no `c`, and `c` is none of the characters that
/// the column is made of (space, brackets, colon and digits), the location
/// column holds no `c`.
pub proof fn lemma_location_free_of(file: Seq<char>, line: nat, c: char)
    requires
        free_of(file, c),
        c != ' ',
        c != '[',
        c != ']',
        c != ':',
        !('0' <= c <= '9'),
    ensures
        free_of(location(file, line), c),
{
    let shown = tail(shown_file(file), file_width(line));
    assert(free_of(shown, c));
    assert(free_of(file_field(file, file_width(line)), c));
    assert forall|i: int| 0 <= i < decimal(line).len() implies decimal(line)[i] != c by {
        lemma_decimal_digits(line, i);
    }
    assert(free_of(line_field(line, line_width(line)), c));
}

/// The widths of the file-name field and of the line-number field for a
/// record at `line`.
pub fn column_widths(line: u32) -> (widths: (usize, usize))
    ensures
        widths.0 == file_width(line as nat),
        widths.1 == line_width(line as nat),
        widths.0 + widths.1 == COLUMN_WIDTH,
{
    let mut file_width: usize = FILE_WIDTH;
    let mut line_width: usize = LINE_WIDTH;
    let mut line_extra_width: u32 = line / 1000;
    proof {
        lemma_decimal_len_thousands(line as nat);
    }
    while line_extra_width > 0 && file_width > 0
        invariant
            file_width + line_width == COLUMN_WIDTH,
            LINE_WIDTH <= line_width,
            line_extra_width > 0 ==> decimal_len(line as nat) == line_width + decimal_len(
                line_extra_width as nat,
            ),
            line_extra_width == 0 && line_width == LINE_WIDTH ==> decimal_len(line as nat)
                <= LINE_WIDTH,
            line_extra_width == 0 && line_width > LINE_WIDTH ==> decimal_len(line as nat)
                == line_width,
        decreases line_extra_width,
    {
        line_width += 1;
        file_width -= 1;
        line_extra_width /= 10;
    }
    (file_width, line_width)
}

/// The part of `file` that fits a field of `width` characters: `file`
/// without a leading `src/`, cut to its last `width` characters.
pub fn fit_file<'a>(file: &'a str, width: usize) -> (shown: &'a str)
    ensures
        shown@ == tail(shown_file(file@), width as nat),
        shown@.len() <= width,
{
    let len: usize = file.unicode_len();
    let mut start: usize = 0;
    if len >= 4 && file.get_char(0) == 's' && file.get_char(1) == 'r' && file.get_char(2) == 'c'
        && file.get_char(3) == '/' {
        start = 4;
        assert(file@.subrange(0, 4) =~= source_root());
    }
    assert(shown_file(file@) =~= file@.subrange(start as int, len as int));
    if len - start > width {
        start = len - width;
    }
    file.substring_char(start, len)
}

/// Appends the location column of a record at `file` and `line` to `out`.
pub fn append_location(out: &mut String, file: &str, line: u32)
    ensures
        final(out)@ == old(out)@ + location(file@, line as nat),
{
    let (file_width, line_width) = column_widths(line);
    let shown = fit_file(file, file_width);
    let number = decimal_string(line);
    proof {
        reveal_strlit(" [");
        reveal_strlit(" ");
        reveal_strlit(":");
        reveal_strlit("0");
        reveal_strlit("]");
        lemma_decimal_len(line as nat);
    }
    out.append(" [");
    append_repeated(out, " ", file_width - shown.unicode_len());
    out.append(shown);
    out.append(":");
    let digits: usize = number.as_str().unicode_len();
    if digits < line_width {
        append_repeated(out, "0", line_width - digits);
    }
    out.append(number.as_str());
    out.append("]");
    assert(out@ =~= old(out)@ + location(file@, line as nat));
}

} // verus!
