//! Character sequences: the vocabulary in which the layout of a line is
//! stated, and the few functions that build strings to it.

use vstd::prelude::*;
use vstd::string::*;

verus! {

/// `n` copies of `fill`.
pub open spec fn repeated(fill: char, n: nat) -> Seq<char> {
    Seq::new(n, |i: int| fill)
}

/// `s` right-aligned in a field of `width` characters, filled with `fill` on
/// the left; a sequence that is already as wide as the field is unchanged.
pub open spec fn pad_left(s: Seq<char>, width: nat, fill: char) -> Seq<char> {
    if s.len() >= width {
        s
    } else {
        repeated(fill, (width - s.len()) as nat) + s
    }
}

/// The last `width` characters of `s`, or all of `s` where it is not longer.
pub open spec fn tail(s: Seq<char>, width: nat) -> Seq<char> {
    if s.len() > width {
        s.subrange(s.len() - width, s.len() as int)
    } else {
        s
    }
}

/// `pattern` occurs in `s` as a contiguous run starting at `at`.
pub open spec fn occurs_at(s: Seq<char>, pattern: Seq<char>, at: int) -> bool {
    &&& 0 <= at
    &&& at + pattern.len() <= s.len()
    &&& s.subrange(at, at + pattern.len()) == pattern
}

/// `pattern` occurs somewhere in `s`.
pub open spec fn contains(s: Seq<char>, pattern: Seq<char>) -> bool {
    exists|at: int| occurs_at(s, pattern, at)
}

/// No character of `s` is `c`.
pub open spec fn free_of(s: Seq<char>, c: char) -> bool {
    forall|i: int| 0 <= i < s.len() ==> s[i] != c
}

/// The character that writes the decimal digit `d`.
pub open spec fn digit_char(d: nat) -> char {
    if d == 0 {
        '0'
    } else if d == 1 {
        '1'
    } else if d == 2 {
        '2'
    } else if d == 3 {
        '3'
    } else if d == 4 {
        '4'
    } else if d == 5 {
        '5'
    } else if d == 6 {
        '6'
    } else if d == 7 {
        '7'
    } else if d == 8 {
        '8'
    } else {
        '9'
    }
}

/// The number of decimal digits of `n`, without leading zeros (`0` has one).
pub open spec fn decimal_len(n: nat) -> nat
    decreases n,
{
    if n < 10 {
        1
    } else {
        1 + decimal_len(n / 10)
    }
}

/// `n` written in decimal, without leading zeros.
pub open spec fn decimal(n: nat) -> Seq<char>
    decreases n,
{
    if n < 10 {
        seq![digit_char(n)]
    } else {
        decimal(n / 10).push(digit_char(n % 10))
    }
}

/// The decimal form of `n` has `decimal_len(n)` characters.
pub proof fn lemma_decimal_len(n: nat)
    ensures
        decimal(n).len() == decimal_len(n),
    decreases n,
{
    if n >= 10 {
        lemma_decimal_len(n / 10);
    }
}

/// The decimal form of a number holds digits only.
pub proof fn lemma_decimal_digits(n: nat, i: int)
    requires
        0 <= i < decimal(n).len(),
    ensures
        '0' <= decimal(n)[i] <= '9',
    decreases n,
{
    if n >= 10 {
        if i < decimal(n / 10).len() {
            lemma_decimal_digits(n / 10, i);
        }
    }
}

/// A concatenation is free of a character exactly where both parts are.
pub proof fn lemma_free_of_concat(a: Seq<char>, b: Seq<char>, c: char)
    ensures
        free_of(a + b, c) <==> free_of(a, c) && free_of(b, c),
{
    if free_of(a + b, c) {
        assert forall|i: int| 0 <= i < a.len() implies a[i] != c by {
            assert((a + b)[i] == a[i]);
        }
        assert forall|i: int| 0 <= i < b.len() implies b[i] != c by {
            assert((a + b)[a.len() + i] == b[i]);
        }
    }
}

/// `middle` occurs in `before + middle + after`, right after `before`.
pub proof fn lemma_contains_middle(before: Seq<char>, middle: Seq<char>, after: Seq<char>)
    ensures
        occurs_at(before + middle + after, middle, before.len() as int),
        contains(before + middle + after, middle),
{
    let whole = before + middle + after;
    assert(whole.subrange(before.len() as int, (before.len() + middle.len()) as int) =~= middle);
}

/// The one-character string for a decimal digit.
fn digit_str(d: u32) -> (s: &'static str)
    requires
        d < 10,
    ensures
        s@ == seq![digit_char(d as nat)],
{
    proof {
        reveal_strlit("0");
        reveal_strlit("1");
        reveal_strlit("2");
        reveal_strlit("3");
        reveal_strlit("4");
        reveal_strlit("5");
        reveal_strlit("6");
        reveal_strlit("7");
        reveal_strlit("8");
        reveal_strlit("9");
    }
    let s = if d == 0 {
        "0"
    } else if d == 1 {
        "1"
    } else if d == 2 {
        "2"
    } else if d == 3 {
        "3"
    } else if d == 4 {
        "4"
    } else if d == 5 {
        "5"
    } else if d == 6 {
        "6"
    } else if d == 7 {
        "7"
    } else if d == 8 {
        "8"
    } else {
        "9"
    };
    assert(s@ =~= seq![digit_char(d as nat)]);
    s
}

/// Appends `n` in decimal to `out`.
pub fn append_decimal(out: &mut String, n: u32)
    ensures
        final(out)@ == old(out)@ + decimal(n as nat),
    decreases n,
{
    if n >= 10 {
        append_decimal(out, n / 10);
    }
    out.append(digit_str(n % 10));
    assert(out@ =~= old(out)@ + decimal(n as nat));
}

/// `n` written in decimal.
pub fn decimal_string(n: u32) -> (s: String)
    ensures
        s@ == decimal(n as nat),
{
    let mut s = String::new();
    append_decimal(&mut s, n);
    s
}

/// Appends `count` copies of the single character held by `fill` to `out`.
pub fn append_repeated(out: &mut String, fill: &str, count: usize)
    requires
        fill@.len() == 1,
    ensures
        final(out)@ == old(out)@ + repeated(fill@[0], count as nat),
{
    let mut done: usize = 0;
    while done < count
        invariant
            done <= count,
            fill@.len() == 1,
            out@ == old(out)@ + repeated(fill@[0], done as nat),
        decreases count - done,
    {
        out.append(fill);
        done = done + 1;
        assert(out@ =~= old(out)@ + repeated(fill@[0], done as nat));
    }
}

} // verus!
