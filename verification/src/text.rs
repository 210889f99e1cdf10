//! What the string functions of the standard library compute, stated over
//! sequences of characters, and the calls themselves.
//!
//! Every function marked `external_body` here is believed, not proved: its doc
//! comment names the standard function it calls and what is claimed of it.

use vstd::prelude::*;
use vstd::utf8::*;

verus! {

/// Whether `c` is white space: a character with the Unicode property
/// `White_Space`, which is what `char::is_whitespace` reports.
pub open spec fn white_space(c: char) -> bool {
    let code = c as u32;
    ||| 0x0009 <= code <= 0x000D
    ||| code == 0x0020
    ||| code == 0x0085
    ||| code == 0x00A0
    ||| code == 0x1680
    ||| 0x2000 <= code <= 0x200A
    ||| code == 0x2028
    ||| code == 0x2029
    ||| code == 0x202F
    ||| code == 0x205F
    ||| code == 0x3000
}

/// The text that `String::from_utf8_lossy` gives for `bytes`.
pub uninterp spec fn utf8_lossy(bytes: Seq<u8>) -> Seq<char>;

/// The text with which `str::parse::<u8>` turns `s` down.
pub uninterp spec fn parse_failure(s: Seq<char>) -> Seq<char>;

/// The character that stands for the digit `d`.
pub open spec fn digit(d: nat) -> char {
    if d == 0 {
        '0'
    } else if d == 1 {
        '1'
    } else if d == 2 {
        '2'
    } else if d == 3 {
        '3'
    } else if d == 4 {
        '4'
    } else if d == 5 {
        '5'
    } else if d == 6 {
        '6'
    } else if d == 7 {
        '7'
    } else if d == 8 {
        '8'
    } else {
        '9'
    }
}

/// The decimal numeral of `n`, without sign and without leading zeros.
pub open spec fn decimal(n: nat) -> Seq<char>
    decreases n,
{
    if n < 10 {
        seq![digit(n)]
    } else {
        decimal(n / 10).push(digit(n % 10))
    }
}

/// Whether `c` is one of the ten decimal digits.
pub open spec fn is_digit(c: char) -> bool {
    '0' <= c <= '9'
}

/// The number that a sequence of decimal digits denotes.
pub open spec fn digits_value(s: Seq<char>) -> nat
    decreases s.len(),
{
    if s.len() == 0 {
        0
    } else {
        (digits_value(s.drop_last()) * 10 + (s.last() as u32 - '0' as u32)) as nat
    }
}

/// The number that `s` denotes as an unsigned decimal numeral: an optional
/// `+`, then one digit or more and nothing else.
pub open spec fn unsigned(s: Seq<char>) -> Option<nat> {
    let body = if s.len() > 0 && s[0] == '+' {
        s.drop_first()
    } else {
        s
    };
    if body.len() > 0 && forall|i: int| 0 <= i < body.len() ==> is_digit(#[trigger] body[i]) {
        Some(digits_value(body))
    } else {
        None
    }
}

/// `s` with every occurrence of `from` replaced by `to`: the occurrences are
/// found from the left and do not overlap.
pub open spec fn replaced(s: Seq<char>, from: Seq<char>, to: Seq<char>) -> Seq<char>
    recommends
        from.len() > 0,
    decreases s.len(),
{
    if from.len() == 0 || s.len() < from.len() {
        s
    } else if s.take(from.len() as int) == from {
        to + replaced(s.skip(from.len() as int), from, to)
    } else {
        seq![s[0]] + replaced(s.drop_first(), from, to)
    }
}

/// `s` without the white space at its start.
pub open spec fn trimmed_start(s: Seq<char>) -> Seq<char>
    decreases s.len(),
{
    if s.len() > 0 && white_space(s[0]) {
        trimmed_start(s.drop_first())
    } else {
        s
    }
}

/// `s` without the white space at its end.
pub open spec fn trimmed_end(s: Seq<char>) -> Seq<char>
    decreases s.len(),
{
    if s.len() > 0 && white_space(s.last()) {
        trimmed_end(s.drop_last())
    } else {
        s
    }
}

/// `s` without the white space at its start and at its end.
pub open spec fn trimmed(s: Seq<char>) -> Seq<char> {
    trimmed_end(trimmed_start(s))
}

/// The words that `s` adds to the word `current`, which is being read: a white
/// space ends the word, and a word that is empty does not count.
pub open spec fn words_after(s: Seq<char>, current: Seq<char>) -> Seq<Seq<char>>
    decreases s.len(),
{
    let done = if current.len() > 0 {
        seq![current]
    } else {
        seq![]
    };
    if s.len() == 0 {
        done
    } else if white_space(s[0]) {
        done + words_after(s.drop_first(), seq![])
    } else {
        words_after(s.drop_first(), current.push(s[0]))
    }
}

/// The words of `s`: its longest runs of characters that are not white space, in order.
pub open spec fn words(s: Seq<char>) -> Seq<Seq<char>> {
    words_after(s, seq![])
}

/// `s` without one carriage return at its end, if it has one there.
pub open spec fn without_return(s: Seq<char>) -> Seq<char> {
    if s.len() > 0 && s.last() == '\r' {
        s.drop_last()
    } else {
        s
    }
}

/// The lines that `s` adds to the line `current`, which is being read: a line
/// feed ends the line, which then loses one carriage return at its end; the
/// text after the last line feed is a line unless it is empty.
pub open spec fn lines_after(s: Seq<char>, current: Seq<char>) -> Seq<Seq<char>>
    decreases s.len(),
{
    if s.len() == 0 {
        if current.len() > 0 {
            seq![current]
        } else {
            seq![]
        }
    } else if s[0] == '\n' {
        seq![without_return(current)] + lines_after(s.drop_first(), seq![])
    } else {
        lines_after(s.drop_first(), current.push(s[0]))
    }
}

/// The lines of `s`, in order, without the line feeds that end them.
pub open spec fn lines(s: Seq<char>) -> Seq<Seq<char>> {
    lines_after(s, seq![])
}

/// Calls `str::eq`. Believed: two texts are equal when they hold the same characters.
#[verifier::external_body]
pub(crate) fn equal(a: &str, b: &str) -> (r: bool)
    ensures
        r == (a@ == b@),
{
    a == b
}

/// Calls `str::replace`. Believed: for a pattern that is not empty the result
/// is the text with each match, found from the left and not overlapping an
/// earlier one, replaced.
#[verifier::external_body]
pub(crate) fn replace(s: &str, from: &str, to: &str) -> (r: String)
    ensures
        from@.len() > 0 ==> r@ == replaced(s@, from@, to@),
{
    s.replace(from, to)
}

/// Calls `u64::to_string`. Believed: the result is the decimal numeral of `n`.
#[verifier::external_body]
pub(crate) fn number(n: u64) -> (r: String)
    ensures
        r@ == decimal(n as nat),
{
    n.to_string()
}

/// Calls `String::from_utf8_lossy`. Believed: bytes that are valid UTF-8 give
/// the text they encode; what other bytes give has a name only.
#[verifier::external_body]
pub(crate) fn from_utf8_lossy(bytes: &[u8]) -> (r: String)
    ensures
        r@ == utf8_lossy(bytes@),
        valid_utf8(bytes@) ==> r@ == decode_utf8(bytes@),
{
    String::from_utf8_lossy(bytes).into_owned()
}

/// Calls `str::parse::<u8>`. Believed: it accepts an optional `+` followed by
/// digits that denote a number up to 255, and gives that number; for anything
/// else the error's text has a name only.
#[verifier::external_body]
pub(crate) fn parse_u8(s: &str) -> (r: Result<u8, String>)
    ensures
        r matches Ok(n) ==> unsigned(s@) == Some(n as nat),
        r matches Err(e) ==> e@ == parse_failure(s@) && !(unsigned(s@) matches Some(n) && n <= 255),
{
    match s.parse::<u8>() {
        Ok(n) => Ok(n),
        Err(e) => Err(e.to_string()),
    }
}

/// Calls `str::trim`. Believed: the result is the text without the white
/// space at its two ends.
#[verifier::external_body]
pub(crate) fn trim(s: &str) -> (r: &str)
    ensures
        r@ == trimmed(s@),
{
    s.trim()
}

/// Calls `str::split_whitespace`. Believed: it gives the words of the text in order.
#[verifier::external_body]
pub(crate) fn split_whitespace(s: &str) -> (r: Vec<String>)
    ensures
        r.deep_view() == words(s@),
{
    s.split_whitespace().map(String::from).collect()
}

/// Calls `str::lines`. Believed: it gives the lines of the text in order.
#[verifier::external_body]
pub(crate) fn split_lines(s: &str) -> (r: Vec<String>)
    ensures
        r.deep_view() == lines(s@),
{
    s.lines().map(String::from).collect()
}

} // verus!
