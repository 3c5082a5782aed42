//! Reading Zoom's process id from the output of `pgrep -x zoom.us`: the
//! first line, without surrounding white space, as a decimal `i32`.

use vstd::prelude::*;
use vstd::utf8::{decode_utf8, valid_utf8};
use crate::text::chars_of;

verus! {

/// What `String::from_utf8_lossy` gives for some bytes: their text, with
/// each invalid sequence replaced by U+FFFD; a function of the bytes alone.
pub uninterp spec fn lossy_utf8(bytes: Seq<u8>) -> Seq<char>;

/// Wraps `String::from_utf8_lossy`; its result is named [`lossy_utf8`], and
/// for valid UTF-8 it is the decoded text.
#[verifier::external_body]
fn utf8_lossy(bytes: &[u8]) -> (text: String)
    ensures
        text@ == lossy_utf8(bytes@),
        valid_utf8(bytes@) ==> text@ == decode_utf8(bytes@),
{
    String::from_utf8_lossy(bytes).into_owned()
}

/// Whether `char::is_whitespace` holds: the character has the Unicode
/// White_Space property.
pub uninterp spec fn white_space(c: char) -> bool;

/// Wraps `char::is_whitespace`; its result is named [`white_space`].
#[verifier::external_body]
fn is_white_space(c: char) -> (res: bool)
    ensures
        res == white_space(c),
{
    c.is_whitespace()
}

/// The text before the first line feed (all of it when there is none).
pub open spec fn first_line(text: Seq<char>) -> Seq<char>
    decreases text.len(),
{
    if text.len() == 0 || text[0] == '\n' {
        Seq::empty()
    } else {
        seq![text[0]] + first_line(text.drop_first())
    }
}

/// The text without its leading white space.
pub open spec fn trim_start(text: Seq<char>) -> Seq<char>
    decreases text.len(),
{
    if text.len() > 0 && white_space(text[0]) {
        trim_start(text.drop_first())
    } else {
        text
    }
}

/// The text without its trailing white space.
pub open spec fn trim_end(text: Seq<char>) -> Seq<char>
    decreases text.len(),
{
    if text.len() > 0 && white_space(text.last()) {
        trim_end(text.drop_last())
    } else {
        text
    }
}

/// The text without leading and trailing white space.
pub open spec fn trim(text: Seq<char>) -> Seq<char> {
    trim_end(trim_start(text))
}

/// An ASCII decimal digit.
pub open spec fn is_digit(c: char) -> bool {
    '0' <= c <= '9'
}

/// The value of a string of decimal digits.
pub open spec fn digits_value(digits: Seq<char>) -> nat
    decreases digits.len(),
{
    if digits.len() == 0 {
        0
    } else {
        digits_value(digits.drop_last()) * 10 + (digits.last() as nat - '0' as nat) as nat
    }
}

/// The digits of a number, after an optional sign.
pub open spec fn unsigned_part(text: Seq<char>) -> Seq<char> {
    if text.len() > 0 && (text[0] == '-' || text[0] == '+') {
        text.drop_first()
    } else {
        text
    }
}

/// The number that `str::parse::<i32>` reads: an optional `+` or `-`, then
/// one or more decimal digits, whose value must fit in an `i32`.
pub open spec fn spec_parse_i32(text: Seq<char>) -> Option<i32> {
    let digits = unsigned_part(text);
    let negative = text.len() > 0 && text[0] == '-';
    let value: int = if negative {
        -digits_value(digits)
    } else {
        digits_value(digits) as int
    };
    if digits.len() == 0 || !(forall|i: int| 0 <= i < digits.len() ==> is_digit(#[trigger] digits[i])) {
        None
    } else if value < i32::MIN || value > i32::MAX {
        None
    } else {
        Some(value as i32)
    }
}

/// The process id in the output of `pgrep`: the first line of its text,
/// trimmed and read as an `i32`; nothing for an empty output.
pub open spec fn spec_pid(output: Seq<u8>) -> Option<i32> {
    let text = lossy_utf8(output);
    if text.len() == 0 {
        None
    } else {
        spec_parse_i32(trim(first_line(text)))
    }
}

proof fn lemma_digits_value_grows(digits: Seq<char>, i: int)
    requires
        0 <= i <= digits.len(),
        forall|k: int| 0 <= k < digits.len() ==> is_digit(#[trigger] digits[k]),
    ensures
        digits_value(digits.take(i)) <= digits_value(digits),
    decreases digits.len() - i,
{
    if i < digits.len() {
        lemma_digits_value_grows(digits, i + 1);
        assert(digits.take(i + 1).drop_last() =~= digits.take(i));
    } else {
        assert(digits.take(i) =~= digits);
    }
}

proof fn lemma_first_line_prefix(text: Seq<char>, i: int)
    requires
        0 <= i <= text.len(),
        forall|k: int| 0 <= k < i ==> text[k] != '\n',
    ensures
        first_line(text) == text.take(i) + first_line(text.skip(i)),
    decreases i,
{
    if i > 0 {
        lemma_first_line_prefix(text.drop_first(), i - 1);
        assert(text.drop_first().take(i - 1) =~= text.take(i).drop_first());
        assert(text.drop_first().skip(i - 1) =~= text.skip(i));
        assert(text.take(i) =~= seq![text[0]] + text.take(i).drop_first());
    } else {
        assert(text.skip(0) =~= text);
    }
}

/// The first line of a text.
fn read_first_line(text: &Vec<char>) -> (line: Vec<char>)
    ensures
        line@ == first_line(text@),
{
    let mut line: Vec<char> = Vec::new();
    let mut i: usize = 0;
    while i < text.len() && text[i] != '\n'
        invariant
            i <= text@.len(),
            line@ == text@.take(i as int),
            forall|k: int| 0 <= k < i ==> text@[k] != '\n',
        decreases text@.len() - i,
    {
        line.push(text[i]);
        assert(text@.take(i + 1) =~= text@.take(i as int).push(text@[i as int]));
        i = i + 1;
    }
    proof {
        lemma_first_line_prefix(text@, i as int);
        assert(first_line(text@.skip(i as int)) =~= Seq::<char>::empty());
        assert(line@ + Seq::<char>::empty() =~= line@);
    }
    line
}

/// The text without leading and trailing white space.
fn trim_chars(text: &Vec<char>) -> (trimmed: Vec<char>)
    ensures
        trimmed@ == trim(text@),
{
    let mut start: usize = 0;
    assert(text@.skip(0) =~= text@);
    while start < text.len() && is_white_space(text[start])
        invariant
            start <= text@.len(),
            trim_start(text@) == trim_start(text@.skip(start as int)),
        decreases text@.len() - start,
    {
        assert(text@.skip(start as int).drop_first() =~= text@.skip(start + 1));
        start = start + 1;
    }
    let ghost rest = text@.skip(start as int);
    assert(trim_start(text@) == rest);
    let mut end: usize = text.len();
    while end > start && is_white_space(text[end - 1])
        invariant
            start <= end <= text@.len(),
            rest == text@.skip(start as int),
            trim_end(rest) == trim_end(text@.subrange(start as int, end as int)),
        decreases end - start,
    {
        assert(text@.subrange(start as int, end as int).drop_last() =~= text@.subrange(
            start as int,
            end - 1,
        ));
        end = end - 1;
    }
    assert(trim_end(text@.subrange(start as int, end as int)) == text@.subrange(
        start as int,
        end as int,
    ));
    let mut trimmed: Vec<char> = Vec::new();
    let mut i: usize = start;
    while i < end
        invariant
            start <= i <= end <= text@.len(),
            trimmed@ == text@.subrange(start as int, i as int),
        decreases end - i,
    {
        trimmed.push(text[i]);
        assert(text@.subrange(start as int, i + 1) =~= text@.subrange(start as int, i as int).push(
            text@[i as int],
        ));
        i = i + 1;
    }
    assert(text@.skip(start as int) =~= text@.subrange(start as int, text@.len() as int));
    trimmed
}

/// Reads a decimal `i32` (see [`spec_parse_i32`]).
pub fn parse_i32(text: &Vec<char>) -> (res: Option<i32>)
    ensures
        res == spec_parse_i32(text@),
{
    let negative = text.len() > 0 && text[0] == '-';
    let first: usize = if text.len() > 0 && (text[0] == '-' || text[0] == '+') {
        1
    } else {
        0
    };
    let ghost digits = unsigned_part(text@);
    assert(digits =~= text@.skip(first as int));
    if first == text.len() {
        return None;
    }
    let mut value: u64 = 0;
    let mut i: usize = first;
    while i < text.len()
        invariant
            first <= i <= text@.len(),
            digits == text@.skip(first as int),
            digits == unsigned_part(text@),
            forall|k: int| 0 <= k < i - first ==> is_digit(#[trigger] digits[k]),
            value == digits_value(digits.take(i - first)),
            value <= 2147483648,
        decreases text@.len() - i,
    {
        let c = text[i];
        assert(digits[i - first] == c);
        if c < '0' || c > '9' {
            assert(!is_digit(digits[i - first]));
            assert(!(forall|k: int| 0 <= k < digits.len() ==> is_digit(#[trigger] digits[k])));
            return None;
        }
        let d: u64 = (c as u64) - ('0' as u64);
        assert(digits.take(i + 1 - first).drop_last() =~= digits.take(i - first));
        assert(digits.take(i + 1 - first).last() == c);
        value = value * 10 + d;
        assert(value == digits_value(digits.take(i + 1 - first)));
        if value > 2147483648 {
            proof {
                if forall|k: int| 0 <= k < digits.len() ==> is_digit(#[trigger] digits[k]) {
                    lemma_digits_value_grows(digits, i + 1 - first);
                    assert(digits_value(digits) > 2147483648);
                }
            }
            return None;
        }
        i = i + 1;
    }
    assert(digits.take(digits.len() as int) =~= digits);
    if negative {
        let signed: i64 = 0 - (value as i64);
        Some(signed as i32)
    } else if value > 2147483647 {
        None
    } else {
        Some(value as i32)
    }
}

/// Reads Zoom's process id from the output of `pgrep` (see [`spec_pid`]).
pub fn parse_pid(output: &[u8]) -> (pid: Option<i32>)
    ensures
        pid == spec_pid(output@),
{
    let text = utf8_lossy(output);
    let chars = chars_of(text.as_str());
    if chars.len() == 0 {
        return None;
    }
    let line = read_first_line(&chars);
    let trimmed = trim_chars(&line);
    parse_i32(&trimmed)
}

/// The character of a decimal digit.
pub open spec fn digit_char(d: nat) -> char {
    if d == 0 {
        '0'
    } else if d == 1 {
        '1'
    } else if d == 2 {
        '2'
    } else if d == 3 {
        '3'
    } else if d == 4 {
        '4'
    } else if d == 5 {
        '5'
    } else if d == 6 {
        '6'
    } else if d == 7 {
        '7'
    } else if d == 8 {
        '8'
    } else {
        '9'
    }
}

/// The usual decimal rendering of a number, without leading zeros.
pub open spec fn decimal(n: nat) -> Seq<char>
    decreases n,
{
    if n < 10 {
        seq![digit_char(n)]
    } else {
        decimal(n / 10).push(digit_char(n % 10))
    }
}

proof fn lemma_digit_char(d: nat)
    requires
        d < 10,
    ensures
        is_digit(digit_char(d)),
        digit_char(d) as nat - '0' as nat == d,
{
    assert('0' as nat == 48);
    assert('9' as nat == 57);
}

proof fn lemma_decimal_digits(n: nat)
    ensures
        decimal(n).len() > 0,
        forall|i: int| 0 <= i < decimal(n).len() ==> is_digit(#[trigger] decimal(n)[i]),
        decimal(n)[0] != '-' && decimal(n)[0] != '+',
        digits_value(decimal(n)) == n,
    decreases n,
{
    if n < 10 {
        lemma_digit_char(n);
        assert(decimal(n).drop_last() =~= Seq::<char>::empty());
        assert(digits_value(Seq::<char>::empty()) == 0);
        assert(decimal(n).last() == digit_char(n));
        assert(digits_value(decimal(n)) == digits_value(decimal(n).drop_last()) * 10 + (decimal(n).last() as nat - '0' as nat) as nat);
    } else {
        lemma_digit_char(n % 10);
        lemma_decimal_digits(n / 10);
        let prefix = decimal(n / 10);
        assert(decimal(n).drop_last() =~= prefix);
        assert(decimal(n)[0] == prefix[0]);
        assert forall|i: int| 0 <= i < decimal(n).len() implies is_digit(#[trigger] decimal(n)[i]) by {
            if i < prefix.len() {
                assert(decimal(n)[i] == prefix[i]);
            }
        }
        assert(decimal(n).last() == digit_char(n % 10));
        assert(digits_value(decimal(n)) == digits_value(prefix) * 10 + (digit_char(n % 10) as nat - '0' as nat) as nat);
        assert((n / 10) * 10 + n % 10 == n);
    }
}

/// Reading a number back: the decimal rendering of every `i32` from 0 up
/// is read as that number, and with a `-` in front as its negation, down to
/// `i32::MIN`; a `+` in front changes nothing.
pub proof fn decimal_numbers_read_back(n: nat)
    ensures
        n <= i32::MAX ==> spec_parse_i32(decimal(n)) == Some(n as i32),
        n <= i32::MAX ==> spec_parse_i32(seq!['+'] + decimal(n)) == Some(n as i32),
        n <= 2147483648 ==> spec_parse_i32(seq!['-'] + decimal(n)) == Some((-n) as i32),
{
    lemma_decimal_digits(n);
    assert((seq!['+'] + decimal(n)).drop_first() =~= decimal(n));
    assert((seq!['-'] + decimal(n)).drop_first() =~= decimal(n));
}

} // verus!
