//! Small operations on text that the display model needs.

use vstd::prelude::*;
use vstd::string::{StrSliceExecFns, StringExecFns};

verus! {

/// Calls `String::push`, which appends one character to the end of the
/// string.
#[verifier::external_body]
pub(crate) fn push_char(text: &mut String, c: char)
    ensures
        final(text)@ == old(text)@.push(c),
{
    text.push(c);
}

/// The capital of a small ASCII letter, and any other character as it is.
pub open spec fn to_upper(c: char) -> char {
    if 'a' <= c <= 'z' {
        ((c as u8 - 32) as u8) as char
    } else {
        c
    }
}

/// The text with its first character in upper case.
pub open spec fn capitalized(text: Seq<char>) -> Seq<char> {
    if text.len() == 0 {
        text
    } else {
        seq![to_upper(text[0])] + text.skip(1)
    }
}

/// The text with its first character in upper case.
pub fn capitalize(text: &str) -> (capital: String)
    ensures
        capital@ == capitalized(text@),
{
    let len = text.unicode_len();
    if len == 0 {
        return String::from_str(text);
    }
    let first = text.get_char(0);
    let upper = if 'a' <= first && first <= 'z' {
        ((first as u8) - 32) as char
    } else {
        first
    };
    let mut capital = String::new();
    push_char(&mut capital, upper);
    let rest = text.substring_char(1, len);
    capital.append(rest);
    proof {
        assert(text@.subrange(1, len as int) =~= text@.skip(1));
        assert(Seq::<char>::empty().push(upper) =~= seq![to_upper(text@[0])]);
    }
    capital
}

/// The character of a digit.
pub open spec fn digit_char(d: int) -> char {
    ((48 + d) as u8) as char
}

/// The decimal digits of a natural number.
pub open spec fn digits(n: nat) -> Seq<char>
    decreases n,
{
    if n < 10 {
        seq![digit_char(n as int)]
    } else {
        digits(n / 10).push(digit_char((n % 10) as int))
    }
}

/// The decimal text of an integer, with a minus sign where it is negative.
pub open spec fn decimal(i: int) -> Seq<char> {
    if i < 0 {
        seq!['-'] + digits((-i) as nat)
    } else {
        digits(i as nat)
    }
}

/// Appends the decimal digits of `n` to `text`.
fn push_digits(text: &mut String, n: u64)
    ensures
        final(text)@ == old(text)@ + digits(n as nat),
    decreases n,
{
    if n < 10 {
        push_char(text, (48 + (n as u8)) as char);
        assert(text@ =~= old(text)@ + digits(n as nat));
    } else {
        push_digits(text, n / 10);
        push_char(text, (48 + ((n % 10) as u8)) as char);
        assert(text@ =~= old(text)@ + digits(n as nat));
    }
}

/// The decimal text of an integer.
pub fn decimal_text(i: i64) -> (text: String)
    ensures
        text@ == decimal(i as int),
{
    let mut text = String::new();
    if i < 0 {
        push_char(&mut text, '-');
        let magnitude: u64 = ((-(i + 1)) as u64) + 1;
        push_digits(&mut text, magnitude);
        assert(text@ =~= decimal(i as int));
    } else {
        push_digits(&mut text, i as u64);
        assert(text@ =~= decimal(i as int));
    }
    text
}

} // verus!
