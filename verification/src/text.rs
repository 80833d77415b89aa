//! Small text routines that the rest of the library shares: comparison up to
//! the case of ASCII letters, and decimal numbers.

use vstd::prelude::*;
use vstd::string::*;

verus! {

/// A character with an ASCII capital letter turned into its small letter.
pub open spec fn ascii_lower(c: char) -> char {
    if 'A' <= c && c <= 'Z' {
        (c as int + 32) as char
    } else {
        c
    }
}

/// A text with every ASCII capital letter turned into its small letter.
pub open spec fn lowered(text: Seq<char>) -> Seq<char> {
    Seq::new(text.len(), |i: int| ascii_lower(text[i]))
}

/// The decimal digit for a value below ten.
pub open spec fn decimal_digit(n: int) -> char {
    ('0' as int + n) as char
}

/// The decimal digits of a number, most significant first, without leading
/// zeros; the number zero is the single digit `0`.
pub open spec fn decimal(n: nat) -> Seq<char>
    decreases n,
{
    if n < 10 {
        seq![decimal_digit(n as int)]
    } else {
        decimal(n / 10).push(decimal_digit(n as int % 10))
    }
}

/// Turns an ASCII capital letter into its small letter and leaves every other
/// character as it is.
pub fn to_ascii_lower(c: char) -> (lower: char)
    ensures
        lower == ascii_lower(c),
{
    if 'A' <= c && c <= 'Z' {
        ((c as u8) + 32) as char
    } else {
        c
    }
}

/// Whether a text, with its ASCII capitals made small, is the other text.
pub fn lowered_equals(text: &str, plain: &str) -> (same: bool)
    ensures
        same == (lowered(text@) == plain@),
{
    let len: usize = text.unicode_len();
    if plain.unicode_len() != len {
        assert(lowered(text@).len() != plain@.len());
        return false;
    }
    let mut i: usize = 0;
    while i < len
        invariant
            i <= len,
            len == text@.len(),
            len == plain@.len(),
            forall|j: int| 0 <= j < i ==> ascii_lower(text@[j]) == plain@[j],
        decreases len - i,
    {
        if to_ascii_lower(text.get_char(i)) != plain.get_char(i) {
            assert(lowered(text@)[i as int] != plain@[i as int]);
            return false;
        }
        i = i + 1;
    }
    assert(lowered(text@) =~= plain@);
    true
}

/// The one-character text of the decimal digit for a value below ten.
fn decimal_digit_text(n: u8) -> (text: &'static str)
    requires
        n < 10,
    ensures
        text@ == seq![decimal_digit(n as int)],
{
    let digits: &'static str = "0123456789";
    proof {
        reveal_strlit("0123456789");
    }
    let from: usize = n as usize;
    let text = digits.substring_ascii(from, from + 1);
    assert(text@ =~= seq![decimal_digit(n as int)]);
    text
}

/// Appends the decimal digits of a number to a text.
pub fn push_decimal(text: &mut String, n: u32)
    ensures
        final(text)@ == old(text)@ + decimal(n as nat),
    decreases n,
{
    if n >= 10 {
        push_decimal(text, n / 10);
    }
    text.append(decimal_digit_text((n % 10) as u8));
    assert(text@ =~= old(text)@ + decimal(n as nat));
}

} // verus!
