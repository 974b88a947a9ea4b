//! Text that addresses are made of: ASCII case folding and decimal notation.

use vstd::prelude::*;

verus! {

/// `String::push` of the standard library appends the character to the end
/// of the string, and changes nothing else of it.
pub assume_specification[ String::push ](text: &mut String, ch: char)
    ensures
        final(text)@ == old(text)@.push(ch),
;

/// The lower case equivalent of an ASCII letter; any other character itself.
pub open spec fn ascii_lower(ch: char) -> char {
    if 'A' <= ch && ch <= 'Z' {
        ((ch as u8) + 32) as char
    } else {
        ch
    }
}

/// The given text with each ASCII letter `A` to `Z` replaced by its lower
/// case equivalent, and every other character kept.
pub open spec fn ascii_lowercase(text: Seq<char>) -> Seq<char> {
    Seq::new(text.len(), |i: int| ascii_lower(text[i]))
}

/// The character that stands for a decimal digit.
pub open spec fn digit(value: nat) -> char
    recommends
        value < 10,
{
    (48 + value) as char
}

/// The decimal notation of a number: its digits, the most significant first,
/// without sign or leading zero.
pub open spec fn decimal(number: nat) -> Seq<char>
    decreases number,
{
    if number < 10 {
        seq![digit(number)]
    } else {
        decimal(number / 10).push(digit(number % 10))
    }
}

/// The decimal notation of a number of which digits are still to be
/// written, and no text once none is left.
spec fn unwritten(rest: nat) -> Seq<char> {
    if rest == 0 {
        Seq::empty()
    } else {
        decimal(rest)
    }
}

/// Folding the case of a text twice is folding it once.
pub proof fn lemma_ascii_lowercase_is_idempotent(text: Seq<char>)
    ensures
        ascii_lowercase(ascii_lowercase(text)) == ascii_lowercase(text),
{
}

/// The lower case equivalent of an ASCII letter; any other character itself.
fn to_ascii_lower(ch: char) -> (low: char)
    ensures
        low == ascii_lower(ch),
{
    if 'A' <= ch && ch <= 'Z' {
        ((ch as u8) + 32) as char
    } else {
        ch
    }
}

/// The given text with each ASCII letter `A` to `Z` replaced by its lower
/// case equivalent, and every other character kept.
pub fn to_ascii_lowercase(text: &str) -> (low: String)
    ensures
        low@ == ascii_lowercase(text@),
{
    broadcast use vstd::string::axiom_spec_iter;

    let mut low = String::new();
    for ch in it: text.chars()
        invariant
            it.seq() == text@,
            low@ == ascii_lowercase(text@.take(it.index())),
    {
        low.push(to_ascii_lower(ch));
    }
    low
}

/// The decimal notation of a number.
pub fn to_decimal(number: u64) -> (text: String)
    ensures
        text@ == decimal(number as nat),
{
    // The digits, the least significant first.
    let mut digits: Vec<char> = Vec::new();
    let mut rest: u64 = number;
    digits.push((48u8 + (rest % 10) as u8) as char);
    rest = rest / 10;
    while rest > 0
        invariant
            decimal(number as nat) == unwritten(rest as nat) + digits@.reverse(),
        decreases rest,
    {
        digits.push((48u8 + (rest % 10) as u8) as char);
        rest = rest / 10;
    }
    let mut text = String::new();
    let mut left: usize = digits.len();
    while left > 0
        invariant
            left <= digits.len(),
            text@ == digits@.reverse().take(digits.len() - left),
        decreases left,
    {
        left = left - 1;
        text.push(digits[left]);
    }
    text
}

} // verus!
