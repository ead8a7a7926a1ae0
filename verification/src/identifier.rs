//! Window identifiers and their decimal text.
//!
//! A window identifier is the signed integer form of a native window handle.
//! It crosses into the host as decimal text: an optional minus sign followed
//! by the digits of the magnitude, most significant first, with no padding.

use vstd::prelude::*;

verus! {

/// The identifier that stands for "no window handle".
pub const NULL_IDENTIFIER: isize = 0;

/// The character that writes the digit `d`, for `d` in `0..=9`.
pub open spec fn digit_char(d: int) -> char {
    if d == 0 {
        '0'
    } else if d == 1 {
        '1'
    } else if d == 2 {
        '2'
    } else if d == 3 {
        '3'
    } else if d == 4 {
        '4'
    } else if d == 5 {
        '5'
    } else if d == 6 {
        '6'
    } else if d == 7 {
        '7'
    } else if d == 8 {
        '8'
    } else {
        '9'
    }
}

/// The decimal digits of `n`, most significant first, without leading zeros.
/// Zero is written as the single digit `0`.
pub open spec fn decimal_digits(n: nat) -> Seq<char>
    decreases n,
{
    if n < 10 {
        seq![digit_char(n as int)]
    } else {
        decimal_digits(n / 10).push(digit_char((n % 10) as int))
    }
}

/// The decimal text of an integer: a minus sign when it is negative, then the
/// digits of its magnitude.
pub open spec fn decimal_text(v: int) -> Seq<char> {
    if v < 0 {
        seq!['-'] + decimal_digits((-v) as nat)
    } else {
        decimal_digits(v as nat)
    }
}

/// Reversing a sequence that ends in `x` puts `x` first.
proof fn lemma_reverse_push(s: Seq<char>, x: char)
    ensures
        s.push(x).reverse() == seq![x] + s.reverse(),
{
}

/// `String::push` of the standard library: appends one character to the end
/// of the string and leaves the characters before it as they were.
pub assume_specification[ String::push ](s: &mut String, c: char)
    ensures
        final(s)@ == old(s)@.push(c),
;

fn digit_of(d: u64) -> (c: char)
    requires
        d < 10,
    ensures
        c == digit_char(d as int),
{
    if d == 0 {
        '0'
    } else if d == 1 {
        '1'
    } else if d == 2 {
        '2'
    } else if d == 3 {
        '3'
    } else if d == 4 {
        '4'
    } else if d == 5 {
        '5'
    } else if d == 6 {
        '6'
    } else if d == 7 {
        '7'
    } else if d == 8 {
        '8'
    } else {
        '9'
    }
}

/// Writes a window identifier as decimal text.
pub fn render_identifier(id: isize) -> (text: String)
    ensures
        text@ == decimal_text(id as int),
{
    let negative: bool = id < 0;
    let magnitude: u64 = if negative {
        (-(id as i128)) as u64
    } else {
        id as u64
    };
    let mut rest: u64 = magnitude;
    let mut low_first: Vec<char> = Vec::new();
    while rest >= 10
        invariant
            decimal_digits(magnitude as nat) == decimal_digits(rest as nat) + low_first@.reverse(),
        decreases rest,
    {
        let digit: char = digit_of(rest % 10);
        proof {
            lemma_reverse_push(low_first@, digit);
        }
        low_first.push(digit);
        rest = rest / 10;
    }
    let leading: char = digit_of(rest);
    proof {
        lemma_reverse_push(low_first@, leading);
    }
    low_first.push(leading);

    let mut text: String = String::new();
    if negative {
        text.push('-');
    }
    let ghost sign: Seq<char> = text@;
    let ghost digits: Seq<char> = low_first@.reverse();
    let mut left: usize = low_first.len();
    while left > 0
        invariant
            left <= low_first.len(),
            digits == low_first@.reverse(),
            text@ == sign + digits.take(low_first.len() - left),
        decreases left,
    {
        left = left - 1;
        let c: char = low_first[left];
        text.push(c);
    }
    text
}

/// The digit that the character `c` writes, for `c` in `'0'..='9'`.
pub open spec fn digit_value(c: char) -> int {
    if c == '0' {
        0
    } else if c == '1' {
        1
    } else if c == '2' {
        2
    } else if c == '3' {
        3
    } else if c == '4' {
        4
    } else if c == '5' {
        5
    } else if c == '6' {
        6
    } else if c == '7' {
        7
    } else if c == '8' {
        8
    } else {
        9
    }
}

/// The number that a sequence of decimal digits writes, most significant
/// digit first.
pub open spec fn digits_value(digits: Seq<char>) -> int
    decreases digits.len(),
{
    if digits.len() == 0 {
        0
    } else {
        digits_value(digits.drop_last()) * 10 + digit_value(digits.last())
    }
}

/// The integer that a decimal text writes: what follows a leading minus sign,
/// negated, or else the digits as they stand.
pub open spec fn text_value(text: Seq<char>) -> int {
    if text.len() > 0 && text[0] == '-' {
        -digits_value(text.drop_first())
    } else {
        digits_value(text)
    }
}

/// The digits of a natural number write that number, and they begin with a
/// digit, never with a minus sign.
pub proof fn lemma_digits_round_trip(n: nat)
    ensures
        digits_value(decimal_digits(n)) == n,
        decimal_digits(n).len() > 0,
        decimal_digits(n)[0] != '-',
    decreases n,
{
    let digits = decimal_digits(n);
    if n < 10 {
        assert(digits_value(digits.drop_last()) == 0);
    } else {
        lemma_digits_round_trip(n / 10);
        assert(digits.drop_last() =~= decimal_digits(n / 10));
    }
}

/// Reading a decimal text gives back the integer it was written from.
pub proof fn lemma_text_round_trip(v: int)
    ensures
        text_value(decimal_text(v)) == v,
{
    if v < 0 {
        lemma_digits_round_trip((-v) as nat);
        assert(decimal_text(v).drop_first() =~= decimal_digits((-v) as nat));
    } else {
        lemma_digits_round_trip(v as nat);
    }
}

/// Different identifiers have different texts: the text of an identifier
/// tells which identifier it is.
pub proof fn lemma_text_is_injective(a: int, b: int)
    requires
        decimal_text(a) == decimal_text(b),
    ensures
        a == b,
{
    lemma_text_round_trip(a);
    lemma_text_round_trip(b);
}

} // verus!
