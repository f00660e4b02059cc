//! Building text: decimal numerals and small helpers on strings.

use vstd::prelude::*;

verus! {

pub assume_specification[ String::push ](text: &mut String, c: char)
    ensures
        final(text)@ == old(text)@.push(c),
;

pub assume_specification[ String::pop ](text: &mut String) -> (last: Option<char>)
    ensures
        old(text)@.len() == 0 ==> last is None && final(text)@ == old(text)@,
        old(text)@.len() > 0 ==> last == Some(old(text)@.last()) && final(text)@ == old(
            text,
        )@.drop_last(),
;

/// The character that writes a single decimal digit.
pub open spec fn digit_char(digit: nat) -> char {
    if digit == 0 {
        '0'
    } else if digit == 1 {
        '1'
    } else if digit == 2 {
        '2'
    } else if digit == 3 {
        '3'
    } else if digit == 4 {
        '4'
    } else if digit == 5 {
        '5'
    } else if digit == 6 {
        '6'
    } else if digit == 7 {
        '7'
    } else if digit == 8 {
        '8'
    } else {
        '9'
    }
}

/// The decimal numeral of a natural number, most significant digit first,
/// without leading zeros.
pub open spec fn decimal(n: nat) -> Seq<char>
    decreases n,
{
    if n < 10 {
        seq![digit_char(n)]
    } else {
        decimal(n / 10).push(digit_char(n % 10))
    }
}

/// The numeral of an integer: a minus sign in front of a negative number,
/// nothing in front of any other.
pub open spec fn plain_decimal(n: int) -> Seq<char> {
    if n < 0 {
        seq!['-'] + decimal((-n) as nat)
    } else {
        decimal(n as nat)
    }
}

/// The numeral of an integer with its sign always written: `+` in front of
/// zero and of positive numbers, `-` in front of negative ones.
pub open spec fn signed_decimal(n: int) -> Seq<char> {
    if n < 0 {
        seq!['-'] + decimal((-n) as nat)
    } else {
        seq!['+'] + decimal(n as nat)
    }
}

fn digit(d: u64) -> (c: char)
    requires
        d < 10,
    ensures
        c == digit_char(d as nat),
{
    if d == 0 {
        '0'
    } else if d == 1 {
        '1'
    } else if d == 2 {
        '2'
    } else if d == 3 {
        '3'
    } else if d == 4 {
        '4'
    } else if d == 5 {
        '5'
    } else if d == 6 {
        '6'
    } else if d == 7 {
        '7'
    } else if d == 8 {
        '8'
    } else {
        '9'
    }
}

fn magnitude(n: i64) -> (size: u64)
    ensures
        size == if n < 0 {
            -n
        } else {
            n as int
        },
{
    if n < 0 {
        (-(n + 1)) as u64 + 1
    } else {
        n as u64
    }
}

/// Appends the decimal numeral of `n` to `text`.
pub fn push_decimal(text: &mut String, n: u64)
    ensures
        final(text)@ == old(text)@ + decimal(n as nat),
    decreases n,
{
    if n < 10 {
        text.push(digit(n));
        assert(old(text)@.push(digit_char(n as nat)) =~= old(text)@ + decimal(n as nat));
    } else {
        push_decimal(text, n / 10);
        text.push(digit(n % 10));
        assert((old(text)@ + decimal((n / 10) as nat)).push(digit_char((n % 10) as nat)) =~= old(
            text,
        )@ + decimal(n as nat));
    }
}

/// Appends the numeral of `n`, with a minus sign if it is negative.
pub fn push_plain(text: &mut String, n: i64)
    ensures
        final(text)@ == old(text)@ + plain_decimal(n as int),
{
    if n < 0 {
        text.push('-');
        push_decimal(text, magnitude(n));
        assert(old(text)@.push('-') + decimal((-n) as nat) =~= old(text)@ + plain_decimal(
            n as int,
        ));
    } else {
        push_decimal(text, magnitude(n));
    }
}

/// Appends the numeral of `n` with its sign always written.
pub fn push_signed(text: &mut String, n: i64)
    ensures
        final(text)@ == old(text)@ + signed_decimal(n as int),
{
    if n < 0 {
        text.push('-');
    } else {
        text.push('+');
    }
    push_decimal(text, magnitude(n));
    assert(final(text)@ =~= old(text)@ + signed_decimal(n as int));
}

/// Whether two string slices hold the same characters.
pub fn same_text(left: &str, right: &str) -> (same: bool)
    ensures
        same == (left@ == right@),
{
    let a = String::from_str(left);
    let b = String::from_str(right);
    a == b
}

} // verus!
