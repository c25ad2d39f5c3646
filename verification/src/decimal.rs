//! Decimal numerals: the text that stands for an integer in base ten.

use vstd::prelude::*;

verus! {

/// The character that stands for the digit `d`.
pub open spec fn digit_char(d: int) -> char
    recommends
        0 <= d <= 9,
{
    if d == 0 {
        '0'
    } else if d == 1 {
        '1'
    } else if d == 2 {
        '2'
    } else if d == 3 {
        '3'
    } else if d == 4 {
        '4'
    } else if d == 5 {
        '5'
    } else if d == 6 {
        '6'
    } else if d == 7 {
        '7'
    } else if d == 8 {
        '8'
    } else {
        '9'
    }
}

/// The digits of `n` in base ten, most significant first, without leading
/// zeros; zero is the single digit `0`.
pub open spec fn decimal_digits(n: nat) -> Seq<char>
    decreases n,
{
    if n < 10 {
        seq![digit_char(n as int)]
    } else {
        decimal_digits(n / 10).push(digit_char((n % 10) as int))
    }
}

/// The decimal numeral of `i`: a minus sign for a negative number, then the
/// digits of its magnitude.
pub open spec fn decimal_text(i: int) -> Seq<char> {
    if i < 0 {
        seq!['-'] + decimal_digits((-i) as nat)
    } else {
        decimal_digits(i as nat)
    }
}

/// The character for a single digit.
fn digit(d: u64) -> (c: char)
    requires
        d <= 9,
    ensures
        c == digit_char(d as int),
{
    ('0' as u8 + d as u8) as char
}

/// Appends the digits of `n` to `out`, most significant first.
fn push_digits(out: &mut String, n: u64)
    ensures
        final(out)@ == old(out)@ + decimal_digits(n as nat),
    decreases n,
{
    if n >= 10 {
        push_digits(out, n / 10);
    }
    out.push(digit(n % 10));
}

/// Appends the decimal numeral of `value` to `out`.
pub fn push_decimal(out: &mut String, value: i64)
    ensures
        final(out)@ == old(out)@ + decimal_text(value as int),
{
    if value < 0 {
        // `-value` does not fit for the least `i64`; its magnitude does fit a `u64`.
        let magnitude: u64 = (-(value + 1)) as u64 + 1;
        out.push('-');
        push_digits(out, magnitude);
    } else {
        push_digits(out, value as u64);
    }
}

/// The decimal numeral of `value` as a string of its own.
pub fn decimal(value: i64) -> (text: String)
    ensures
        text@ == decimal_text(value as int),
{
    let mut text = String::new();
    push_decimal(&mut text, value);
    text
}

/// Whether `c` is one of the ten decimal digits.
pub open spec fn is_digit(c: char) -> bool {
    c == '0' || c == '1' || c == '2' || c == '3' || c == '4' || c == '5' || c == '6' || c == '7'
        || c == '8' || c == '9'
}

/// The number that the digit `c` stands for.
pub open spec fn digit_value(c: char) -> nat
    recommends
        is_digit(c),
{
    if c == '0' {
        0
    } else if c == '1' {
        1
    } else if c == '2' {
        2
    } else if c == '3' {
        3
    } else if c == '4' {
        4
    } else if c == '5' {
        5
    } else if c == '6' {
        6
    } else if c == '7' {
        7
    } else if c == '8' {
        8
    } else {
        9
    }
}

/// The number that a sequence of digits stands for when read in base ten,
/// most significant digit first.
pub open spec fn numeral_value(digits: Seq<char>) -> nat
    decreases digits.len(),
{
    if digits.len() == 0 {
        0
    } else {
        numeral_value(digits.drop_last()) * 10 + digit_value(digits.last())
    }
}

/// The digits of a number are a numeral for that number: there is at least
/// one of them, each is a decimal digit, the first is not `0` unless the
/// number is zero, and read in base ten they give the number back.
pub proof fn lemma_digits_read_back(n: nat)
    ensures
        decimal_digits(n).len() >= 1,
        forall|k: int|
            0 <= k < decimal_digits(n).len() ==> is_digit(#[trigger] decimal_digits(n)[k]),
        n > 0 ==> decimal_digits(n)[0] != '0',
        numeral_value(decimal_digits(n)) == n,
    decreases n,
{
    let digits = decimal_digits(n);
    if n < 10 {
        assert(digits.drop_last() =~= Seq::<char>::empty());
        assert(numeral_value(digits) == n) by {
            reveal_with_fuel(numeral_value, 2);
        }
    } else {
        lemma_digits_read_back(n / 10);
        assert(digits.drop_last() =~= decimal_digits(n / 10));
    }
}

/// A decimal numeral is not empty and holds nothing but digits and the
/// minus sign.
pub proof fn lemma_decimal_text_chars(i: int)
    ensures
        decimal_text(i).len() >= 1,
        forall|k: int|
            0 <= k < decimal_text(i).len() ==> {
                let c = #[trigger] decimal_text(i)[k];
                is_digit(c) || c == '-'
            },
{
    if i < 0 {
        lemma_digits_read_back((-i) as nat);
    } else {
        lemma_digits_read_back(i as nat);
    }
}

/// Different integers have different decimal numerals.
pub proof fn lemma_decimal_text_injective(i: int, j: int)
    requires
        decimal_text(i) == decimal_text(j),
    ensures
        i == j,
{
    let a = if i < 0 { (-i) as nat } else { i as nat };
    let b = if j < 0 { (-j) as nat } else { j as nat };
    lemma_digits_read_back(a);
    lemma_digits_read_back(b);
    assert(is_digit(decimal_digits(a)[0]));
    assert(is_digit(decimal_digits(b)[0]));
    if i < 0 && j < 0 {
        assert(decimal_digits(a) =~= decimal_text(i).subrange(1, decimal_text(i).len() as int));
        assert(decimal_digits(b) =~= decimal_text(j).subrange(1, decimal_text(j).len() as int));
    } else if i < 0 {
        assert(decimal_text(i)[0] == '-');
    } else if j < 0 {
        assert(decimal_text(j)[0] == '-');
    }
}

} // verus!
