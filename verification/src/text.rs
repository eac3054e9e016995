//! Verified text building: appending to strings and rendering integers in
//! decimal.

use vstd::prelude::*;

verus! {

/// Relies on `String::push_str`: appends the given string slice onto the end
/// of this `String`.
#[verifier::external_body]
pub(crate) fn push_str(s: &mut String, t: &str)
    ensures
        final(s)@ == old(s)@ + t@,
{
    s.push_str(t);
}

/// Relies on `String::push`: appends the given char to the end of this
/// `String`.
#[verifier::external_body]
pub(crate) fn push_char(s: &mut String, c: char)
    ensures
        final(s)@ == old(s)@ + seq![c],
{
    s.push(c);
}

/// The decimal digit character for a value below ten.
pub open spec fn digit_char(d: nat) -> char {
    if d == 0 {
        '0'
    } else if d == 1 {
        '1'
    } else if d == 2 {
        '2'
    } else if d == 3 {
        '3'
    } else if d == 4 {
        '4'
    } else if d == 5 {
        '5'
    } else if d == 6 {
        '6'
    } else if d == 7 {
        '7'
    } else if d == 8 {
        '8'
    } else {
        '9'
    }
}

/// The decimal digit string of a non-negative integer, most significant
/// digit first, with no leading zeros (a single `'0'` for zero).
pub open spec fn dec_digits(n: nat) -> Seq<char>
    decreases n,
{
    if n < 10 {
        seq![digit_char(n)]
    } else {
        dec_digits(n / 10) + seq![digit_char(n % 10)]
    }
}

/// The decimal string of an integer: a `'-'` sign for negative values,
/// followed by the digits of the magnitude.
pub open spec fn dec_str(n: int) -> Seq<char> {
    if n < 0 {
        seq!['-'] + dec_digits((-n) as nat)
    } else {
        dec_digits(n as nat)
    }
}

/// Appends the single decimal digit `d` to `s`.
fn push_digit(s: &mut String, d: u64)
    requires
        d < 10,
    ensures
        final(s)@ == old(s)@ + seq![digit_char(d as nat)],
{
    if d == 0 {
        push_char(s, '0');
    } else if d == 1 {
        push_char(s, '1');
    } else if d == 2 {
        push_char(s, '2');
    } else if d == 3 {
        push_char(s, '3');
    } else if d == 4 {
        push_char(s, '4');
    } else if d == 5 {
        push_char(s, '5');
    } else if d == 6 {
        push_char(s, '6');
    } else if d == 7 {
        push_char(s, '7');
    } else if d == 8 {
        push_char(s, '8');
    } else {
        push_char(s, '9');
    }
}

/// Appends the decimal digits of `n` to `s`, most significant first.
fn push_dec_digits(s: &mut String, n: u64)
    ensures
        final(s)@ == old(s)@ + dec_digits(n as nat),
    decreases n,
{
    if n >= 10 {
        push_dec_digits(s, n / 10);
        push_digit(s, n % 10);
        proof {
            assert(s@ =~= old(s)@ + dec_digits(n as nat));
        }
    } else {
        push_digit(s, n);
    }
}

/// Renders a signed integer in decimal, exactly as `dec_str` describes.
pub fn format_i32(n: i32) -> (r: String)
    ensures
        r@ == dec_str(n as int),
{
    let mut r = String::new();
    let magnitude: u64 = if n < 0 {
        push_char(&mut r, '-');
        (-(n as i64)) as u64
    } else {
        n as u64
    };
    push_dec_digits(&mut r, magnitude);
    proof {
        assert(r@ =~= dec_str(n as int));
    }
    r
}

} // verus!
