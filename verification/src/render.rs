//! Verified text rendering: decimal and hexadecimal digit sequences, and the
//! two string-building primitives the report and message code uses.

use vstd::prelude::*;

verus! {

/// The decimal digit characters of `n`, most significant first.
pub open spec fn dec_digits(n: int) -> Seq<char>
    decreases n,
    when n >= 0
{
    if n < 10 {
        seq![dec_digit_char(n)]
    } else {
        dec_digits(n / 10).push(dec_digit_char(n % 10))
    }
}

/// The character of one decimal digit.
pub open spec fn dec_digit_char(d: int) -> char {
    if d == 0 {
        '0'
    } else if d == 1 {
        '1'
    } else if d == 2 {
        '2'
    } else if d == 3 {
        '3'
    } else if d == 4 {
        '4'
    } else if d == 5 {
        '5'
    } else if d == 6 {
        '6'
    } else if d == 7 {
        '7'
    } else if d == 8 {
        '8'
    } else {
        '9'
    }
}

/// The uppercase hexadecimal digit characters of `n`, most significant
/// first.
pub open spec fn hex_digits(n: int) -> Seq<char>
    decreases n,
    when n >= 0
{
    if n < 16 {
        seq![hex_digit_char(n)]
    } else {
        hex_digits(n / 16).push(hex_digit_char(n % 16))
    }
}

/// The character of one uppercase hexadecimal digit.
pub open spec fn hex_digit_char(d: int) -> char {
    if d < 10 {
        dec_digit_char(d)
    } else if d == 10 {
        'A'
    } else if d == 11 {
        'B'
    } else if d == 12 {
        'C'
    } else if d == 13 {
        'D'
    } else if d == 14 {
        'E'
    } else {
        'F'
    }
}

/// Relies on `String::push_str`: appends exactly the given string slice.
#[verifier::external_body]
pub(crate) fn append_str(s: &mut String, t: &str)
    ensures
        final(s)@ == old(s)@ + t@,
{
    s.push_str(t);
}

/// Relies on `String::push`: appends exactly the given character.
#[verifier::external_body]
pub(crate) fn append_char(s: &mut String, c: char)
    ensures
        final(s)@ == old(s)@ + seq![c],
{
    s.push(c);
}

fn dec_digit(d: u128) -> (c: char)
    requires
        d < 10,
    ensures
        c == dec_digit_char(d as int),
{
    if d == 0 {
        '0'
    } else if d == 1 {
        '1'
    } else if d == 2 {
        '2'
    } else if d == 3 {
        '3'
    } else if d == 4 {
        '4'
    } else if d == 5 {
        '5'
    } else if d == 6 {
        '6'
    } else if d == 7 {
        '7'
    } else if d == 8 {
        '8'
    } else {
        '9'
    }
}

fn hex_digit(d: u32) -> (c: char)
    requires
        d < 16,
    ensures
        c == hex_digit_char(d as int),
{
    if d < 10 {
        dec_digit(d as u128)
    } else if d == 10 {
        'A'
    } else if d == 11 {
        'B'
    } else if d == 12 {
        'C'
    } else if d == 13 {
        'D'
    } else if d == 14 {
        'E'
    } else {
        'F'
    }
}

/// Renders `n` in decimal.
pub fn u128_dec(n: u128) -> (s: String)
    ensures
        s@ == dec_digits(n as int),
    decreases n,
{
    if n < 10 {
        let mut s = String::new();
        append_char(&mut s, dec_digit(n));
        proof {
            assert(s@ =~= dec_digits(n as int));
        }
        s
    } else {
        let mut s = u128_dec(n / 10);
        append_char(&mut s, dec_digit(n % 10));
        proof {
            assert(s@ =~= dec_digits(n as int));
        }
        s
    }
}

/// Renders `n` in uppercase hexadecimal with a `0x` prefix, as reports show
/// channel masks.
pub fn u32_hex_prefixed(n: u32) -> (s: String)
    ensures
        s@ == "0x"@ + hex_digits(n as int),
{
    let mut s = String::new();
    append_str(&mut s, "0x");
    let digits = u32_hex(n);
    append_str(&mut s, digits.as_str());
    proof {
        assert(s@ =~= "0x"@ + hex_digits(n as int));
    }
    s
}

fn u32_hex(n: u32) -> (s: String)
    ensures
        s@ == hex_digits(n as int),
    decreases n,
{
    if n < 16 {
        let mut s = String::new();
        append_char(&mut s, hex_digit(n));
        proof {
            assert(s@ =~= hex_digits(n as int));
        }
        s
    } else {
        let mut s = u32_hex(n / 16);
        append_char(&mut s, hex_digit(n % 16));
        proof {
            assert(s@ =~= hex_digits(n as int));
        }
        s
    }
}

} // verus!
