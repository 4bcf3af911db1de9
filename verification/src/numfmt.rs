//! Decimal and hexadecimal text for the integers the renderer prints.
//!
//! Digits run most significant first, without leading zeros (zero
//! itself prints as one `0` digit) and without a type-width prefix.
//! Hexadecimal digits are lower case.

use vstd::arithmetic::div_mod::lemma_div_decreases;
use vstd::prelude::*;

verus! {

/// The character for a digit value below 16: `0`-`9`, then `a`-`f`.
pub open spec fn spec_digit(d: nat) -> char
    recommends
        d < 16,
{
    if d == 0 {
        '0'
    } else if d == 1 {
        '1'
    } else if d == 2 {
        '2'
    } else if d == 3 {
        '3'
    } else if d == 4 {
        '4'
    } else if d == 5 {
        '5'
    } else if d == 6 {
        '6'
    } else if d == 7 {
        '7'
    } else if d == 8 {
        '8'
    } else if d == 9 {
        '9'
    } else if d == 10 {
        'a'
    } else if d == 11 {
        'b'
    } else if d == 12 {
        'c'
    } else if d == 13 {
        'd'
    } else if d == 14 {
        'e'
    } else {
        'f'
    }
}

/// The decimal digits of `n`.
pub open spec fn spec_dec_digits(n: nat) -> Seq<char>
    decreases n,
    via spec_dec_digits_decreases
{
    if n < 10 {
        seq![spec_digit(n)]
    } else {
        spec_dec_digits(n / 10) + seq![spec_digit(n % 10)]
    }
}

#[via_fn]
proof fn spec_dec_digits_decreases(n: nat) {
    if n >= 10 {
        lemma_div_decreases(n as int, 10);
    }
}

/// The hexadecimal digits of `n`.
pub open spec fn spec_hex_digits(n: nat) -> Seq<char>
    decreases n,
    via spec_hex_digits_decreases
{
    if n < 16 {
        seq![spec_digit(n)]
    } else {
        spec_hex_digits(n / 16) + seq![spec_digit(n % 16)]
    }
}

#[via_fn]
proof fn spec_hex_digits_decreases(n: nat) {
    if n >= 16 {
        lemma_div_decreases(n as int, 16);
    }
}

/// The decimal text of a signed value: its magnitude's digits, after a
/// minus sign when it is negative.
pub open spec fn spec_dec_i32(x: i32) -> Seq<char> {
    if x < 0 {
        seq!['-'] + spec_dec_digits((-(x as int)) as nat)
    } else {
        spec_dec_digits(x as nat)
    }
}

/// The one-character string for a digit value below 16.
fn digit_str(d: u32) -> (r: &'static str)
    requires
        d < 16,
    ensures
        r@ == seq![spec_digit(d as nat)],
{
    proof {
        reveal_strlit("0");
        reveal_strlit("1");
        reveal_strlit("2");
        reveal_strlit("3");
        reveal_strlit("4");
        reveal_strlit("5");
        reveal_strlit("6");
        reveal_strlit("7");
        reveal_strlit("8");
        reveal_strlit("9");
        reveal_strlit("a");
        reveal_strlit("b");
        reveal_strlit("c");
        reveal_strlit("d");
        reveal_strlit("e");
        reveal_strlit("f");
    }
    let r = if d == 0 {
        "0"
    } else if d == 1 {
        "1"
    } else if d == 2 {
        "2"
    } else if d == 3 {
        "3"
    } else if d == 4 {
        "4"
    } else if d == 5 {
        "5"
    } else if d == 6 {
        "6"
    } else if d == 7 {
        "7"
    } else if d == 8 {
        "8"
    } else if d == 9 {
        "9"
    } else if d == 10 {
        "a"
    } else if d == 11 {
        "b"
    } else if d == 12 {
        "c"
    } else if d == 13 {
        "d"
    } else if d == 14 {
        "e"
    } else {
        "f"
    };
    proof {
        assert(r@ =~= seq![spec_digit(d as nat)]);
    }
    r
}

/// The decimal text of an unsigned 32-bit value.
pub fn u32_dec(n: u32) -> (r: String)
    ensures
        r@ == spec_dec_digits(n as nat),
    decreases n,
{
    if n < 10 {
        String::from_str(digit_str(n))
    } else {
        let mut s = u32_dec(n / 10);
        s.append(digit_str(n % 10));
        s
    }
}

/// The lower-case hexadecimal text of an unsigned 32-bit value.
pub fn u32_hex(n: u32) -> (r: String)
    ensures
        r@ == spec_hex_digits(n as nat),
    decreases n,
{
    if n < 16 {
        String::from_str(digit_str(n))
    } else {
        let mut s = u32_hex(n / 16);
        s.append(digit_str(n % 16));
        s
    }
}

/// The decimal text of a signed 32-bit value.
pub fn i32_dec(x: i32) -> (r: String)
    ensures
        r@ == spec_dec_i32(x),
{
    if x >= 0 {
        u32_dec(x as u32)
    } else {
        let magnitude: u32 = (-(x as i64)) as u32;
        let mut s = String::from_str("-");
        proof {
            reveal_strlit("-");
            assert(s@ =~= seq!['-']);
        }
        let digits = u32_dec(magnitude);
        s.append(digits.as_str());
        s
    }
}

} // verus!
