//! Decimal and binary text presentations of raw identifier values.

use vstd::prelude::*;
use vstd::string::StringExecFns;
use crate::codec::left_pad_spec;

verus! {

/// The character for one digit value below ten.
pub open spec fn digit_char(d: nat) -> char {
    if d == 0 {
        '0'
    } else if d == 1 {
        '1'
    } else if d == 2 {
        '2'
    } else if d == 3 {
        '3'
    } else if d == 4 {
        '4'
    } else if d == 5 {
        '5'
    } else if d == 6 {
        '6'
    } else if d == 7 {
        '7'
    } else if d == 8 {
        '8'
    } else {
        '9'
    }
}

/// Decimal digits of a natural number, most significant first, no leading
/// zeros (a single zero digit for zero).
pub open spec fn dec_digits(n: nat) -> Seq<char>
    decreases n,
{
    if n < 10 {
        seq![digit_char(n)]
    } else {
        dec_digits(n / 10) + seq![digit_char(n % 10)]
    }
}

/// Binary digits of a natural number, most significant first, no leading
/// zeros (a single zero digit for zero).
pub open spec fn bin_digits(n: nat) -> Seq<char>
    decreases n,
{
    if n < 2 {
        seq![digit_char(n)]
    } else {
        bin_digits(n / 2) + seq![digit_char(n % 2)]
    }
}

/// The decimal rendering of a raw value's signed reading: the magnitude under
/// a minus sign when the top bit is set.
pub open spec fn signed_dec_text(v: u64) -> Seq<char> {
    if v < 0x8000_0000_0000_0000 {
        dec_digits(v as nat)
    } else {
        seq!['-'] + dec_digits((0x1_0000_0000_0000_0000 - v) as nat)
    }
}

/// The binary rendering of a raw value, in the alternate form at width 64: a
/// `0b` prefix and the digits of the 64-bit pattern, zero-padded to 62
/// columns.
pub open spec fn binary_text(v: u64) -> Seq<char> {
    seq!['0', 'b'] + left_pad_spec(bin_digits(v as nat), 62, '0')
}

/// One decimal digit as text.
fn digit_str(d: u64) -> (r: &'static str)
    requires
        d < 10,
    ensures
        r@ == seq![digit_char(d as nat)],
{
    let s: &'static str = if d == 0 {
        "0"
    } else if d == 1 {
        "1"
    } else if d == 2 {
        "2"
    } else if d == 3 {
        "3"
    } else if d == 4 {
        "4"
    } else if d == 5 {
        "5"
    } else if d == 6 {
        "6"
    } else if d == 7 {
        "7"
    } else if d == 8 {
        "8"
    } else {
        "9"
    };
    proof {
        reveal_strlit("0");
        reveal_strlit("1");
        reveal_strlit("2");
        reveal_strlit("3");
        reveal_strlit("4");
        reveal_strlit("5");
        reveal_strlit("6");
        reveal_strlit("7");
        reveal_strlit("8");
        reveal_strlit("9");
        assert(s@ =~= seq![digit_char(d as nat)]);
    }
    s
}

/// The decimal text of an unsigned 64-bit value.
pub fn u64_to_decimal(n: u64) -> (r: String)
    ensures
        r@ == dec_digits(n as nat),
    decreases n,
{
    if n < 10 {
        String::from_str(digit_str(n))
    } else {
        let mut prefix = u64_to_decimal(n / 10);
        prefix.append(digit_str(n % 10));
        proof {
            assert(prefix@ =~= dec_digits(n as nat));
        }
        prefix
    }
}

/// The binary text of an unsigned 64-bit value, without padding.
pub fn u64_to_binary(n: u64) -> (r: String)
    ensures
        r@ == bin_digits(n as nat),
    decreases n,
{
    if n < 2 {
        String::from_str(digit_str(n))
    } else {
        let mut prefix = u64_to_binary(n / 2);
        prefix.append(digit_str(n % 2));
        proof {
            assert(prefix@ =~= bin_digits(n as nat));
        }
        prefix
    }
}

} // verus!
