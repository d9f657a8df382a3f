//! Verified text building: decimal rendering of integers and single-character
//! appends, the foundation for every URL, request body and message the bridge
//! produces.

use vstd::prelude::*;
use vstd::string::*;

verus! {

/// The character for one decimal digit.
pub open spec fn dec_digit(d: int) -> char {
    if d == 0 {
        '0'
    } else if d == 1 {
        '1'
    } else if d == 2 {
        '2'
    } else if d == 3 {
        '3'
    } else if d == 4 {
        '4'
    } else if d == 5 {
        '5'
    } else if d == 6 {
        '6'
    } else if d == 7 {
        '7'
    } else if d == 8 {
        '8'
    } else {
        '9'
    }
}

/// The usual decimal rendering of a natural number, most significant digit
/// first, with no leading zeros (a lone zero for 0).
pub open spec fn dec_seq(n: nat) -> Seq<char>
    decreases n,
{
    if n < 10 {
        seq![dec_digit(n as int)]
    } else {
        dec_seq(n / 10) + seq![dec_digit((n % 10) as int)]
    }
}

/// Relies on String::push: appends exactly the given character.
#[verifier::external_body]
pub fn push_char(s: &mut String, c: char)
    ensures
        final(s)@ == old(s)@.push(c),
{
    s.push(c)
}

fn dec_digit_char(d: u64) -> (c: char)
    requires
        d < 10,
    ensures
        c == dec_digit(d as int),
{
    if d == 0 {
        '0'
    } else if d == 1 {
        '1'
    } else if d == 2 {
        '2'
    } else if d == 3 {
        '3'
    } else if d == 4 {
        '4'
    } else if d == 5 {
        '5'
    } else if d == 6 {
        '6'
    } else if d == 7 {
        '7'
    } else if d == 8 {
        '8'
    } else {
        '9'
    }
}

/// Decimal rendering of a `u64`.
pub fn u64_decimal(n: u64) -> (r: String)
    ensures
        r@ == dec_seq(n as nat),
    decreases n,
{
    if n < 10 {
        let mut s = String::new();
        push_char(&mut s, dec_digit_char(n));
        proof {
            assert(s@ =~= dec_seq(n as nat));
        }
        s
    } else {
        let mut s = u64_decimal(n / 10);
        push_char(&mut s, dec_digit_char(n % 10));
        proof {
            assert(s@ =~= dec_seq(n as nat));
        }
        s
    }
}

/// The usual decimal rendering of an integer, with a leading minus sign when
/// negative.
pub open spec fn int_dec_seq(c: int) -> Seq<char> {
    if c < 0 {
        seq!['-'] + dec_seq((-c) as nat)
    } else {
        dec_seq(c as nat)
    }
}

/// Decimal rendering of an `i32`.
pub fn i32_decimal(c: i32) -> (r: String)
    ensures
        r@ == int_dec_seq(c as int),
{
    if c >= 0 {
        u64_decimal(c as u64)
    } else {
        let m: u64 = (-(c as i64)) as u64;
        proof {
            assert(m as nat == (-(c as int)) as nat);
        }
        let mut s = String::new();
        push_char(&mut s, '-');
        let d = u64_decimal(m);
        s.append(d.as_str());
        proof {
            assert(s@ =~= int_dec_seq(c as int));
        }
        s
    }
}

} // verus!
