//! Decimal rendering of integers, as it appears in log lines and in the
//! argument list handed to the stress tool.

use vstd::prelude::*;
use vstd::string::*;

verus! {

/// The character that stands for a single decimal digit.
pub open spec fn digit(d: int) -> char {
    if d == 0 {
        '0'
    } else if d == 1 {
        '1'
    } else if d == 2 {
        '2'
    } else if d == 3 {
        '3'
    } else if d == 4 {
        '4'
    } else if d == 5 {
        '5'
    } else if d == 6 {
        '6'
    } else if d == 7 {
        '7'
    } else if d == 8 {
        '8'
    } else {
        '9'
    }
}

/// The decimal numeral of `n`: most significant digit first, no leading
/// zeros, and `"0"` for zero.
pub open spec fn decimal(n: nat) -> Seq<char>
    decreases n,
{
    if n < 10 {
        seq![digit(n as int)]
    } else {
        decimal(n / 10).push(digit((n % 10) as int))
    }
}

/// The decimal numeral of a possibly negative integer: a minus sign in
/// front of the numeral of its magnitude.
pub open spec fn signed_decimal(i: int) -> Seq<char> {
    if i < 0 {
        seq!['-'] + decimal((-i) as nat)
    } else {
        decimal(i as nat)
    }
}

fn digit_str(d: u64) -> (s: &'static str)
    requires
        d < 10,
    ensures
        s@ == seq![digit(d as int)],
{
    proof {
        reveal_strlit("0");
        reveal_strlit("1");
        reveal_strlit("2");
        reveal_strlit("3");
        reveal_strlit("4");
        reveal_strlit("5");
        reveal_strlit("6");
        reveal_strlit("7");
        reveal_strlit("8");
        reveal_strlit("9");
    }
    let s = if d == 0 {
        "0"
    } else if d == 1 {
        "1"
    } else if d == 2 {
        "2"
    } else if d == 3 {
        "3"
    } else if d == 4 {
        "4"
    } else if d == 5 {
        "5"
    } else if d == 6 {
        "6"
    } else if d == 7 {
        "7"
    } else if d == 8 {
        "8"
    } else {
        "9"
    };
    assert(s@ =~= seq![digit(d as int)]);
    s
}

/// Renders `n` in decimal.
pub fn decimal_string(n: u64) -> (s: String)
    ensures
        s@ == decimal(n as nat),
    decreases n,
{
    if n < 10 {
        String::from_str(digit_str(n))
    } else {
        let mut s = decimal_string(n / 10);
        s.append(digit_str(n % 10));
        assert(s@ =~= decimal((n / 10) as nat).push(digit((n % 10) as int)));
        s
    }
}

/// Renders a signed 32-bit integer in decimal.
pub fn signed_decimal_string(i: i32) -> (s: String)
    ensures
        s@ == signed_decimal(i as int),
{
    if i < 0 {
        let magnitude: u64 = (-(i as i64)) as u64;
        let digits = decimal_string(magnitude);
        let mut s = String::from_str("-");
        s.append(digits.as_str());
        proof {
            reveal_strlit("-");
            assert("-"@ =~= seq!['-']);
        }
        s
    } else {
        decimal_string(i as u64)
    }
}

} // verus!
