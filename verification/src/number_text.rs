//! Decimal text of integers, as `Display` writes them.
use vstd::prelude::*;
use vstd::string::StringExecFns;

verus! {

/// The decimal digit of a value below ten.
pub open spec fn digit_char(d: int) -> char {
    seq!['0', '1', '2', '3', '4', '5', '6', '7', '8', '9'][d]
}

/// The decimal digits of a natural number, most significant first, without
/// leading zeros (zero is `0`).
pub open spec fn decimal_digits(n: nat) -> Seq<char>
    decreases n,
{
    if n < 10 {
        seq![digit_char(n as int)]
    } else {
        decimal_digits(n / 10) + seq![digit_char((n % 10) as int)]
    }
}

/// The decimal text of an integer: a minus sign before the digits of a
/// negative one.
pub open spec fn decimal_text(n: int) -> Seq<char> {
    if n < 0 {
        seq!['-'] + decimal_digits((-n) as nat)
    } else {
        decimal_digits(n as nat)
    }
}

fn digit_str(d: u64) -> (res: &'static str)
    requires
        d < 10,
    ensures
        res@ == seq![digit_char(d as int)],
{
    proof {
        reveal_strlit("0");
        reveal_strlit("1");
        reveal_strlit("2");
        reveal_strlit("3");
        reveal_strlit("4");
        reveal_strlit("5");
        reveal_strlit("6");
        reveal_strlit("7");
        reveal_strlit("8");
        reveal_strlit("9");
    }
    match d {
        0 => "0",
        1 => "1",
        2 => "2",
        3 => "3",
        4 => "4",
        5 => "5",
        6 => "6",
        7 => "7",
        8 => "8",
        _ => "9",
    }
}

/// Writes an unsigned integer in decimal.
pub fn u64_text(n: u64) -> (res: String)
    ensures
        res@ == decimal_text(n as int),
    decreases n,
{
    if n < 10 {
        String::from_str(digit_str(n))
    } else {
        let head = u64_text(n / 10);
        let res = head.concat(digit_str(n % 10));
        assert(res@ == decimal_digits(n as nat));
        res
    }
}

/// Writes a signed integer in decimal, with a minus sign when negative.
pub fn i32_text(n: i32) -> (res: String)
    ensures
        res@ == decimal_text(n as int),
{
    if n < 0 {
        let magnitude: u64 = (-(n as i64)) as u64;
        let digits = u64_text(magnitude);
        proof {
            reveal_strlit("-");
        }
        let res = String::from_str("-").concat(digits.as_str());
        assert(res@ =~= seq!['-'] + decimal_digits((-(n as int)) as nat));
        res
    } else {
        u64_text(n as u64)
    }
}

} // verus!
