use vstd::prelude::*;
use vstd::string::{StrSliceExecFns, StringExecFns};

verus! {

/// The character of one decimal digit.
pub open spec fn digit_char(d: int) -> char {
    if d == 0 {
        '0'
    } else if d == 1 {
        '1'
    } else if d == 2 {
        '2'
    } else if d == 3 {
        '3'
    } else if d == 4 {
        '4'
    } else if d == 5 {
        '5'
    } else if d == 6 {
        '6'
    } else if d == 7 {
        '7'
    } else if d == 8 {
        '8'
    } else {
        '9'
    }
}

/// The decimal digits of a non-negative number, most significant first,
/// without leading zeros (a lone zero for 0).
pub open spec fn dec_digits(n: int) -> Seq<char>
    decreases n,
{
    if n < 10 {
        seq![digit_char(n)]
    } else {
        dec_digits(n / 10).push(digit_char(n % 10))
    }
}

/// The decimal rendering of an integer: an optional minus sign followed by
/// its digits.
pub open spec fn dec_str(n: int) -> Seq<char> {
    if n < 0 {
        seq!['-'] + dec_digits(-n)
    } else {
        dec_digits(n)
    }
}

/// The one-character string of one decimal digit.
fn digit_str(d: u8) -> (r: &'static str)
    requires
        d < 10,
    ensures
        r@ == seq![digit_char(d as int)],
{
    proof {
        reveal_strlit("0");
        reveal_strlit("1");
        reveal_strlit("2");
        reveal_strlit("3");
        reveal_strlit("4");
        reveal_strlit("5");
        reveal_strlit("6");
        reveal_strlit("7");
        reveal_strlit("8");
        reveal_strlit("9");
        assert("0"@ =~= seq![digit_char(0)]);
        assert("1"@ =~= seq![digit_char(1)]);
        assert("2"@ =~= seq![digit_char(2)]);
        assert("3"@ =~= seq![digit_char(3)]);
        assert("4"@ =~= seq![digit_char(4)]);
        assert("5"@ =~= seq![digit_char(5)]);
        assert("6"@ =~= seq![digit_char(6)]);
        assert("7"@ =~= seq![digit_char(7)]);
        assert("8"@ =~= seq![digit_char(8)]);
        assert("9"@ =~= seq![digit_char(9)]);
    }
    match d {
        0 => "0",
        1 => "1",
        2 => "2",
        3 => "3",
        4 => "4",
        5 => "5",
        6 => "6",
        7 => "7",
        8 => "8",
        _ => "9",
    }
}

/// Append the digits of a non-negative number to a string.
fn push_dec_digits(s: &mut String, m: i64)
    requires
        0 <= m,
    ensures
        final(s)@ == old(s)@ + dec_digits(m as int),
    decreases m,
{
    if m < 10 {
        s.append(digit_str(m as u8));
    } else {
        let ghost at_entry = s@;
        push_dec_digits(s, m / 10);
        s.append(digit_str((m % 10) as u8));
        proof {
            assert(s@ =~= at_entry + dec_digits(m as int));
        }
    }
}

/// Render an integer in decimal.
pub fn i32_to_dec_string(n: i32) -> (r: String)
    ensures
        r@ == dec_str(n as int),
{
    let mut s = String::new();
    let m: i64 = n as i64;
    if m < 0 {
        proof {
            reveal_strlit("-");
        }
        s.append("-");
        let ghost with_sign = s@;
        push_dec_digits(&mut s, -m);
        proof {
            assert(with_sign =~= seq!['-']);
            assert(s@ =~= dec_str(n as int));
        }
    } else {
        push_dec_digits(&mut s, m);
        proof {
            assert(s@ =~= dec_str(n as int));
        }
    }
    s
}

} // verus!
