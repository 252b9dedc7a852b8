//! The timer's count as text: ticks are hundredths of a second, shown with
//! two decimals.

use vstd::prelude::*;
use vstd::string::StringExecFns;

verus! {

/// The character of a decimal digit.
pub open spec fn digit_char(d: nat) -> char {
    if d == 0 {
        '0'
    } else if d == 1 {
        '1'
    } else if d == 2 {
        '2'
    } else if d == 3 {
        '3'
    } else if d == 4 {
        '4'
    } else if d == 5 {
        '5'
    } else if d == 6 {
        '6'
    } else if d == 7 {
        '7'
    } else if d == 8 {
        '8'
    } else {
        '9'
    }
}

/// The decimal digits of `n`, most significant first, without leading zeros.
pub open spec fn decimal(n: nat) -> Seq<char>
    decreases n,
{
    if n < 10 {
        seq![digit_char(n)]
    } else {
        decimal(n / 10).push(digit_char(n % 10))
    }
}

/// `ticks` hundredths of a second: whole seconds, a point, two digits.
pub open spec fn elapsed_text(ticks: nat) -> Seq<char> {
    decimal(ticks / 100) + seq!['.', digit_char((ticks % 100) / 10), digit_char(ticks % 10)]
}

fn digit_str(d: u32) -> (r: &'static str)
    requires
        d < 10,
    ensures
        r@ == seq![digit_char(d as nat)],
{
    proof {
        reveal_strlit("0");
        reveal_strlit("1");
        reveal_strlit("2");
        reveal_strlit("3");
        reveal_strlit("4");
        reveal_strlit("5");
        reveal_strlit("6");
        reveal_strlit("7");
        reveal_strlit("8");
        reveal_strlit("9");
    }
    if d == 0 {
        "0"
    } else if d == 1 {
        "1"
    } else if d == 2 {
        "2"
    } else if d == 3 {
        "3"
    } else if d == 4 {
        "4"
    } else if d == 5 {
        "5"
    } else if d == 6 {
        "6"
    } else if d == 7 {
        "7"
    } else if d == 8 {
        "8"
    } else {
        "9"
    }
}

/// The decimal digits of `n`.
pub fn decimal_string(n: u32) -> (r: String)
    ensures
        r@ == decimal(n as nat),
    decreases n,
{
    if n < 10 {
        String::from_str(digit_str(n))
    } else {
        let mut s = decimal_string(n / 10);
        s.append(digit_str(n % 10));
        s
    }
}

/// The count shown with two decimals (`1500` as `15.00`, `5` as `0.05`).
/// A negative count has no such form and gives `None`.
pub fn format_elapsed(ticks: i32) -> (r: Option<String>)
    ensures
        ticks < 0 <==> r is None,
        r matches Some(s) ==> s@ == elapsed_text(ticks as nat),
{
    if ticks < 0 {
        return None;
    }
    let t = ticks as u32;
    let mut s = decimal_string(t / 100);
    proof {
        reveal_strlit(".");
    }
    s.append(".");
    s.append(digit_str((t % 100) / 10));
    s.append(digit_str(t % 10));
    Some(s)
}

} // verus!
