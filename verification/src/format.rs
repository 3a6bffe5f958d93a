//! Decimal formatting of the fixed-point values the widget displays.
//!
//! The widget shows CPU and memory percentages with one decimal place and
//! gigabyte amounts with two. Values are carried as integers scaled by 10
//! or 100, and these functions render them: `375` becomes `"37.5"` under
//! one decimal place, `1550` becomes `"15.50"` under two.

use vstd::prelude::*;

verus! {

/// The character for a single decimal digit.
pub open spec fn digit_char(d: int) -> char
    recommends
        0 <= d < 10,
{
    if d == 0 {
        '0'
    } else if d == 1 {
        '1'
    } else if d == 2 {
        '2'
    } else if d == 3 {
        '3'
    } else if d == 4 {
        '4'
    } else if d == 5 {
        '5'
    } else if d == 6 {
        '6'
    } else if d == 7 {
        '7'
    } else if d == 8 {
        '8'
    } else {
        '9'
    }
}

/// The decimal representation of a natural number, most significant
/// digit first, with no leading zeros (zero itself is `"0"`).
pub open spec fn dec_rep(n: nat) -> Seq<char>
    decreases n,
{
    if n < 10 {
        seq![digit_char(n as int)]
    } else {
        dec_rep(n / 10) + seq![digit_char((n % 10) as int)]
    }
}

/// The rendering of `v` tenths with one decimal place:
/// the integer part, a dot, and one digit.
pub open spec fn tenths_rep(v: nat) -> Seq<char> {
    dec_rep(v / 10) + seq!['.'] + seq![digit_char((v % 10) as int)]
}

/// The rendering of `v` hundredths with two decimal places:
/// the integer part, a dot, and two digits.
pub open spec fn hundredths_rep(v: nat) -> Seq<char> {
    dec_rep(v / 100) + seq!['.'] + seq![digit_char(((v / 10) % 10) as int)]
        + seq![digit_char((v % 10) as int)]
}

/// The one-character string for a decimal digit.
fn digit_str(d: u64) -> (s: &'static str)
    requires
        d < 10,
    ensures
        s@ == seq![digit_char(d as int)],
{
    proof {
        reveal_strlit("0");
        reveal_strlit("1");
        reveal_strlit("2");
        reveal_strlit("3");
        reveal_strlit("4");
        reveal_strlit("5");
        reveal_strlit("6");
        reveal_strlit("7");
        reveal_strlit("8");
        reveal_strlit("9");
    }
    let s: &'static str = if d == 0 {
        "0"
    } else if d == 1 {
        "1"
    } else if d == 2 {
        "2"
    } else if d == 3 {
        "3"
    } else if d == 4 {
        "4"
    } else if d == 5 {
        "5"
    } else if d == 6 {
        "6"
    } else if d == 7 {
        "7"
    } else if d == 8 {
        "8"
    } else {
        "9"
    };
    proof {
        assert(s@ =~= seq![digit_char(d as int)]);
    }
    s
}

/// Renders a number in decimal, most significant digit first.
pub fn u64_to_string(n: u64) -> (s: String)
    ensures
        s@ == dec_rep(n as nat),
    decreases n,
{
    if n < 10 {
        String::from_str(digit_str(n))
    } else {
        let mut s = u64_to_string(n / 10);
        s.append(digit_str(n % 10));
        proof {
            assert(s@ =~= dec_rep(n as nat));
        }
        s
    }
}

/// Renders `v` tenths with one decimal place: `375` becomes `"37.5"`.
pub fn fmt_tenths(v: u64) -> (s: String)
    ensures
        s@ == tenths_rep(v as nat),
{
    let mut s = u64_to_string(v / 10);
    proof {
        reveal_strlit(".");
        assert("."@ =~= seq!['.']);
    }
    s.append(".");
    s.append(digit_str(v % 10));
    proof {
        assert(s@ =~= tenths_rep(v as nat));
    }
    s
}

/// Renders `v` hundredths with two decimal places: `1550` becomes `"15.50"`.
pub fn fmt_hundredths(v: u64) -> (s: String)
    ensures
        s@ == hundredths_rep(v as nat),
{
    let mut s = u64_to_string(v / 100);
    proof {
        reveal_strlit(".");
        assert("."@ =~= seq!['.']);
    }
    s.append(".");
    s.append(digit_str((v / 10) % 10));
    s.append(digit_str(v % 10));
    proof {
        assert(s@ =~= hundredths_rep(v as nat));
    }
    s
}

} // verus!
