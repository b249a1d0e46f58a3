//! Decimal rendering of cent amounts.
//!
//! All currency values are carried as whole cents. A two-decimal
//! rendering writes the dollars, a dot and two zero-padded cent digits;
//! a zero-decimal rendering rounds to whole dollars with ties going to
//! the even dollar amount.

use vstd::prelude::*;
use vstd::string::StrSliceExecFns;
use vstd::string::StringExecFns;

verus! {

/// The character for one decimal digit.
pub open spec fn digit_char(d: nat) -> char
    recommends
        d < 10,
{
    if d == 0 {
        '0'
    } else if d == 1 {
        '1'
    } else if d == 2 {
        '2'
    } else if d == 3 {
        '3'
    } else if d == 4 {
        '4'
    } else if d == 5 {
        '5'
    } else if d == 6 {
        '6'
    } else if d == 7 {
        '7'
    } else if d == 8 {
        '8'
    } else {
        '9'
    }
}

/// The decimal digits of n, most significant first, with no leading
/// zeros except for n == 0 itself.
pub open spec fn dec_digits(n: nat) -> Seq<char>
    decreases n,
{
    if n < 10 {
        seq![digit_char(n)]
    } else {
        dec_digits(n / 10) + seq![digit_char(n % 10)]
    }
}

/// A cent amount rendered as dollars with two decimals: "D.CC".
pub open spec fn dollars_2dp(cents: nat) -> Seq<char> {
    dec_digits(cents / 100) + seq!['.', digit_char((cents % 100) / 10), digit_char(cents % 10)]
}

/// A cent amount rounded to whole dollars, ties to the even dollar.
pub open spec fn rounded_dollars(cents: nat) -> nat {
    let q: nat = cents / 100;
    let r: nat = cents % 100;
    if r > 50 {
        q + 1
    } else if r < 50 {
        q
    } else if q % 2 == 0 {
        q
    } else {
        q + 1
    }
}

/// A cent amount rendered as whole dollars, rounded with ties to even.
pub open spec fn dollars_0dp(cents: nat) -> Seq<char> {
    dec_digits(rounded_dollars(cents))
}

/// The one-character string for a decimal digit.
fn digit_str(d: u64) -> (r: &'static str)
    requires
        d < 10,
    ensures
        r@ == seq![digit_char(d as nat)],
{
    proof {
        reveal_strlit("0");
        reveal_strlit("1");
        reveal_strlit("2");
        reveal_strlit("3");
        reveal_strlit("4");
        reveal_strlit("5");
        reveal_strlit("6");
        reveal_strlit("7");
        reveal_strlit("8");
        reveal_strlit("9");
    }
    let r = if d == 0 {
        "0"
    } else if d == 1 {
        "1"
    } else if d == 2 {
        "2"
    } else if d == 3 {
        "3"
    } else if d == 4 {
        "4"
    } else if d == 5 {
        "5"
    } else if d == 6 {
        "6"
    } else if d == 7 {
        "7"
    } else if d == 8 {
        "8"
    } else {
        "9"
    };
    proof {
        assert(r@ =~= seq![digit_char(d as nat)]);
    }
    r
}

/// The decimal digits of n as a string.
pub fn u64_to_string(n: u64) -> (s: String)
    ensures
        s@ == dec_digits(n as nat),
    decreases n,
{
    let d = digit_str(n % 10);
    if n < 10 {
        let s = d.to_owned();
        proof {
            assert(s@ =~= dec_digits(n as nat));
        }
        s
    } else {
        let mut s = u64_to_string(n / 10);
        s.append(d);
        proof {
            assert(s@ =~= dec_digits(n as nat));
        }
        s
    }
}

/// A cent amount as dollars with two decimals, e.g. 500 -> "5.00".
pub fn format_dollars_2dp(cents: u64) -> (s: String)
    ensures
        s@ == dollars_2dp(cents as nat),
{
    let q: u64 = cents / 100;
    let r: u64 = cents % 100;
    let mut s = u64_to_string(q);
    s.append(".");
    s.append(digit_str(r / 10));
    s.append(digit_str(cents % 10));
    proof {
        reveal_strlit(".");
        assert("."@ =~= seq!['.']);
        assert(s@ =~= dollars_2dp(cents as nat));
    }
    s
}

/// A cent amount as whole dollars, rounded with ties to even,
/// e.g. 1000 -> "10", 1150 -> "12".
pub fn format_dollars_0dp(cents: u64) -> (s: String)
    ensures
        s@ == dollars_0dp(cents as nat),
{
    let q = cents / 100;
    let r = cents % 100;
    proof {
        vstd::arithmetic::div_mod::lemma_div_is_ordered(
            cents as int,
            u64::MAX as int,
            100,
        );
        assert(u64::MAX as int / 100 < u64::MAX as int);
    }
    let rounded: u64 = if r > 50 {
        q + 1
    } else if r < 50 {
        q
    } else if q % 2 == 0 {
        q
    } else {
        q + 1
    };
    u64_to_string(rounded)
}

} // verus!
