//! Decimal rendering of integers, used for bound query parameters and for
//! zero-padded timestamp fields.

use vstd::prelude::*;
use vstd::string::StringExecFns;

verus! {

/// The decimal digit character for `d` (meaningful for `0 <= d <= 9`).
pub open spec fn dec_digit(d: int) -> char {
    ((d + 0x30) as u8) as char
}

/// The decimal digits of a non-negative number, most significant first.
pub open spec fn dec_str(n: int) -> Seq<char>
    decreases n,
{
    if n < 10 {
        seq![dec_digit(n)]
    } else {
        dec_str(n / 10).push(dec_digit(n % 10))
    }
}

/// The decimal rendering of a signed number: a minus sign before the
/// magnitude where it is negative.
pub open spec fn dec_str_signed(n: int) -> Seq<char> {
    if n < 0 {
        seq!['-'] + dec_str(-n)
    } else {
        dec_str(n)
    }
}

/// The last `width` decimal digits of `n`, zero-padded.
pub open spec fn dec_pad(n: int, width: nat) -> Seq<char>
    decreases width,
{
    if width == 0 {
        Seq::empty()
    } else {
        dec_pad(n / 10, (width - 1) as nat).push(dec_digit(n % 10))
    }
}

/// The one-character string for a decimal digit.
fn digit_str(d: u8) -> (r: &'static str)
    requires
        d < 10,
    ensures
        r@ =~= seq![dec_digit(d as int)],
{
    proof {
        reveal_strlit("0");
        reveal_strlit("1");
        reveal_strlit("2");
        reveal_strlit("3");
        reveal_strlit("4");
        reveal_strlit("5");
        reveal_strlit("6");
        reveal_strlit("7");
        reveal_strlit("8");
        reveal_strlit("9");
    }
    match d {
        0 => "0",
        1 => "1",
        2 => "2",
        3 => "3",
        4 => "4",
        5 => "5",
        6 => "6",
        7 => "7",
        8 => "8",
        _ => "9",
    }
}

/// Renders a non-negative number in decimal.
pub fn u64_to_string(n: u64) -> (r: String)
    ensures
        r@ == dec_str(n as int),
    decreases n,
{
    let d = digit_str((n % 10) as u8);
    if n < 10 {
        let r = d.to_owned();
        proof {
            assert(r@ =~= dec_str(n as int));
        }
        r
    } else {
        let mut r = u64_to_string(n / 10);
        r.append(d);
        proof {
            assert(r@ =~= dec_str(n as int));
        }
        r
    }
}

/// Renders a signed number in decimal, with a minus sign where negative.
pub fn i64_to_string(n: i64) -> (r: String)
    ensures
        r@ == dec_str_signed(n as int),
{
    if n >= 0 {
        u64_to_string(n as u64)
    } else {
        let mag: u64 = (-(n as i128)) as u64;
        let mut r = String::from_str("-");
        let digits = u64_to_string(mag);
        r.append(digits.as_str());
        proof {
            reveal_strlit("-");
            assert("-"@ =~= seq!['-']);
            assert(r@ =~= dec_str_signed(n as int));
        }
        r
    }
}

/// Renders the last `width` decimal digits of `n`, zero-padded.
pub fn dec_pad_string(n: u64, width: u8) -> (r: String)
    ensures
        r@ == dec_pad(n as int, width as nat),
    decreases width,
{
    if width == 0 {
        let r = String::new();
        proof {
            assert(r@ =~= dec_pad(n as int, 0));
        }
        r
    } else {
        let mut r = dec_pad_string(n / 10, width - 1);
        r.append(digit_str((n % 10) as u8));
        proof {
            assert(r@ =~= dec_pad(n as int, width as nat));
        }
        r
    }
}

} // verus!
