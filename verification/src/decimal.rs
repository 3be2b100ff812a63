//! Decimal notation of integers, as ASCII bytes.

use vstd::prelude::*;
use crate::ascii::{MINUS, ZERO};
use vstd::string::StringExecFns;

verus! {

/// The ASCII digit for `d`, which is below ten.
pub open spec fn digit(d: int) -> u8 {
    (ZERO + d) as u8
}

/// The decimal digits of a natural number, most significant first.
pub open spec fn digits(n: nat) -> Seq<u8>
    decreases n,
{
    if n < 10 {
        seq![digit(n as int)]
    } else {
        digits(n / 10).push(digit((n % 10) as int))
    }
}

/// The decimal notation of an integer: a minus sign for a negative one, then
/// the digits of its magnitude.
pub open spec fn decimal(i: int) -> Seq<u8> {
    if i < 0 {
        seq![MINUS] + digits((-i) as nat)
    } else {
        digits(i as nat)
    }
}

/// Appends the decimal digits of `n` to `out`.
fn push_digits(out: &mut Vec<u8>, n: u64)
    ensures
        final(out)@ == old(out)@ + digits(n as nat),
    decreases n,
{
    if n >= 10 {
        push_digits(out, n / 10);
    }
    out.push(ZERO + (n % 10) as u8);
}

/// Appends the decimal notation of `i` to `out`.
pub fn push_decimal(out: &mut Vec<u8>, i: i64)
    ensures
        final(out)@ == old(out)@ + decimal(i as int),
{
    if i < 0 {
        out.push(MINUS);
        // The magnitude of the least value does not fit the signed type.
        let magnitude: u64 = (-(i + 1)) as u64 + 1;
        push_digits(out, magnitude);
    } else {
        push_digits(out, i as u64);
    }
}

/// The decimal notation of an integer as characters.
pub open spec fn decimal_text(i: int) -> Seq<char> {
    decimal(i).map_values(|byte: u8| byte as char)
}

/// The digit `d`, which is below ten, as a string.
fn digit_text(d: u64) -> (text: &'static str)
    requires
        d < 10,
    ensures
        text@ == seq![digit(d as int) as char],
{
    proof {
        reveal_strlit("0");
        reveal_strlit("1");
        reveal_strlit("2");
        reveal_strlit("3");
        reveal_strlit("4");
        reveal_strlit("5");
        reveal_strlit("6");
        reveal_strlit("7");
        reveal_strlit("8");
        reveal_strlit("9");
    }
    let text = if d == 0 {
        "0"
    } else if d == 1 {
        "1"
    } else if d == 2 {
        "2"
    } else if d == 3 {
        "3"
    } else if d == 4 {
        "4"
    } else if d == 5 {
        "5"
    } else if d == 6 {
        "6"
    } else if d == 7 {
        "7"
    } else if d == 8 {
        "8"
    } else {
        "9"
    };
    text
}

/// Appends the decimal digits of `n` to `text`.
fn append_digits(text: &mut String, n: u64)
    ensures
        final(text)@ == old(text)@ + digits(n as nat).map_values(|byte: u8| byte as char),
    decreases n,
{
    if n >= 10 {
        append_digits(text, n / 10);
    }
    text.append(digit_text(n % 10));
    proof {
        if n >= 10 {
            let as_char = |byte: u8| byte as char;
            let head = digits((n / 10) as nat);
            assert(digits(n as nat).map_values(as_char) =~= head.map_values(as_char) + seq![
                digit((n % 10) as int) as char,
            ]);
        }
    }
}

/// Appends the decimal notation of the natural number `n` to `text`.
pub fn append_natural(text: &mut String, n: u64)
    ensures
        final(text)@ == old(text)@ + decimal_text(n as int),
{
    append_digits(text, n);
}

/// Appends the decimal notation of `i` to `text`.
pub fn append_decimal(text: &mut String, i: i64)
    ensures
        final(text)@ == old(text)@ + decimal_text(i as int),
{
    if i < 0 {
        proof {
            reveal_strlit("-");
        }
        text.append("-");
        // The magnitude of the least value does not fit the signed type.
        let magnitude: u64 = (-(i + 1)) as u64 + 1;
        append_digits(text, magnitude);
    } else {
        append_digits(text, i as u64);
    }
}

} // verus!
