//! The notation of a JSON number: an optional minus sign, an integer part
//! without needless zeros, an optional fraction, an optional exponent.

use vstd::prelude::*;
use crate::ascii::{LOWER_E, MINUS, NINE, PLUS, POINT, UPPER_E, ZERO};

verus! {

/// Whether `byte` is an ASCII digit.
pub open spec fn is_digit(byte: u8) -> bool {
    ZERO <= byte <= NINE
}

/// Where the run of digits that begins at `from` ends.
pub open spec fn digits_end(text: Seq<u8>, from: int) -> int
    decreases text.len() - from,
{
    if 0 <= from < text.len() && is_digit(text[from]) {
        digits_end(text, from + 1)
    } else {
        from
    }
}

/// Where the integer part begins: behind the minus sign, if there is one.
pub open spec fn integer_start(text: Seq<u8>) -> int {
    if text.len() > 0 && text[0] == MINUS {
        1
    } else {
        0
    }
}

/// Where the fraction ends, which begins at `from` with a point; `from`
/// itself where no point stands there.
pub open spec fn fraction_end(text: Seq<u8>, from: int) -> int {
    if 0 <= from < text.len() && text[from] == POINT {
        digits_end(text, from + 1)
    } else {
        from
    }
}

/// Where the digits of the exponent begin, which begins at `from` with the
/// letter e and may have a sign; `from` itself where no such letter stands
/// there.
pub open spec fn exponent_digits(text: Seq<u8>, from: int) -> int {
    if 0 <= from < text.len() && (text[from] == LOWER_E || text[from] == UPPER_E) {
        if from + 1 < text.len() && (text[from + 1] == PLUS || text[from + 1] == MINUS) {
            from + 2
        } else {
            from + 1
        }
    } else {
        from
    }
}

/// Whether `text` is a JSON number.
pub open spec fn is_number_literal(text: Seq<u8>) -> bool {
    let start = integer_start(text);
    let whole = digits_end(text, start);
    let fraction = fraction_end(text, whole);
    let exponent = exponent_digits(text, fraction);
    let end = if exponent > fraction {
        digits_end(text, exponent)
    } else {
        fraction
    };
    &&& whole > start
    &&& (text[start] != ZERO || whole == start + 1)
    &&& (fraction == whole || fraction > whole + 1)
    &&& (exponent == fraction || end > exponent)
    &&& end == text.len()
}

/// Finds where the run of digits that begins at `from` ends.
fn skip_digits(text: &[u8], from: usize) -> (end: usize)
    requires
        from <= text@.len(),
    ensures
        end == digits_end(text@, from as int),
        from <= end <= text@.len(),
{
    let mut end = from;
    while end < text.len() && ZERO <= text[end] && text[end] <= NINE
        invariant
            from <= end <= text@.len(),
            digits_end(text@, from as int) == digits_end(text@, end as int),
        decreases text@.len() - end,
    {
        end += 1;
    }
    end
}

/// Says whether `text` is a JSON number.
pub fn check_number_literal(text: &[u8]) -> (valid: bool)
    ensures
        valid == is_number_literal(text@),
{
    let length = text.len();
    let start: usize = if length > 0 && text[0] == MINUS {
        1
    } else {
        0
    };
    let whole = skip_digits(text, start);
    if whole == start {
        return false;
    }
    if text[start] == ZERO && whole != start + 1 {
        return false;
    }
    let fraction = if whole < length && text[whole] == POINT {
        skip_digits(text, whole + 1)
    } else {
        whole
    };
    if fraction > whole && fraction - whole == 1 {
        return false;
    }
    let exponent = if fraction < length && (text[fraction] == LOWER_E || text[fraction] == UPPER_E) {
        if fraction + 1 < length && (text[fraction + 1] == PLUS || text[fraction + 1] == MINUS) {
            fraction + 2
        } else {
            fraction + 1
        }
    } else {
        fraction
    };
    let end = if exponent > fraction {
        skip_digits(text, exponent)
    } else {
        fraction
    };
    if exponent > fraction && end == exponent {
        return false;
    }
    end == length
}

} // verus!
