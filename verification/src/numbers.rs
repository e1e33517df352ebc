//! Decimal numerals as the integer types read them.

use vstd::prelude::*;

verus! {

/// Whether `c` is one of the ten decimal digits.
pub open spec fn is_digit(c: char) -> bool {
    '0' <= c && c <= '9'
}

/// The number that a text of digits denotes; zero for the empty text.
pub open spec fn digits_value(s: Seq<char>) -> nat
    decreases s.len(),
{
    if s.len() == 0 {
        0
    } else {
        digits_value(s.drop_last()) * 10 + (s.last() as nat - '0' as nat) as nat
    }
}

/// Whether `s` is one digit or more, and nothing else.
pub open spec fn is_numeral(s: Seq<char>) -> bool {
    s.len() > 0 && forall|i: int| 0 <= i < s.len() ==> is_digit(#[trigger] s[i])
}

/// The number that `s` denotes for an unsigned type: digits, with a plus
/// sign in front or without. No other text denotes a number: not the empty
/// text, not a sign alone, not digits with spaces or underscores.
pub open spec fn unsigned_value(s: Seq<char>) -> Option<nat> {
    let digits = if s.len() > 0 && s[0] == '+' {
        s.skip(1)
    } else {
        s
    };
    if is_numeral(digits) {
        Some(digits_value(digits))
    } else {
        None
    }
}

/// The number that `s` denotes for a signed type: as for an unsigned type,
/// or a minus sign followed by digits.
pub open spec fn signed_value(s: Seq<char>) -> Option<int> {
    if s.len() > 0 && s[0] == '-' {
        if is_numeral(s.skip(1)) {
            Some(-(digits_value(s.skip(1)) as int))
        } else {
            None
        }
    } else {
        match unsigned_value(s) {
            Some(v) => Some(v as int),
            None => None,
        }
    }
}

/// The number that `s` denotes, where it lies between `low` and `high`.
pub open spec fn bounded_value(s: Seq<char>, signed: bool, low: int, high: int) -> Option<int> {
    let value = if signed {
        signed_value(s)
    } else {
        match unsigned_value(s) {
            Some(v) => Some(v as int),
            None => None,
        }
    };
    match value {
        Some(v) => if low <= v <= high {
            Some(v)
        } else {
            None
        },
        None => None,
    }
}

/// `str::parse::<u128>` reads an optional plus sign and decimal digits, and
/// fails on any other text and on a number that `u128` cannot hold.
#[verifier::external_body]
pub(crate) fn parse_u128(s: &str) -> (r: Option<u128>)
    ensures
        r == match bounded_value(s@, false, 0, u128::MAX as int) {
            Some(v) => Some(v as u128),
            None => None,
        },
{
    s.parse::<u128>().ok()
}

/// `str::parse::<i128>` reads an optional plus or minus sign and decimal
/// digits, and fails on any other text and on a number that `i128` cannot hold.
#[verifier::external_body]
pub(crate) fn parse_i128(s: &str) -> (r: Option<i128>)
    ensures
        r == match bounded_value(s@, true, i128::MIN as int, i128::MAX as int) {
            Some(v) => Some(v as i128),
            None => None,
        },
{
    s.parse::<i128>().ok()
}

/// The unsigned number that `s` denotes, where it is at most `max`.
pub fn parse_unsigned(s: &str, max: u128) -> (r: Option<u128>)
    ensures
        r == match bounded_value(s@, false, 0, max as int) {
            Some(v) => Some(v as u128),
            None => None,
        },
{
    match parse_u128(s) {
        Some(v) => if v <= max {
            Some(v)
        } else {
            None
        },
        None => None,
    }
}

/// The signed number that `s` denotes, where it lies between `min` and `max`.
pub fn parse_signed(s: &str, min: i128, max: i128) -> (r: Option<i128>)
    ensures
        r == match bounded_value(s@, true, min as int, max as int) {
            Some(v) => Some(v as i128),
            None => None,
        },
{
    match parse_i128(s) {
        Some(v) => if min <= v && v <= max {
            Some(v)
        } else {
            None
        },
        None => None,
    }
}

} // verus!
