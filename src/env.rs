//! The configuration that the framework reads once at start: the retry budget.

use vstd::prelude::*;

verus! {

/// The retry budget used when none is configured, or the configured one is not a number.
pub const DEFAULT_MAX_RETRIES: u8 = 5;

/// Whether a character is an ASCII decimal digit.
pub open spec fn is_decimal_digit(c: char) -> bool {
    '0' <= c && c <= '9'
}

/// The value of a string of decimal digits.
pub open spec fn decimal_value(digits: Seq<char>) -> int
    decreases digits.len(),
{
    if digits.len() == 0 {
        0
    } else {
        decimal_value(digits.drop_last()) * 10 + (digits.last() as u32 - '0' as u32)
    }
}

/// The `u8` that a text denotes: an optional `+` followed by one or more decimal
/// digits whose value is at most 255; any other text denotes none.
pub open spec fn parsed_u8(text: Seq<char>) -> Option<u8> {
    let digits = if text.len() > 0 && text[0] == '+' {
        text.drop_first()
    } else {
        text
    };
    if digits.len() > 0 && (forall|i: int| 0 <= i < digits.len() ==> is_decimal_digit(#[trigger] digits[i]))
        && decimal_value(digits) <= 255 {
        Some(decimal_value(digits) as u8)
    } else {
        None
    }
}

/// Relies on `<u8 as FromStr>::from_str`: an optional `+` followed by decimal
/// digits, with a value that fits, gives that value; any other text is an error.
#[verifier::external_body]
fn parse_u8(text: &str) -> (r: Option<u8>)
    ensures
        r == parsed_u8(text@),
{
    text.parse::<u8>().ok()
}

/// The retry budget configured by `value`, the text of the setting if it is set:
/// the number it denotes, or [`DEFAULT_MAX_RETRIES`] when it is unset or not a
/// number from 0 to 255.
pub fn max_retries_from(value: Option<&str>) -> (r: u8)
    ensures
        r == match value {
            Some(text) => match parsed_u8(text@) {
                Some(n) => n,
                None => DEFAULT_MAX_RETRIES,
            },
            None => DEFAULT_MAX_RETRIES,
        },
{
    match value {
        Some(text) => match parse_u8(text) {
            Some(n) => n,
            None => DEFAULT_MAX_RETRIES,
        },
        None => DEFAULT_MAX_RETRIES,
    }
}

} // verus!
