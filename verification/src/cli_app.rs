//! Reading the numbers that are given on the command line.

use std::num::ParseIntError;
use vstd::prelude::*;

verus! {

/// The error of parsing an integer, as the standard library gives it.
#[verifier::external_type_specification]
#[verifier::external_body]
pub struct ExParseIntError(ParseIntError);

/// The value of a character as a digit in the given radix: `0` to `9`, then
/// the letters in either case from ten on; `None` for any other character
/// and for a digit that the radix does not have.
pub open spec fn digit_value(c: char, radix: nat) -> Option<nat> {
    let value: int = if '0' <= c <= '9' {
        c as int - 48
    } else if 'a' <= c <= 'z' {
        c as int - 87
    } else if 'A' <= c <= 'Z' {
        c as int - 55
    } else {
        36
    };
    if value < radix {
        Some(value as nat)
    } else {
        None
    }
}

/// The number that a row of digits writes, most significant digit first;
/// `None` where a character is no digit.
pub open spec fn digits_value(digits: Seq<char>, radix: nat) -> Option<nat>
    decreases digits.len(),
{
    if digits.len() == 0 {
        Some(0)
    } else {
        match (digits_value(digits.drop_last(), radix), digit_value(digits.last(), radix)) {
            (Some(front), Some(digit)) => Some(front * radix + digit),
            _ => None,
        }
    }
}

/// The number that a text writes: at least one digit, with at most a `+`
/// before the first. Nothing else may stand in the text, no blank either.
pub open spec fn number(text: Seq<char>, radix: nat) -> Option<nat> {
    let digits = if text.len() > 0 && text[0] == '+' {
        text.drop_first()
    } else {
        text
    };
    if digits.len() == 0 {
        None
    } else {
        digits_value(digits, radix)
    }
}

/// The number that a text writes, where it is not above `max`.
pub open spec fn number_up_to(text: Seq<char>, radix: nat, max: nat) -> Option<nat> {
    match number(text, radix) {
        Some(value) => if value <= max {
            Some(value)
        } else {
            None
        },
        None => None,
    }
}

/// The identifier that a text gives: the number it writes in hexadecimal
/// where that is one of 16 bits, else the number it writes in decimal where
/// that is one of 16 bits.
pub open spec fn id_value(text: Seq<char>) -> Option<u16> {
    match number_up_to(text, 16, 0xffff) {
        Some(value) => Some(value as u16),
        None => match number_up_to(text, 10, 0xffff) {
            Some(value) => Some(value as u16),
            None => None,
        },
    }
}

/// The timeout in milliseconds that a text gives: the number it writes in
/// decimal, where that is one of 64 bits and not zero.
pub open spec fn timeout_value(text: Seq<char>) -> Option<u64> {
    match number_up_to(text, 10, 0xffff_ffff_ffff_ffff) {
        Some(value) => if value > 0 {
            Some(value as u64)
        } else {
            None
        },
        None => None,
    }
}

/// `u16::from_str_radix`: succeeds on the texts that write a number of 16
/// bits in the radix, as [`number`] says, with that number, and fails on
/// every other text.
#[verifier::external_body]
fn parse_u16(text: &str, radix: u32) -> (parsed: Result<u16, ParseIntError>)
    requires
        2 <= radix <= 36,
    ensures
        match parsed {
            Ok(value) => number_up_to(text@, radix as nat, 0xffff) == Some(value as nat),
            Err(_) => number_up_to(text@, radix as nat, 0xffff) is None,
        },
{
    u16::from_str_radix(text, radix)
}

/// `u64::from_str_radix`: succeeds on the texts that write a number of 64
/// bits in the radix, as [`number`] says, with that number, and fails on
/// every other text.
#[verifier::external_body]
fn parse_u64(text: &str, radix: u32) -> (parsed: Result<u64, ParseIntError>)
    requires
        2 <= radix <= 36,
    ensures
        match parsed {
            Ok(value) => number_up_to(text@, radix as nat, 0xffff_ffff_ffff_ffff) == Some(
                value as nat,
            ),
            Err(_) => number_up_to(text@, radix as nat, 0xffff_ffff_ffff_ffff) is None,
        },
{
    u64::from_str_radix(text, radix)
}

/// Reads an identifier of 16 bits, first as a hexadecimal and then as a
/// decimal number. Fails where the text is neither, with the error of the
/// decimal reading.
pub fn convert_to_id(id_string: String) -> (result: Result<u16, ParseIntError>)
    ensures
        match result {
            Ok(id) => id_value(id_string@) == Some(id),
            Err(_) => id_value(id_string@) is None,
        },
{
    let conversion_result = parse_u16(id_string.as_str(), 16);
    if conversion_result.is_err() {
        parse_u16(id_string.as_str(), 10)
    } else {
        conversion_result
    }
}

/// Accepts the texts that [`convert_to_id`] can read, and refuses every
/// other with a message for the user.
pub fn validate_id(id_string: String) -> (result: Result<(), String>)
    ensures
        match result {
            Ok(_) => id_value(id_string@) is Some,
            Err(message) => id_value(id_string@) is None && message@
                == "ID value must be a valid hexadecimal or decimal unsigned integer number with at least 16 bits."@,
        },
{
    let conversion_result = convert_to_id(id_string);
    if conversion_result.is_err() {
        return Err(
            "ID value must be a valid hexadecimal or decimal unsigned integer number with at least 16 bits.".to_owned(),
        );
    }
    Ok(())
}

/// Accepts the texts that write a timeout: a decimal number of 64 bits
/// that is not zero. Refuses every other text with a message for the user.
pub fn validate_timeout(timeout_string: String) -> (result: Result<(), String>)
    ensures
        match result {
            Ok(_) => timeout_value(timeout_string@) is Some,
            Err(message) => timeout_value(timeout_string@) is None && message@
                == "Timeout value must be a valid decimal unsigned integer with at least 16 bits."@,
        },
{
    match parse_u64(timeout_string.as_str(), 10) {
        Ok(timeout) if timeout > 0 => Ok(()),
        _ => Err(
            "Timeout value must be a valid decimal unsigned integer with at least 16 bits.".to_owned(),
        ),
    }
}

} // verus!
