//! Building the texts that identifiers and errors are shown as.

use vstd::prelude::*;
use vstd::string::StringExecFns;

verus! {

/// The character for the digit `d` of a number written in lower case, for
/// `0 <= d < 16`.
pub open spec fn digit_char(d: int) -> char {
    if d < 10 {
        (48 + d) as char
    } else {
        (87 + d) as char
    }
}

/// The decimal numeral of `n`, without leading zeros.
pub open spec fn decimal(n: nat) -> Seq<char>
    decreases n,
{
    if n < 10 {
        seq![digit_char(n as int)]
    } else {
        decimal(n / 10).push(digit_char((n % 10) as int))
    }
}

/// The numeral of `n` as `0x` followed by exactly four hexadecimal digits.
pub open spec fn hexadecimal(n: u16) -> Seq<char> {
    seq![
        '0',
        'x',
        digit_char(n as int / 4096),
        digit_char(n as int / 256 % 16),
        digit_char(n as int / 16 % 16),
        digit_char(n as int % 16),
    ]
}

/// What `{:?}` writes for a string: the text between double quotes, with the
/// characters that need it escaped.
pub uninterp spec fn debug_quoted(text: Seq<char>) -> Seq<char>;

/// `String::push` appends one character.
pub assume_specification[ String::push ](text: &mut String, ch: char)
    ensures
        final(text)@ == old(text)@.push(ch),
;

/// Formats a string with `{:?}`, the `Debug` implementation of `str`.
/// Nothing is claimed of the result but that it depends on the text alone.
#[verifier::external_body]
pub(crate) fn debug_quote(text: &str) -> (quoted: String)
    ensures
        quoted@ == debug_quoted(text@),
{
    format!("{:?}", text)
}

fn digit(d: u8) -> (c: char)
    requires
        d < 16,
    ensures
        c == digit_char(d as int),
{
    if d < 10 {
        (48 + d) as char
    } else {
        (87 + d) as char
    }
}

/// Appends the decimal numeral of `n`.
pub fn push_decimal(text: &mut String, n: u64)
    ensures
        final(text)@ == old(text)@ + decimal(n as nat),
    decreases n,
{
    if n >= 10 {
        push_decimal(text, n / 10);
    }
    text.push(digit((n % 10) as u8));
}

/// Appends `0x` and the four hexadecimal digits of `n`.
pub fn push_hexadecimal(text: &mut String, n: u16)
    ensures
        final(text)@ == old(text)@ + hexadecimal(n),
{
    text.push('0');
    text.push('x');
    text.push(digit((n / 4096) as u8));
    text.push(digit((n / 256 % 16) as u8));
    text.push(digit((n / 16 % 16) as u8));
    text.push(digit((n % 16) as u8));
}

/// Appends `piece` between double quotes, as `{:?}` writes it.
pub fn push_quoted(text: &mut String, piece: &str)
    ensures
        final(text)@ == old(text)@ + debug_quoted(piece@),
{
    let quoted = debug_quote(piece);
    text.append(quoted.as_str());
}

} // verus!
