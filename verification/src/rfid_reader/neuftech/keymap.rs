//! The scan codes of the Neuftech reader.

use crate::rfid_reader::error::Error;
use crate::rfid_reader::keymap::{Key, KeyMap};
use vstd::prelude::*;

verus! {

/// The table of the Neuftech reader: the scan codes 30 to 38 are the digits
/// 1 to 9, 39 is the digit 0 and 40 is the enter key.
#[derive(Debug)]
pub struct NeuftechKeyMap;

impl KeyMap for NeuftechKeyMap {
    open spec fn key(&self, code: u8) -> Result<Key, Error> {
        if 30 <= code <= 38 {
            Ok(Key::Digit((code + 0x13) as char))
        } else if code == 39 {
            Ok(Key::Digit('0'))
        } else if code == 40 {
            Ok(Key::Enter)
        } else {
            Err(Error::KeyNotExisting(code))
        }
    }

    fn map(&self, key: u8) -> (result: Result<Key, Error>) {
        if 30 <= key && key <= 38 {
            Ok(Key::Digit((key + 0x13) as char))
        } else if key == 39 {
            Ok(Key::Digit('0'))
        } else if key == 40 {
            Ok(Key::Enter)
        } else {
            Err(Error::KeyNotExisting(key))
        }
    }
}

/// Every digit key of the table is a decimal digit, and the digit keys
/// are exactly the scan codes 30 to 39.
pub proof fn lemma_digit_keys(code: u8)
    ensures
        30 <= code <= 39 <==> NeuftechKeyMap.key(code) is Ok && NeuftechKeyMap.key(code)->Ok_0 is Digit,
        30 <= code <= 39 ==> NeuftechKeyMap.key(code)->Ok_0->Digit_0 == crate::text::digit_char(
            (code - 29) % 10,
        ),
{
}

/// Scan codes of digit keys give an identifier of as many decimal digits:
/// the code 39 gives `0`, and the codes from 30 on give `1` to `9`.
pub proof fn lemma_digit_codes_give_digits(raw_data: Seq<u8>)
    requires
        forall|i: int| 0 <= i < raw_data.len() ==> 30 <= #[trigger] raw_data[i] <= 39,
    ensures
        crate::rfid_reader::rfidreader::identifier(NeuftechKeyMap, raw_data) is Ok,
        crate::rfid_reader::rfidreader::identifier(NeuftechKeyMap, raw_data)->Ok_0.len()
            == raw_data.len(),
        forall|i: int|
            0 <= i < raw_data.len() ==> (#[trigger] crate::rfid_reader::rfidreader::identifier(
                NeuftechKeyMap,
                raw_data,
            )->Ok_0[i]) == crate::text::digit_char((raw_data[i] - 29) % 10),
    decreases raw_data.len(),
{
    if raw_data.len() > 0 {
        lemma_digit_codes_give_digits(raw_data.drop_last());
        lemma_digit_keys(raw_data.last());
    }
}

/// A complete identifier of the Neuftech reader is a text of exactly ten
/// decimal digits.
pub proof fn lemma_complete_identifier_has_ten_digits(
    state: crate::rfid_reader::neuftech::usbreader::Accumulated,
)
    requires
        state.well_formed(),
        state.finished,
    ensures
        crate::rfid_reader::rfidreader::identifier(NeuftechKeyMap, state.digits) is Ok,
        crate::rfid_reader::rfidreader::identifier(NeuftechKeyMap, state.digits)->Ok_0.len() == 10,
        forall|i: int|
            0 <= i < 10 ==> '0' <= (#[trigger] crate::rfid_reader::rfidreader::identifier(
                NeuftechKeyMap,
                state.digits,
            )->Ok_0[i]) <= '9',
{
    lemma_digit_codes_give_digits(state.digits);
}

} // verus!
