//! The error of a key map, with a message for people.

use crate::text::push_decimal;
use vstd::prelude::*;
use vstd::string::StringExecFns;

verus! {

/// A key map has no key for a scan code.
#[derive(Debug, PartialEq)]
pub enum KeyMapError {
    /// Holds the message.
    KeyNotExisting(String),
}

impl KeyMapError {
    /// The message for a scan code without a key.
    pub open spec fn message_for(key: u8) -> Seq<char> {
        "There is no key char for u8 value \""@ + crate::text::decimal(key as nat) + "\"."@
    }

    /// The error for a scan code without a key.
    pub fn from_key_not_existing(key: u8) -> (error: KeyMapError)
        ensures
            error matches KeyMapError::KeyNotExisting(message) && message@ == Self::message_for(
                key,
            ),
    {
        let mut message = String::new();
        message.append("There is no key char for u8 value \"");
        push_decimal(&mut message, key as u64);
        message.append("\".");
        KeyMapError::KeyNotExisting(message)
    }

    /// The message of the error.
    pub fn to_string(&self) -> (text: String)
        ensures
            self matches KeyMapError::KeyNotExisting(message) && text@ == message@,
    {
        match self {
            KeyMapError::KeyNotExisting(message) => message.clone(),
        }
    }
}

} // verus!
