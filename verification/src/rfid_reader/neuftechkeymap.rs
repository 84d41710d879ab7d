//! The scan codes of the Neuftech reader, with errors that carry a message.

use crate::rfid_reader::keymap::{Key, KeyMap};
use crate::rfid_reader::keymaperror::KeyMapError;
use vstd::prelude::*;

verus! {

/// The table of the Neuftech reader. It maps as
/// [`crate::rfid_reader::neuftech::NeuftechKeyMap`] does, and says in words
/// which scan code has no key.
#[derive(Debug)]
pub struct NeuftechKeyMap;

impl NeuftechKeyMap {
    pub fn map(&self, key: u8) -> (result: Result<Key, KeyMapError>)
        ensures
            match result {
                Ok(mapped) => crate::rfid_reader::neuftech::keymap::NeuftechKeyMap.key(key) == Ok::<
                    Key,
                    crate::rfid_reader::error::Error,
                >(mapped),
                Err(KeyMapError::KeyNotExisting(message)) => {
                    &&& crate::rfid_reader::neuftech::keymap::NeuftechKeyMap.key(key) is Err
                    &&& message@ == KeyMapError::message_for(key)
                },
            },
    {
        match crate::rfid_reader::neuftech::keymap::NeuftechKeyMap.map(key) {
            Ok(mapped) => Ok(mapped),
            Err(_) => Err(KeyMapError::from_key_not_existing(key)),
        }
    }
}

} // verus!
