//! The keys that a reader can send, and the table from scan codes to keys.

use crate::rfid_reader::error::Error;
use vstd::prelude::*;

verus! {

/// What one scan code means.
#[derive(Debug, PartialEq, Eq, Clone, Copy, Structural)]
pub enum Key {
    Digit(char),
    Enter,
}

/// The table of one kind of reader. It is a function: the same scan code
/// always gives the same key.
pub trait KeyMap {
    /// The key for a scan code, or the error for a code without a key. A key
    /// map that does not say what its table is has one all the same.
    open spec fn key(&self, code: u8) -> Result<Key, Error> {
        crate::unspecified::unspecified((self, code))
    }

    fn map(&self, key: u8) -> (result: Result<Key, Error>)
        ensures
            result == self.key(key),
    ;
}

impl vstd::std_specs::convert::FromSpecImpl<Key> for char {
    open spec fn obeys_from_spec() -> bool {
        true
    }

    open spec fn from_spec(key: Key) -> Self {
        match key {
            Key::Digit(c) => c,
            Key::Enter => 'Z',
        }
    }
}

impl From<Key> for char {
    fn from(key: Key) -> (c: Self) {
        match key {
            Key::Digit(c) => c,
            Key::Enter => 'Z',
        }
    }
}

} // verus!
