//! From the scan codes of a card to its identifier.

use crate::rfid_reader::error::Error;
use crate::rfid_reader::keymap::{Key, KeyMap};
use crate::rfid_reader::usbreader::UsbReader;
use vstd::prelude::*;

verus! {

/// A reader of RFID cards.
pub trait RfidReader {
    /// Blocks until a card was read, and returns its identifier.
    ///
    /// The error `Timeout` is not fatal: it says that no card came in time,
    /// and the read can be made again.
    fn read(&self) -> Result<String, Error>;

    /// Whether the USB device of the reader is recorded as given back.
    open spec fn is_deinitialized(&self) -> bool {
        crate::unspecified::unspecified(self)
    }

    /// Gives the USB device of the reader back, which can fail. After
    /// success the device is recorded as given back; after a failure the
    /// record is as it was.
    fn deinitialize(&mut self) -> (result: Result<(), Error>)
        ensures
            result is Ok ==> final(self).is_deinitialized(),
            result is Err ==> final(self).is_deinitialized() == old(self).is_deinitialized(),
    ;
}

/// The identifier that a key map makes of scan codes: the characters of the
/// digit keys, in order. The enter key adds nothing. The first scan code
/// without a key gives its error.
pub open spec fn identifier<K: KeyMap>(key_map: K, raw_data: Seq<u8>) -> Result<Seq<char>, Error>
    decreases raw_data.len(),
{
    if raw_data.len() == 0 {
        Ok(Seq::empty())
    } else {
        match identifier(key_map, raw_data.drop_last()) {
            Err(error) => Err(error),
            Ok(text) => match key_map.key(raw_data.last()) {
                Err(error) => Err(error),
                Ok(Key::Digit(c)) => Ok(text.push(c)),
                Ok(Key::Enter) => Ok(text),
            },
        }
    }
}

/// An error among the first scan codes is the error of the whole.
pub proof fn lemma_first_error_wins<K: KeyMap>(key_map: K, raw_data: Seq<u8>, length: int)
    requires
        0 <= length <= raw_data.len(),
        identifier(key_map, raw_data.take(length)) is Err,
    ensures
        identifier(key_map, raw_data) == identifier(key_map, raw_data.take(length)),
    decreases raw_data.len() - length,
{
    if length < raw_data.len() {
        assert(raw_data.take(length + 1).drop_last() == raw_data.take(length));
        lemma_first_error_wins(key_map, raw_data, length + 1);
    } else {
        assert(raw_data.take(length) == raw_data);
    }
}

/// A reader made of a USB reader, which gives scan codes, and the key map
/// that reads them.
#[derive(Debug)]
pub struct GenericRfidReader<K: KeyMap, U: UsbReader> {
    pub keymap: K,
    pub usbreader: U,
}

impl<K: KeyMap, U: UsbReader> GenericRfidReader<K, U> {
    pub fn from(key_map: K, usb_reader: U) -> (reader: GenericRfidReader<K, U>)
        ensures
            reader.keymap == key_map,
            reader.usbreader == usb_reader,
    {
        GenericRfidReader { keymap: key_map, usbreader: usb_reader }
    }

    /// Makes the identifier of scan codes, as [`identifier`] says.
    pub fn translate(&self, raw_data: &[u8]) -> (result: Result<String, Error>)
        ensures
            match result {
                Ok(text) => identifier(self.keymap, raw_data@) == Ok::<Seq<char>, Error>(text@),
                Err(error) => identifier(self.keymap, raw_data@) == Err::<Seq<char>, Error>(
                    error,
                ),
            },
    {
        let mut rfid_value = String::new();
        let mut next: usize = 0;
        while next < raw_data.len()
            invariant
                next <= raw_data@.len(),
                identifier(self.keymap, raw_data@.take(next as int)) == Ok::<Seq<char>, Error>(
                    rfid_value@,
                ),
            decreases raw_data@.len() - next,
        {
            proof {
                assert(raw_data@.take(next + 1).drop_last() == raw_data@.take(next as int));
            }
            match self.keymap.map(raw_data[next]) {
                Err(error) => {
                    proof {
                        lemma_first_error_wins(self.keymap, raw_data@, next + 1);
                    }
                    return Err(error);
                },
                Ok(Key::Digit(c)) => {
                    rfid_value.push(c);
                },
                Ok(Key::Enter) => {},
            }
            next += 1;
        }
        proof {
            assert(raw_data@.take(next as int) == raw_data@);
        }
        Ok(rfid_value)
    }
}

/// Whether `result` is what a key map makes of a read of the USB reader: of
/// its scan codes their identifier, as [`identifier`] says, and of its error
/// that error.
pub open spec fn is_translated<K: KeyMap>(
    key_map: K,
    read_result: Result<Seq<u8>, Error>,
    result: Result<String, Error>,
) -> bool {
    match read_result {
        Err(error) => result is Err && result->Err_0 == error,
        Ok(raw_data) => match result {
            Ok(text) => identifier(key_map, raw_data) == Ok::<Seq<char>, Error>(text@),
            Err(error) => identifier(key_map, raw_data) == Err::<Seq<char>, Error>(error),
        },
    }
}

impl<K: KeyMap, U: UsbReader> GenericRfidReader<K, U> {
    /// Makes the identifier of what the USB reader gave, as
    /// [`is_translated`] says.
    pub fn translated(&self, read_result: Result<Box<[u8]>, Error>) -> (result: Result<
        String,
        Error,
    >)
        ensures
            is_translated(
                self.keymap,
                match read_result {
                    Ok(raw_data) => Ok(raw_data@),
                    Err(error) => Err(error),
                },
                result,
            ),
    {
        match read_result {
            Ok(raw_data) => self.translate(&raw_data),
            Err(error) => Err(error),
        }
    }
}

impl<K: KeyMap, U: UsbReader> RfidReader for GenericRfidReader<K, U> {
    open spec fn is_deinitialized(&self) -> bool {
        self.usbreader.is_deinitialized()
    }

    /// Reads the scan codes of a card and makes its identifier. Whatever
    /// the USB reader gives, the result is what [`is_translated`] says of it.
    fn read(&self) -> (result: Result<String, Error>)
        ensures
            exists|read_result: Result<Seq<u8>, Error>| #[trigger]
                is_translated(self.keymap, read_result, result),
    {
        let read_result = self.usbreader.read();
        self.translated(read_result)
    }

    /// Asks the USB reader to give its device back, and returns its answer.
    /// The key map stays as it is.
    fn deinitialize(&mut self) -> (result: Result<(), Error>)
        ensures
            final(self).keymap == old(self).keymap,
    {
        self.usbreader.deinitialize()
    }
}

/// Makes a reader of a key map and a USB reader.
pub fn from<K: KeyMap, U: UsbReader>(key_map: K, usb_reader: U) -> (reader: GenericRfidReader<K, U>)
    ensures
        reader.keymap == key_map,
            reader.usbreader == usb_reader,
{
    GenericRfidReader::from(key_map, usb_reader)
}

} // verus!
