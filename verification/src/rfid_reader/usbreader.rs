//! The reader as a source of raw identifiers.

use crate::rfid_reader::error::Error;
use vstd::prelude::*;

verus! {

/// A reader that hands out the scan codes of one card at a time.
pub trait UsbReader {
    /// Whether the USB device of the reader is recorded as given back.
    open spec fn is_deinitialized(&self) -> bool {
        crate::unspecified::unspecified(self)
    }

    /// Blocks until the scan codes of a card are complete, and returns them.
    fn read(&self) -> Result<Box<[u8]>, Error>;

    /// Gives the USB device of the reader back. After success the device is
    /// recorded as given back; after a failure the record is as it was.
    fn deinitialize(&mut self) -> (result: Result<(), Error>)
        ensures
            result is Ok ==> final(self).is_deinitialized(),
            result is Err ==> final(self).is_deinitialized() == old(self).is_deinitialized(),
    ;
}

} // verus!
