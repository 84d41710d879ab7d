//! The handle of an opened USB device.

use crate::rfid_reader::error::Error;
use std::time::Duration;
use vstd::prelude::*;

verus! {

/// What the USB stack offers for an opened device. Interfaces,
/// configurations, settings and endpoints are named by their numbers.
pub trait UsbHandle {
    /// Whether a kernel driver holds the interface.
    fn kernel_driver_active(&self, iface: u8) -> Result<bool, Error>;

    fn detach_kernel_driver(&mut self, iface: u8) -> Result<(), Error>;

    fn attach_kernel_driver(&mut self, iface: u8) -> Result<(), Error>;

    /// One interrupt transfer from the endpoint into `buf`, which waits for
    /// the device no longer than `timeout`. Returns the number of bytes that
    /// came.
    fn read_interrupt(&self, endpoint: u8, buf: &mut [u8], timeout: Duration) -> Result<
        usize,
        Error,
    >;

    fn claim_interface(&mut self, iface: u8) -> Result<(), Error>;

    fn release_interface(&mut self, iface: u8) -> Result<(), Error>;

    fn set_active_configuration(&mut self, config: u8) -> Result<(), Error>;

    fn set_alternate_setting(&mut self, iface: u8, setting: u8) -> Result<(), Error>;
}

} // verus!
