//! The reader as a USB device: finding it, and talking to its endpoint.

use crate::rfid_reader::error::Error;
use crate::rfid_reader::humbleusbdevice::{HumbleUsbDevice, UsbRequest, UsbStep};
use crate::rfid_reader::id::{ProductId, VendorId};
use crate::rfid_reader::usb::handle::UsbHandle;
use crate::rfid_reader::usb::utils::{
    get_device, get_readable_endpoint, Device, DeviceDescriptor, EndPoint, TransferType,
};
use std::time::Duration;
use vstd::prelude::*;

verus! {

/// Whether `result` is what looking for the reader gives: the index of the
/// device that the search for the product of the vendor finds, with the
/// endpoint that the search for an endpoint to read by interrupt transfers
/// finds in it; or the error of the search that failed.
pub open spec fn is_opened(
    devices: Seq<Device>,
    vendor_id: VendorId,
    product_id: ProductId,
    result: Result<(usize, EndPoint), Error>,
) -> bool {
    ||| result is Err && crate::rfid_reader::usb::utils::is_device_found(
        devices,
        vendor_id,
        product_id,
        Err(result->Err_0),
    )
    ||| exists|index: usize, descriptor: DeviceDescriptor|
        {
            &&& #[trigger] crate::rfid_reader::usb::utils::is_device_found(
                devices,
                vendor_id,
                product_id,
                Ok((index, descriptor)),
            )
            &&& crate::rfid_reader::usb::utils::is_endpoint_found(
                devices[index as int],
                descriptor,
                TransferType::Interrupt,
                match result {
                    Ok(opened) => Ok(opened.1),
                    Err(error) => Err(error),
                },
            )
            &&& result is Ok ==> result->Ok_0.0 == index
        }
}

/// Looks among the connected devices for the given product of the given
/// vendor, and in it for the endpoint to read from by interrupt transfers.
/// Returns the index of the device and the addressing of the endpoint.
///
/// Fails as the search for the device fails, and with
/// `ReadableEndPointNotFound` where the device has no such endpoint.
pub fn open(devices: &Vec<Device>, vendor_id: VendorId, product_id: ProductId) -> (result: Result<
    (usize, EndPoint),
    Error,
>)
    ensures
        is_opened(devices@, vendor_id, product_id, result),
{
    match get_device(devices, vendor_id, product_id) {
        Err(error) => Err(error),
        Ok((index, descriptor)) => {
            assert(crate::rfid_reader::usb::utils::is_device_found(
                devices@,
                vendor_id,
                product_id,
                Ok((index, descriptor)),
            ));
            match get_readable_endpoint(&devices[index], &descriptor, TransferType::Interrupt) {
                Err(error) => Err(error),
                Ok(end_point) => Ok((index, end_point)),
            }
        },
    }
}

/// Whether `result` is what is reported of a transfer: its error, or
/// success, however many bytes came.
pub open spec fn is_transfer_outcome(
    transferred: Result<usize, Error>,
    result: Result<(), Error>,
) -> bool {
    match transferred {
        Ok(_) => result is Ok,
        Err(error) => result == Err::<(), Error>(error),
    }
}

/// Reports a transfer, as [`is_transfer_outcome`] says.
pub fn transfer_outcome(transferred: Result<usize, Error>) -> (result: Result<(), Error>)
    ensures
        is_transfer_outcome(transferred, result),
{
    match transferred {
        Ok(_) => Ok(()),
        Err(error) => Err(error),
    }
}

/// An opened device with the endpoint that is read. It remembers whether a
/// kernel driver held the interface when it was opened, and whether it was
/// given back.
pub struct UsbDevice<H: UsbHandle> {
    pub device_handle: H,
    pub endpoint: EndPoint,
    pub timeout: Duration,
    pub kernel_driver_attached: bool,
    pub deinitialized: bool,
    /// The requests made so far to set the device up and to give it back.
    pub requests: Ghost<Seq<UsbRequest>>,
}

impl<H: UsbHandle> UsbDevice<H> {
    /// Whether `result` is what taking over an opened device gives, where
    /// `answer` is what the device said when it was asked whether a kernel
    /// driver holds the interface of the endpoint: the device with that
    /// answer noted, not yet given back, or the error of the answer.
    pub open spec fn is_taken_over(
        device_handle: H,
        endpoint: EndPoint,
        timeout: Duration,
        answer: Result<bool, Error>,
        result: Result<Self, Error>,
    ) -> bool {
        match answer {
            Ok(attached) => {
                &&& result is Ok
                &&& result->Ok_0.device_handle == device_handle
                &&& result->Ok_0.endpoint == endpoint
                &&& result->Ok_0.timeout == timeout
                &&& result->Ok_0.kernel_driver_attached == attached
                &&& !result->Ok_0.deinitialized
                &&& result->Ok_0.requests@ == Seq::<UsbRequest>::empty()
            },
            Err(error) => result is Err && result->Err_0 == error,
        }
    }

    /// Makes the device of an opened handle and of the answer to the
    /// question whether a kernel driver holds the interface, as
    /// [`Self::is_taken_over`] says.
    pub fn take_over(
        device_handle: H,
        endpoint: EndPoint,
        timeout: Duration,
        answer: Result<bool, Error>,
    ) -> (result: Result<Self, Error>)
        ensures
            Self::is_taken_over(device_handle, endpoint, timeout, answer, result),
    {
        match answer {
            Ok(kernel_driver_attached) => Ok(
                UsbDevice {
                    device_handle,
                    endpoint,
                    timeout,
                    kernel_driver_attached,
                    deinitialized: false,
                    requests: Ghost(Seq::empty()),
                },
            ),
            Err(error) => Err(error),
        }
    }

    /// Takes over an opened device, and asks once whether a kernel driver
    /// holds the interface of the endpoint. Whatever the device answers,
    /// the result is what [`Self::is_taken_over`] says of that answer.
    pub fn new(device_handle: H, endpoint: EndPoint, timeout: Duration) -> (result: Result<
        Self,
        Error,
    >)
        ensures
            exists|answer: Result<bool, Error>| #[trigger]
                Self::is_taken_over(device_handle, endpoint, timeout, answer, result),
    {
        let answer = device_handle.kernel_driver_active(endpoint.get_interface());
        Self::take_over(device_handle, endpoint, timeout, answer)
    }
}

impl<H: UsbHandle> HumbleUsbDevice for UsbDevice<H> {
    open spec fn is_deinitialized(&self) -> bool {
        self.deinitialized
    }

    open spec fn attached_kernel_driver(&self) -> Result<bool, Error> {
        Ok(self.kernel_driver_attached)
    }

    open spec fn requests(&self) -> Seq<UsbRequest> {
        self.requests@
    }

    /// What was found when the device was opened. The device is not asked
    /// again.
    fn has_attached_kernel_driver(&self) -> (attached: Result<bool, Error>)
        ensures
            attached == Ok::<bool, Error>(self.kernel_driver_attached),
    {
        Ok(self.kernel_driver_attached)
    }

    fn detach_kernel_driver(&mut self) -> (answer: Result<(), Error>)
        ensures
            final(self).endpoint == old(self).endpoint,
            final(self).timeout == old(self).timeout,
            final(self).kernel_driver_attached == old(self).kernel_driver_attached,
            final(self).deinitialized == old(self).deinitialized,
    {
        let answer = self.device_handle.detach_kernel_driver(self.endpoint.get_interface());
        self.requests = Ghost(
            self.requests@.push(crate::rfid_reader::humbleusbdevice::request(UsbStep::DetachKernelDriver, answer)),
        );
        answer
    }

    fn attach_kernel_driver(&mut self) -> (answer: Result<(), Error>)
        ensures
            final(self).endpoint == old(self).endpoint,
            final(self).timeout == old(self).timeout,
            final(self).kernel_driver_attached == old(self).kernel_driver_attached,
            final(self).deinitialized == old(self).deinitialized,
    {
        let answer = self.device_handle.attach_kernel_driver(self.endpoint.get_interface());
        self.requests = Ghost(
            self.requests@.push(crate::rfid_reader::humbleusbdevice::request(UsbStep::AttachKernelDriver, answer)),
        );
        answer
    }

    /// One interrupt transfer from the endpoint into `buffer`, within the
    /// timeout of the device. Whatever the handle answers, the result is
    /// what [`transfer_outcome`] makes of it.
    fn read(&self, buffer: &mut [u8]) -> (result: Result<(), Error>)
        ensures
            exists|transferred: Result<usize, Error>| #[trigger]
                is_transfer_outcome(transferred, result),
    {
        let transferred = self.device_handle.read_interrupt(
            self.endpoint.get_address(),
            buffer,
            self.timeout,
        );
        transfer_outcome(transferred)
    }

    fn claim_interface(&mut self) -> (answer: Result<(), Error>)
        ensures
            final(self).endpoint == old(self).endpoint,
            final(self).timeout == old(self).timeout,
            final(self).kernel_driver_attached == old(self).kernel_driver_attached,
            final(self).deinitialized == old(self).deinitialized,
    {
        let answer = self.device_handle.claim_interface(self.endpoint.get_interface());
        self.requests = Ghost(
            self.requests@.push(crate::rfid_reader::humbleusbdevice::request(UsbStep::ClaimInterface, answer)),
        );
        answer
    }

    fn release_interface(&mut self) -> (answer: Result<(), Error>)
        ensures
            final(self).endpoint == old(self).endpoint,
            final(self).timeout == old(self).timeout,
            final(self).kernel_driver_attached == old(self).kernel_driver_attached,
            final(self).deinitialized == old(self).deinitialized,
    {
        let answer = self.device_handle.release_interface(self.endpoint.get_interface());
        self.requests = Ghost(
            self.requests@.push(crate::rfid_reader::humbleusbdevice::request(UsbStep::ReleaseInterface, answer)),
        );
        answer
    }

    fn set_active_configuration(&mut self) -> (answer: Result<(), Error>)
        ensures
            final(self).endpoint == old(self).endpoint,
            final(self).timeout == old(self).timeout,
            final(self).kernel_driver_attached == old(self).kernel_driver_attached,
            final(self).deinitialized == old(self).deinitialized,
    {
        let answer = self.device_handle.set_active_configuration(self.endpoint.get_config());
        self.requests = Ghost(
            self.requests@.push(crate::rfid_reader::humbleusbdevice::request(UsbStep::SetActiveConfiguration, answer)),
        );
        answer
    }

    fn set_alternate_setting(&mut self) -> (answer: Result<(), Error>)
        ensures
            final(self).endpoint == old(self).endpoint,
            final(self).timeout == old(self).timeout,
            final(self).kernel_driver_attached == old(self).kernel_driver_attached,
            final(self).deinitialized == old(self).deinitialized,
    {
        let answer = self.device_handle.set_alternate_setting(
            self.endpoint.get_interface(),
            self.endpoint.get_setting(),
        );
        self.requests = Ghost(
            self.requests@.push(crate::rfid_reader::humbleusbdevice::request(UsbStep::SetAlternateSetting, answer)),
        );
        answer
    }

    fn set_deinitialized(&mut self)
        ensures
            final(self).device_handle == old(self).device_handle,
            final(self).endpoint == old(self).endpoint,
            final(self).timeout == old(self).timeout,
            final(self).kernel_driver_attached == old(self).kernel_driver_attached,
    {
        self.deinitialized = true;
    }

    fn deinitialized(&self) -> (given_back: bool) {
        self.deinitialized
    }
}

} // verus!
