//! What can go wrong between the USB device and the identifier.

use crate::rfid_reader::id::{ProductId, VendorId};
use crate::text::{push_decimal, push_quoted};
use vstd::prelude::*;
use vstd::string::StringExecFns;

verus! {

/// The errors of the RFID reader.
#[derive(Debug, PartialEq)]
pub enum Error {
    /// No device with this vendor and product is connected.
    DeviceNotFound(VendorId, ProductId),
    /// Nothing arrived within the timeout. Not fatal: read again.
    Timeout,
    /// The rights to open or claim the device are missing.
    Access,
    /// The device has no endpoint that can be read in the wanted way.
    ReadableEndPointNotFound(VendorId, ProductId),
    /// A report held a scan code that no key of the reader sends.
    InvalidData(u8),
    /// A report was shorter than three bytes; holds its length.
    TooFewReceivedData(usize),
    /// The key map has no key for this scan code.
    KeyNotExisting(u8),
    /// Any other failure of the USB transport, with its message.
    OtherUsbError(String),
}

/// The ways in which a request to a USB device can fail.
#[derive(Debug, PartialEq, Eq, Clone, Copy)]
pub enum UsbFailure {
    /// Input or output failed.
    Io,
    /// A parameter was not valid.
    InvalidParam,
    /// Permission was denied.
    Access,
    /// The device is gone.
    NoDevice,
    /// What was asked for does not exist.
    NotFound,
    /// The resource is busy.
    Busy,
    /// The request timed out.
    Timeout,
    /// More data came than there was room for.
    Overflow,
    /// The pipe failed.
    Pipe,
    /// A signal interrupted the request.
    Interrupted,
    /// Memory ran out.
    NoMem,
    /// The platform does not support the request.
    NotSupported,
    /// The device sent a descriptor that is not well formed.
    BadDescriptor,
    /// Anything else.
    Other,
}

impl Clone for Error {
    fn clone(&self) -> (copy: Self)
        ensures
            copy == *self,
    {
        match self {
            Error::DeviceNotFound(vendor_id, product_id) => Error::DeviceNotFound(
                *vendor_id,
                *product_id,
            ),
            Error::Timeout => Error::Timeout,
            Error::Access => Error::Access,
            Error::ReadableEndPointNotFound(vendor_id, product_id) => {
                Error::ReadableEndPointNotFound(*vendor_id, *product_id)
            },
            Error::InvalidData(value) => Error::InvalidData(*value),
            Error::TooFewReceivedData(length) => Error::TooFewReceivedData(*length),
            Error::KeyNotExisting(key) => Error::KeyNotExisting(*key),
            Error::OtherUsbError(message) => Error::OtherUsbError(message.clone()),
        }
    }
}

impl Error {
    /// The error that stands for a failed USB transfer: a timeout and a
    /// denied access keep their kind, every other failure keeps its message.
    pub open spec fn of_usb_failure(failure: UsbFailure, message: String) -> Error {
        match failure {
            UsbFailure::Timeout => Error::Timeout,
            UsbFailure::Access => Error::Access,
            _ => Error::OtherUsbError(message),
        }
    }

    pub fn from_usb_failure(failure: UsbFailure, message: String) -> (error: Error)
        ensures
            error == Self::of_usb_failure(failure, message),
    {
        match failure {
            UsbFailure::Timeout => Error::Timeout,
            UsbFailure::Access => Error::Access,
            _ => Error::OtherUsbError(message),
        }
    }

    /// Whether this is the one error that a caller recovers from by reading
    /// again.
    pub fn is_timeout(&self) -> (timeout: bool)
        ensures
            timeout == (*self is Timeout),
    {
        match self {
            Error::Timeout => true,
            _ => false,
        }
    }

    /// The text of the error: the name of its kind and, in brackets, what it
    /// carries.
    pub open spec fn rendering(self) -> Seq<char> {
        match self {
            Error::DeviceNotFound(vendor_id, product_id) => "DeviceNotFound("@
                + vendor_id.rendering() + ", "@ + product_id.rendering() + ")"@,
            Error::Timeout => "Timeout"@,
            Error::Access => "Access"@,
            Error::ReadableEndPointNotFound(vendor_id, product_id) => "ReadableEndPointNotFound("@
                + vendor_id.rendering() + ", "@ + product_id.rendering() + ")"@,
            Error::InvalidData(value) => "InvalidData("@ + crate::text::decimal(value as nat) + ")"@,
            Error::TooFewReceivedData(length) => "TooFewReceivedData("@ + crate::text::decimal(length as nat)
                + ")"@,
            Error::KeyNotExisting(key) => "KeyNotExisting("@ + crate::text::decimal(key as nat) + ")"@,
            Error::OtherUsbError(message) => "OtherUsbError("@ + crate::text::debug_quoted(message@) + ")"@,
        }
    }

    pub fn to_string(&self) -> (text: String)
        ensures
            text@ == self.rendering(),
    {
        let mut text = String::new();
        match self {
            Error::DeviceNotFound(vendor_id, product_id) => {
                text.append("DeviceNotFound(");
                vendor_id.render_into(&mut text);
                text.append(", ");
                product_id.render_into(&mut text);
                text.append(")");
            },
            Error::Timeout => {
                text.append("Timeout");
            },
            Error::Access => {
                text.append("Access");
            },
            Error::ReadableEndPointNotFound(vendor_id, product_id) => {
                text.append("ReadableEndPointNotFound(");
                vendor_id.render_into(&mut text);
                text.append(", ");
                product_id.render_into(&mut text);
                text.append(")");
            },
            Error::InvalidData(value) => {
                text.append("InvalidData(");
                push_decimal(&mut text, *value as u64);
                text.append(")");
            },
            Error::TooFewReceivedData(length) => {
                text.append("TooFewReceivedData(");
                push_decimal(&mut text, *length as u64);
                text.append(")");
            },
            Error::KeyNotExisting(key) => {
                text.append("KeyNotExisting(");
                push_decimal(&mut text, *key as u64);
                text.append(")");
            },
            Error::OtherUsbError(message) => {
                text.append("OtherUsbError(");
                push_quoted(&mut text, message.as_str());
                text.append(")");
            },
        }
        text
    }
}

} // verus!
