//! The RFID reader: a USB device that types the digits of a card.

pub mod error;
pub mod humbleusbdevice;
pub mod id;
pub mod keymap;
pub mod keymaperror;
pub mod neuftech;
pub mod neuftechkeymap;
pub mod rfidreader;
pub mod usb;
pub mod usbreader;

pub use error::Error;
pub use humbleusbdevice::HumbleUsbDevice;
pub use id::{ProductId, VendorId};
pub use rfidreader::RfidReader;
