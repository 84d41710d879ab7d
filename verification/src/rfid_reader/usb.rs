//! What a USB device says of itself, and how the reader is found in it.

pub mod device;
pub mod handle;
pub mod utils;

pub use device::{open, UsbDevice};
pub use handle::UsbHandle;
