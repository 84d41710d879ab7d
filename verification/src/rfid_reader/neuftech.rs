//! The reader sold under the name Neuftech.

pub mod keymap;
pub mod usbreader;

pub use keymap::NeuftechKeyMap;
pub use usbreader::{new, NeuftechUsbReader, RawDataInterpretation, RawDataInterpreter, ReadStep};
