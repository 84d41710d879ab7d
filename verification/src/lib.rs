//! Control of an RFID card reader that drives a media player.
//!
//! The reader is a USB device that emulates a keyboard: it sends the ten
//! digits of a card as key presses in fixed-size interrupt reports. The
//! modules below decode those reports into an identifier, look the identifier
//! up in a track store and decide what the audio player has to do.
//!
//! Everything that touches hardware is reached through traits
//! ([`rfid_reader::HumbleUsbDevice`], [`media_player::AudioLib`]); the
//! decisions themselves are functions with contracts.

pub mod text;
pub mod unspecified;
pub mod rfid_reader;
pub mod media_player;
pub mod track_store;
pub mod cli_app;
pub mod error;
pub mod rfidmediaplayer;

pub use cli_app::convert_to_id;
pub use error::Error;
pub use rfidmediaplayer::{open, RfidMediaPlayer};
