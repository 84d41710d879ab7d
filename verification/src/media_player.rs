//! Playing tracks, one at a time.

pub mod audiolib;
pub mod error;
pub mod mediaplayer;
pub mod track;

pub use audiolib::AudioLib;
pub use error::Error;
pub use mediaplayer::{open, MediaPlayer};
pub use track::Track;
