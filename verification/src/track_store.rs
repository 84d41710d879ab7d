//! The table from the identifiers of cards to the paths of tracks.

pub mod error;
pub mod id;
pub mod trackpath;
pub mod trackstore;

pub use error::Error;
pub use id::Id;
pub use trackpath::TrackPath;
pub use trackstore::{load, TrackStore};
