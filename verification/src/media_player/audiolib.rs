//! What the media player needs of an audio library.

use crate::media_player::error::Error;
use crate::media_player::track::Track;
use vstd::prelude::*;

verus! {

/// An audio library that plays one track at a time.
pub trait AudioLib {
    /// Starts to play the track.
    fn play(&self, track: &Track) -> Result<(), Error>;

    /// Stops what is playing.
    fn stop(&mut self) -> Result<(), Error>;

    /// Whether a track is playing and has not come to its end.
    fn is_playing(&self) -> bool;
}

} // verus!
