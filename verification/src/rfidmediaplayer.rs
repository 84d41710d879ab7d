//! The player as a whole: a card that is read starts its track.

use crate::error::Error;
use crate::media_player::mediaplayer::MediaPlayer;
use crate::media_player::track::Track;
use crate::rfid_reader::rfidreader::RfidReader;
use crate::track_store::id::Id;
use crate::track_store::trackpath::TrackPath;
use crate::track_store::trackstore::TrackStore;
use vstd::prelude::*;

verus! {

/// The RFID media player.
pub trait RfidMediaPlayer {
    /// Waits for one card, for as long as the reader does, and plays its
    /// track. To be called again and again.
    fn run(&mut self) -> Result<(), Error>;

    /// Gives the reader back and stops the playback. To be called once,
    /// before the application ends.
    fn shutdown(&mut self) -> Result<(), Error>;
}

/// What a read of the reader asks for.
#[derive(Debug, PartialEq)]
pub enum Reaction<'a> {
    /// Nothing: no card came in time, or the card has no track.
    Nothing,
    /// The read failed: hand the error on.
    Fail(Error),
    /// Play the track with this path.
    Play(&'a TrackPath),
}

/// The RFID media player made of a media player, a reader and a track store.
pub struct RfidMediaPlayerImplementation<M, R, T> where M: MediaPlayer, R: RfidReader, T: TrackStore {
    pub media_player: M,
    pub rfid_reader: R,
    pub track_store: T,
}

/// Puts the three parts together.
pub fn open<M, R, T>(media_player: M, rfid_reader: R, track_store: T) -> (player:
    RfidMediaPlayerImplementation<M, R, T>) where M: MediaPlayer, R: RfidReader, T: TrackStore
    ensures
        player.media_player == media_player,
        player.rfid_reader == rfid_reader,
        player.track_store == track_store,
{
    RfidMediaPlayerImplementation::open(media_player, rfid_reader, track_store)
}

/// Looks up the track of the card with this value: the path that the store
/// has for the value as an identifier, or `None` where it has none.
pub fn get_track<'a, T: TrackStore>(track_store: &'a T, rfid_value: String) -> (track_path: Option<
    &'a TrackPath,
>)
    ensures
        match track_path {
            Some(path) => track_store.paths().contains_key(rfid_value@) && track_store.paths()[rfid_value@]
                == path@,
            None => !track_store.paths().contains_key(rfid_value@),
        },
{
    let id = Id::from(rfid_value);
    track_store.get_path(&id)
}

/// Whether `result` is what is reported of an attempt to play: success as
/// it is, a failure as the error of the media player with its text.
pub open spec fn is_play_outcome(
    play_result: Result<(), crate::media_player::Error>,
    result: Result<(), Error>,
) -> bool {
    match play_result {
        Ok(_) => result is Ok,
        Err(cause) => result is Err && result->Err_0.is_of_media_player(cause),
    }
}

/// Whether `result` is what is reported of a shutdown, of which both steps
/// were made: success if both succeeded, and else the error of the step that
/// failed first, the reader's before the media player's.
pub open spec fn is_shutdown_outcome(
    reader_result: Result<(), crate::rfid_reader::Error>,
    player_result: Result<(), crate::media_player::Error>,
    result: Result<(), Error>,
) -> bool {
    match (reader_result, player_result) {
        (Err(cause), _) => result is Err && result->Err_0.is_of_rfid_reader(cause),
        (Ok(_), Err(cause)) => result is Err && result->Err_0.is_of_media_player(cause),
        (Ok(_), Ok(_)) => result is Ok,
    }
}

/// Reports an attempt to play, as [`is_play_outcome`] says.
pub fn play_outcome(play_result: Result<(), crate::media_player::Error>) -> (result: Result<
    (),
    Error,
>)
    ensures
        is_play_outcome(play_result, result),
{
    match play_result {
        Ok(()) => Ok(()),
        Err(error) => Err(Error::from(error)),
    }
}

/// Asks the media player to play the track with this path, and reports
/// what [`play_outcome`] makes of its answer. After success the track with
/// this path is loaded; after a failure the track that was loaded before
/// still is.
pub fn play_track<M: MediaPlayer>(media_player: &mut M, track_path: &TrackPath) -> (result: Result<
    (),
    Error,
>)
    ensures
        exists|play_result: Result<(), crate::media_player::Error>| #[trigger]
            is_play_outcome(play_result, result),
        result is Ok ==> final(media_player).loaded() == Some(track_path@),
        result is Err ==> final(media_player).loaded() == old(media_player).loaded(),
{
    let track: Track = Track::from(track_path.as_ref());
    let play_result = media_player.play(&track);
    play_outcome(play_result)
}

/// Reports a shutdown of which both steps were made, as
/// [`is_shutdown_outcome`] says.
pub fn shutdown_outcome(
    reader_result: Result<(), crate::rfid_reader::Error>,
    player_result: Result<(), crate::media_player::Error>,
) -> (result: Result<(), Error>)
    ensures
        is_shutdown_outcome(reader_result, player_result, result),
{
    match reader_result {
        Err(error) => Err(Error::from(error)),
        Ok(()) => match player_result {
            Err(error) => Err(Error::from(error)),
            Ok(()) => Ok(()),
        },
    }
}

/// Whether `reaction` is what the read asks for, with this store: a
/// timeout asks for nothing, any other error is handed on, and a card asks
/// for its track where the store has one, and else for nothing.
pub open spec fn is_reaction<T: TrackStore>(
    track_store: T,
    read_result: Result<String, crate::rfid_reader::Error>,
    reaction: Reaction,
) -> bool {
    match read_result {
        Err(crate::rfid_reader::Error::Timeout) => reaction is Nothing,
        Err(cause) => reaction is Fail && reaction->Fail_0.is_of_rfid_reader(cause),
        Ok(rfid_value) => if track_store.paths().contains_key(rfid_value@) {
            reaction is Play && reaction->Play_0@ == track_store.paths()[rfid_value@]
        } else {
            reaction is Nothing
        },
    }
}

/// Decides what a read of the reader asks for.
pub fn react<'a, T: TrackStore>(
    track_store: &'a T,
    read_result: Result<String, crate::rfid_reader::Error>,
) -> (reaction: Reaction<'a>)
    ensures
        is_reaction(*track_store, read_result, reaction),
{
    match read_result {
        Ok(rfid_value) => match get_track(track_store, rfid_value) {
            Some(track_path) => Reaction::Play(track_path),
            None => Reaction::Nothing,
        },
        Err(error) => if error.is_timeout() {
            Reaction::Nothing
        } else {
            Reaction::Fail(Error::from(error))
        },
    }
}

impl<M, R, T> RfidMediaPlayerImplementation<M, R, T> where
    M: MediaPlayer,
    R: RfidReader,
    T: TrackStore,
 {
    pub fn open(media_player: M, rfid_reader: R, track_store: T) -> (player: Self)
        ensures
            player.media_player == media_player,
            player.rfid_reader == rfid_reader,
            player.track_store == track_store,
    {
        RfidMediaPlayerImplementation { media_player, rfid_reader, track_store }
    }

    /// Whether the player `after` and `result` are what comes of `before`
    /// and a read with this result.
    ///
    /// After a timeout, and for a card without a track, there is success
    /// and the media player is as it was. The error of a failed read is
    /// reported, and the media player is as it was too. Only a card with a
    /// track reaches the media player, and then its answer is reported:
    /// after success the track of the card is loaded, and after a failure
    /// the track that was loaded before still is. Reader and track store
    /// stay as they were.
    pub open spec fn is_handled(
        before: Self,
        read_result: Result<String, crate::rfid_reader::Error>,
        after: Self,
        result: Result<(), Error>,
    ) -> bool {
        &&& after.rfid_reader == before.rfid_reader
        &&& after.track_store == before.track_store
        &&& match read_result {
            Err(crate::rfid_reader::Error::Timeout) => result is Ok && after.media_player
                == before.media_player,
            Err(cause) => result is Err && result->Err_0.is_of_rfid_reader(cause)
                && after.media_player == before.media_player,
            Ok(rfid_value) => if before.track_store.paths().contains_key(rfid_value@) {
                &&& exists|play_result: Result<(), crate::media_player::Error>| #[trigger]
                    is_play_outcome(play_result, result)
                &&& result is Ok ==> after.media_player.loaded() == Some(
                    before.track_store.paths()[rfid_value@],
                )
                &&& result is Err ==> after.media_player.loaded() == before.media_player.loaded()
            } else {
                result is Ok && after.media_player == before.media_player
            },
        }
    }

    /// Does what a read of the reader asks for, as [`Self::is_handled`]
    /// says.
    pub fn handle(&mut self, read_result: Result<String, crate::rfid_reader::Error>) -> (result:
        Result<(), Error>)
        ensures
            Self::is_handled(*old(self), read_result, *final(self), result),
    {
        match react(&self.track_store, read_result) {
            Reaction::Nothing => Ok(()),
            Reaction::Fail(error) => Err(error),
            Reaction::Play(track_path) => play_track(&mut self.media_player, track_path),
        }
    }
}

impl<M, R, T> RfidMediaPlayer for RfidMediaPlayerImplementation<M, R, T> where
    M: MediaPlayer,
    R: RfidReader,
    T: TrackStore,
 {
    /// Reads the reader once and does what the read asks for, as
    /// [`RfidMediaPlayerImplementation::handle`] says.
    fn run(&mut self) -> (result: Result<(), Error>)
        ensures
            exists|read_result: Result<String, crate::rfid_reader::Error>| #[trigger]
                Self::is_handled(*old(self), read_result, *final(self), result),
    {
        let read_result = self.rfid_reader.read();
        self.handle(read_result)
    }

    /// Gives the reader back and stops the media player, the second
    /// whatever came of the first, and reports what [`shutdown_outcome`]
    /// makes of the two answers. No track is loaded after it, whatever the
    /// reader answered, and after success the reader is given back.
    fn shutdown(&mut self) -> (result: Result<(), Error>)
        ensures
            final(self).track_store == old(self).track_store,
            final(self).media_player.loaded() is None,
            result is Ok ==> final(self).rfid_reader.is_deinitialized(),
            exists|
                reader_result: Result<(), crate::rfid_reader::Error>,
                player_result: Result<(), crate::media_player::Error>,
            | #[trigger] is_shutdown_outcome(reader_result, player_result, result),
    {
        let reader_result = self.rfid_reader.deinitialize();
        let player_result = self.media_player.stop();
        shutdown_outcome(reader_result, player_result)
    }
}

/// Whatever came of stopping the media player, a reader that could not be
/// given back is what a shutdown reports.
pub proof fn lemma_reader_error_is_reported_first(
    cause: crate::rfid_reader::Error,
    player_result: Result<(), crate::media_player::Error>,
    result: Result<(), Error>,
)
    requires
        is_shutdown_outcome(Err(cause), player_result, result),
    ensures
        result is Err,
        result->Err_0.is_of_rfid_reader(cause),
{
}

/// A card that the store has no track for asks for nothing: nothing is
/// played, and nothing fails.
pub proof fn lemma_unknown_card_asks_for_nothing<T: TrackStore>(
    track_store: T,
    rfid_value: String,
    reaction: Reaction,
)
    requires
        !track_store.paths().contains_key(rfid_value@),
        is_reaction(track_store, Ok(rfid_value), reaction),
    ensures
        reaction is Nothing,
{
}

} // verus!
