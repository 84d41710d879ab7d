//! The media player, which does not start again what is playing already.

use crate::media_player::audiolib::AudioLib;
use crate::media_player::error::Error;
use crate::media_player::track::Track;
use vstd::prelude::*;

verus! {

/// A player of tracks. Playing a new track ends the one before.
pub trait MediaPlayer {
    /// The path of the track that is loaded, if one is.
    open spec fn loaded(&self) -> Option<Seq<char>> {
        crate::unspecified::unspecified(self)
    }

    /// Plays the track. After success it is the loaded track; after a
    /// failure the track that was loaded before still is.
    fn play(&mut self, track: &Track) -> (result: Result<(), Error>)
        ensures
            result is Ok ==> final(self).loaded() == Some(track@),
            result is Err ==> final(self).loaded() == old(self).loaded(),
    ;

    /// Stops the playback. No track is loaded after it, whether or not it
    /// succeeded.
    fn stop(&mut self) -> (result: Result<(), Error>)
        ensures
            final(self).loaded() is None,
    ;
}

/// One request to the audio library.
#[derive(Debug, PartialEq, Eq, Clone, Copy, Structural)]
pub enum AudioCommand {
    /// Stop what is playing.
    Stop,
    /// Play the track that was asked for.
    Play,
}

/// How the track that is asked for stands to the one that is loaded.
#[derive(Debug, PartialEq, Eq, Clone, Copy, Structural)]
pub enum Debounce {
    /// No track is loaded.
    Start,
    /// Another track is loaded.
    Switch,
    /// The same track is loaded.
    Repeat,
}

/// The path of the loaded track, if one is loaded.
pub open spec fn loaded_path(loaded: Option<Track>) -> Option<Seq<char>> {
    match loaded {
        Some(track) => Some(track@),
        None => None,
    }
}

impl Debounce {
    /// Tracks are the same where their paths are.
    pub open spec fn of(loaded: Option<Seq<char>>, track: Seq<char>) -> Debounce {
        match loaded {
            None => Debounce::Start,
            Some(path) => if path == track {
                Debounce::Repeat
            } else {
                Debounce::Switch
            },
        }
    }

    pub fn classify(loaded: &Option<Track>, track: &Track) -> (debounce: Debounce)
        ensures
            debounce == Self::of(loaded_path(*loaded), track@),
    {
        match loaded {
            None => Debounce::Start,
            Some(last_track) => if last_track.same_as(track) {
                Debounce::Repeat
            } else {
                Debounce::Switch
            },
        }
    }

    /// What the audio library is asked to do, in this order. Only for a
    /// repeated track it matters whether the library is playing: a track
    /// that is still playing is not started again.
    pub open spec fn commands(self, playing: bool) -> Seq<AudioCommand> {
        match self {
            Debounce::Start => seq![AudioCommand::Play],
            Debounce::Switch => seq![AudioCommand::Stop, AudioCommand::Play],
            Debounce::Repeat => if playing {
                Seq::empty()
            } else {
                seq![AudioCommand::Play]
            },
        }
    }

    pub fn plan(self, playing: bool) -> (commands: Vec<AudioCommand>)
        ensures
            commands@ == self.commands(playing),
    {
        let mut commands = Vec::new();
        match self {
            Debounce::Start => {
                commands.push(AudioCommand::Play);
            },
            Debounce::Switch => {
                commands.push(AudioCommand::Stop);
                commands.push(AudioCommand::Play);
            },
            Debounce::Repeat => {
                if !playing {
                    commands.push(AudioCommand::Play);
                }
            },
        }
        commands
    }
}

/// One request that was made of the audio library, with its answer.
pub ghost struct AudioRequest {
    pub command: AudioCommand,
    /// The path of the track that was to be played, for a request to play.
    pub track: Option<Seq<char>>,
    pub answer: Result<(), Error>,
}

/// The record of a request with this command, made for the track.
pub open spec fn asked(command: AudioCommand, track: Seq<char>, answer: Result<(), Error>)
    -> AudioRequest {
    AudioRequest {
        command,
        track: match command {
            AudioCommand::Play => Some(track),
            AudioCommand::Stop => None,
        },
        answer,
    }
}

/// Whether `made` are the requests that come of making `commands` for the
/// track, and `result` is what comes of them: the commands are requested in
/// order, each once, as long as the audio library answers with success; the
/// first failure ends it with its error, and without a failure all are made.
pub open spec fn is_asked(
    commands: Seq<AudioCommand>,
    track: Seq<char>,
    made: Seq<AudioRequest>,
    result: Result<(), Error>,
) -> bool {
    &&& made.len() <= commands.len()
    &&& forall|i: int|
        0 <= i < made.len() ==> (#[trigger] made[i]).command == commands[i] && made[i].track == asked(
            commands[i],
            track,
            made[i].answer,
        ).track
    &&& forall|i: int| 0 <= i < made.len() - 1 ==> (#[trigger] made[i]).answer is Ok
    &&& match result {
        Ok(_) => made.len() == commands.len() && (made.len() > 0 ==> made.last().answer is Ok),
        Err(error) => made.len() > 0 && made.last().answer == Err::<(), Error>(error),
    }
}

/// Whether the record `after` is the record `before` and then the requests
/// that come of making `commands` for the track with this result, as
/// [`is_asked`] says.
pub open spec fn is_asked_since(
    before: Seq<AudioRequest>,
    commands: Seq<AudioCommand>,
    track: Seq<char>,
    after: Seq<AudioRequest>,
    result: Result<(), Error>,
) -> bool {
    &&& before.len() <= after.len()
    &&& after.take(before.len() as int) == before
    &&& is_asked(commands, track, after.skip(before.len() as int), result)
}

/// The media player on top of an audio library. It remembers the track
/// that it loaded last, and keeps a record of what it asked of the audio
/// library to play and to stop.
pub struct MediaPlayerImplementation<T: AudioLib> {
    pub last_track: Option<Track>,
    pub audio_lib: T,
    /// The requests to play and to stop that were made of the audio library,
    /// each with its answer, the first first.
    pub requests: Ghost<Seq<AudioRequest>>,
}

impl<T: AudioLib> MediaPlayerImplementation<T> {
    /// A media player on top of the audio library, that has no track loaded
    /// and has asked for nothing yet.
    pub fn from(audio_lib: T) -> (result: Result<Self, Error>)
        ensures
            result is Ok,
            result->Ok_0.last_track is None,
            result->Ok_0.audio_lib == audio_lib,
            result->Ok_0.requests@ == Seq::<AudioRequest>::empty(),
    {
        Ok(MediaPlayerImplementation { last_track: None, audio_lib, requests: Ghost(Seq::empty()) })
    }

    /// Makes the one request that `command` names, for the track, puts it on
    /// record and returns its answer.
    fn request(&mut self, command: AudioCommand, track: &Track) -> (answer: Result<(), Error>)
        ensures
            final(self).requests@ == old(self).requests@.push(asked(command, track@, answer)),
            final(self).last_track == old(self).last_track,
            command is Play ==> final(self).audio_lib == old(self).audio_lib,
    {
        let answer = match command {
            AudioCommand::Stop => self.audio_lib.stop(),
            AudioCommand::Play => self.audio_lib.play(track),
        };
        self.requests = Ghost(self.requests@.push(asked(command, track@, answer)));
        answer
    }

    /// Makes the requests of `commands` to the audio library, in order, and
    /// stops at the first that fails, with its error, as [`is_asked`] says.
    ///
    /// The loaded track stays as it is. Where there is nothing to do, it
    /// succeeds and the player is as it was, and where nothing is to be
    /// stopped, the audio library is not asked for anything that it needs
    /// to be changed for.
    fn perform(&mut self, commands: &Vec<AudioCommand>, track: &Track) -> (result: Result<
        (),
        Error,
    >)
        ensures
            is_asked_since(old(self).requests@, commands@, track@, final(self).requests@, result),
            final(self).last_track == old(self).last_track,
            commands@.len() == 0 ==> result is Ok && *final(self) == *old(self),
            !commands@.contains(AudioCommand::Stop) ==> final(self).audio_lib == old(self).audio_lib,
    {
        let ghost start = self.requests@.len() as int;
        let mut next: usize = 0;
        assert(self.requests@.take(start) =~= self.requests@);
        assert(self.requests@.skip(start) =~= Seq::<AudioRequest>::empty());
        while next < commands.len()
            invariant
                next <= commands@.len(),
                start == old(self).requests@.len(),
                next == 0 ==> *self == *old(self),
                self.last_track == old(self).last_track,
                !commands@.contains(AudioCommand::Stop) ==> self.audio_lib == old(self).audio_lib,
                start <= self.requests@.len(),
                self.requests@.take(start) == old(self).requests@,
                self.requests@.skip(start).len() == next,
                forall|i: int|
                    0 <= i < next ==> (#[trigger] self.requests@.skip(start)[i]) == asked(
                        commands@[i],
                        track@,
                        self.requests@.skip(start)[i].answer,
                    ) && self.requests@.skip(start)[i].answer is Ok,
            decreases commands@.len() - next,
        {
            assert(commands@.contains(commands@[next as int]));
            let ghost before = self.requests@;
            let answer = self.request(commands[next], track);
            proof {
                assert(self.requests@.take(start) =~= before.take(start));
                assert(self.requests@.skip(start) =~= before.skip(start).push(
                    asked(commands@[next as int], track@, answer),
                ));
            }
            match answer {
                Ok(()) => {},
                Err(error) => {
                    return Err(error);
                },
            }
            next += 1;
        }
        Ok(())
    }

    /// Plays the track, where `playing` says whether the audio library is
    /// playing: the requests of [`Debounce::commands`] are made to the audio
    /// library, in order, until one fails, and are put on record with their
    /// answers.
    ///
    /// Where there is nothing to request, which is so for the loaded track
    /// while it plays, it succeeds and the player is as it was. When all
    /// requests succeeded, it succeeds and the track is the loaded one. When
    /// one failed, its error is returned, nothing more is requested and the
    /// loaded track stays as it was. A track that is loaded already stays
    /// loaded as it is, and only for another track than the loaded one is
    /// the audio library asked to stop.
    pub fn play_while(&mut self, track: &Track, playing: bool) -> (result: Result<(), Error>)
        ensures
            is_asked_since(
                old(self).requests@,
                Debounce::of(loaded_path(old(self).last_track), track@).commands(playing),
                track@,
                final(self).requests@,
                result,
            ),
            Debounce::of(loaded_path(old(self).last_track), track@).commands(playing).len() == 0
                ==> result is Ok && *final(self) == *old(self),
            result is Ok ==> loaded_path(final(self).last_track) == Some(track@),
            result is Err ==> final(self).last_track == old(self).last_track,
            Debounce::of(loaded_path(old(self).last_track), track@) is Repeat ==> final(self).last_track == old(self).last_track,
            !(Debounce::of(loaded_path(old(self).last_track), track@) is Switch) ==> final(self).audio_lib == old(self).audio_lib,
    {
        let debounce = Debounce::classify(&self.last_track, track);
        let commands = debounce.plan(playing);
        match self.perform(&commands, track) {
            Err(error) => {
                return Err(error);
            },
            Ok(()) => {},
        }
        match debounce {
            Debounce::Repeat => {},
            _ => {
                self.last_track = Some(track.clone());
            },
        }
        Ok(())
    }
}

impl<T: AudioLib> MediaPlayer for MediaPlayerImplementation<T> {
    open spec fn loaded(&self) -> Option<Seq<char>> {
        loaded_path(self.last_track)
    }

    /// Plays the track, unless it is loaded and playing already: the audio
    /// library is asked whether it is playing only for the loaded track, and
    /// the rest is what [`MediaPlayerImplementation::play_while`] does with
    /// its answer. Whatever that answer is, the requests that are made are
    /// those of [`Debounce::commands`] for it.
    fn play(&mut self, track: &Track) -> (result: Result<(), Error>)
        ensures
            exists|playing: bool| #[trigger]
                is_asked_since(
                    old(self).requests@,
                    Debounce::of(loaded_path(old(self).last_track), track@).commands(playing),
                    track@,
                    final(self).requests@,
                    result,
                ),
            !(Debounce::of(loaded_path(old(self).last_track), track@) is Repeat) ==> is_asked_since(
                old(self).requests@,
                Debounce::of(loaded_path(old(self).last_track), track@).commands(false),
                track@,
                final(self).requests@,
                result,
            ),
            result is Ok ==> loaded_path(final(self).last_track) == Some(track@),
            result is Err ==> final(self).last_track == old(self).last_track,
            Debounce::of(loaded_path(old(self).last_track), track@) is Repeat ==> final(self).last_track == old(self).last_track,
            !(Debounce::of(loaded_path(old(self).last_track), track@) is Switch) ==> final(self).audio_lib == old(self).audio_lib,
    {
        let playing = match Debounce::classify(&self.last_track, track) {
            Debounce::Repeat => self.audio_lib.is_playing(),
            _ => false,
        };
        self.play_while(track, playing)
    }

    /// Stops the playback, whatever is loaded: the audio library is asked to
    /// stop, once, and its answer is the result. No track is loaded after
    /// it, whether or not the audio library could stop.
    fn stop(&mut self) -> (result: Result<(), Error>)
        ensures
            final(self).last_track is None,
            final(self).requests@ == old(self).requests@.push(
                asked(AudioCommand::Stop, Seq::empty(), result),
            ),
    {
        self.last_track = None;
        let answer = self.audio_lib.stop();
        self.requests = Ghost(
            self.requests@.push(asked(AudioCommand::Stop, Seq::empty(), answer)),
        );
        answer
    }
}

/// A media player on top of the audio library, that has no track loaded and
/// has asked for nothing yet.
pub fn open<T: AudioLib>(audio_lib: T) -> (result: Result<MediaPlayerImplementation<T>, Error>)
    ensures
        result is Ok,
        result->Ok_0.last_track is None,
        result->Ok_0.audio_lib == audio_lib,
        result->Ok_0.requests@ == Seq::<AudioRequest>::empty(),
{
    MediaPlayerImplementation::from(audio_lib)
}

/// The first track is played, and nothing is stopped for it.
pub proof fn lemma_first_track_is_played(track: Seq<char>, playing: bool)
    ensures
        Debounce::of(None, track).commands(playing) == seq![AudioCommand::Play],
{
}

/// A track that is loaded and still playing is not started again: nothing
/// is asked of the audio library.
pub proof fn lemma_playing_track_is_left_alone(track: Seq<char>)
    ensures
        Debounce::of(Some(track), track).commands(true) == Seq::<AudioCommand>::empty(),
{
}

/// A track that is loaded and has come to its end is played again, by one
/// request to play.
pub proof fn lemma_ended_track_is_played_again(track: Seq<char>)
    ensures
        Debounce::of(Some(track), track).commands(false) == seq![AudioCommand::Play],
{
}

/// Another track than the loaded one takes exactly one request to stop and,
/// after it, one to play, whether or not the loaded one is still playing.
pub proof fn lemma_other_track_stops_and_plays(loaded: Seq<char>, track: Seq<char>, playing: bool)
    requires
        loaded != track,
    ensures
        Debounce::of(Some(loaded), track).commands(playing) == seq![
            AudioCommand::Stop,
            AudioCommand::Play,
        ],
{
}

} // verus!
