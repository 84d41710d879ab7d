use rfid_media_player::media_player::mediaplayer::{
    AudioCommand, Debounce, MediaPlayerImplementation,
};
use rfid_media_player::media_player::{open, AudioLib, Error, MediaPlayer, Track};
use std::cell::{Cell, RefCell};

struct DummyAudioLib;

impl AudioLib for DummyAudioLib {
    fn play(&self, _track: &Track) -> Result<(), Error> {
        Ok(())
    }
    fn stop(&mut self) -> Result<(), Error> {
        Ok(())
    }
    fn is_playing(&self) -> bool {
        false
    }
}

/// An audio library that records what is asked of it.
struct RecordingAudioLib {
    playing: Cell<bool>,
    fail_play: bool,
    fail_stop: bool,
    requests: RefCell<Vec<String>>,
}

impl RecordingAudioLib {
    fn new() -> Self {
        RecordingAudioLib {
            playing: Cell::new(false),
            fail_play: false,
            fail_stop: false,
            requests: RefCell::new(Vec::new()),
        }
    }
}

impl AudioLib for RecordingAudioLib {
    fn play(&self, track: &Track) -> Result<(), Error> {
        let path: &str = track.as_ref();
        self.requests.borrow_mut().push(format!("play {}", path));
        if self.fail_play {
            return Err(Error::IoError("no such file".to_string()));
        }
        self.playing.set(true);
        Ok(())
    }
    fn stop(&mut self) -> Result<(), Error> {
        self.requests.borrow_mut().push("stop".to_string());
        if self.fail_stop {
            return Err(Error::AudioLibError("NoDevice".to_string()));
        }
        self.playing.set(false);
        Ok(())
    }
    fn is_playing(&self) -> bool {
        self.playing.get()
    }
}

#[test]
fn test_play() {
    let mut media_player = MediaPlayerImplementation::from(DummyAudioLib).unwrap();
    let result = media_player.play(&"/path/to/track".into());
    assert!(result.is_ok());
}

#[test]
fn test_new_song_interrupts_old() {
    let mut media_player = MediaPlayerImplementation::from(DummyAudioLib).unwrap();
    media_player.play(&"/path/to/track/1".into()).unwrap();
    media_player.play(&"song2".into()).unwrap();
    assert_eq!(media_player.last_track, Some(Track::from("song2")));
}

#[test]
fn test_old_song_is_played_again() {
    let mut media_player = MediaPlayerImplementation::from(DummyAudioLib).unwrap();
    media_player
        .play(&String::from("/path/to/track/1").into())
        .unwrap();
    media_player.play(&"/path/to/track/1".into()).unwrap();
    assert_eq!(
        media_player.last_track,
        Some(Track::from("/path/to/track/1"))
    );
}

#[test]
fn test_as_ref() {
    let track = Track::from("track");
    let as_ref: &str = track.as_ref();
    assert_eq!("track", as_ref);
}

#[test]
fn track_test_display() {
    let track = Track::from("track");
    let formatted_track = track.to_string();
    assert_eq!("track".to_string(), formatted_track);
}

#[test]
fn tracks_are_compared_by_path() {
    let track = Track::from("a/b.wav");
    assert!(track.same_as(&Track::from("a/b.wav".to_string())));
    assert!(!track.same_as(&Track::from("a/b.flac")));
    assert_eq!(track, track.clone());
}

#[test]
fn media_player_error_texts() {
    assert_eq!(
        "IoError(\"No such file or directory (os error 2)\")",
        Error::IoError("No such file or directory (os error 2)".to_string()).to_string()
    );
    let quoted = Error::AudioLibError("say \"x\"\\\n".to_string());
    assert_eq!("AudioLibError(\"say \\\"x\\\"\\\\\\n\")", quoted.to_string());
    assert_eq!(format!("{:?}", quoted), quoted.to_string());
}

#[test]
fn debounce_classifies_and_plans() {
    let a = Track::from("a");
    assert_eq!(Debounce::Start, Debounce::classify(&None, &a));
    assert_eq!(
        Debounce::Repeat,
        Debounce::classify(&Some(Track::from("a")), &a)
    );
    assert_eq!(
        Debounce::Switch,
        Debounce::classify(&Some(Track::from("b")), &a)
    );
    for playing in [false, true] {
        assert_eq!(vec![AudioCommand::Play], Debounce::Start.plan(playing));
        assert_eq!(
            vec![AudioCommand::Stop, AudioCommand::Play],
            Debounce::Switch.plan(playing)
        );
    }
    assert_eq!(vec![AudioCommand::Play], Debounce::Repeat.plan(false));
    assert_eq!(Vec::<AudioCommand>::new(), Debounce::Repeat.plan(true));
}

#[test]
fn same_track_is_not_started_while_it_plays() {
    let mut media_player = open(RecordingAudioLib::new()).unwrap();
    assert_eq!(None, media_player.last_track);
    media_player.play(&"a".into()).unwrap();
    media_player.play(&"a".into()).unwrap();
    assert_eq!(vec!["play a"], *media_player.audio_lib.requests.borrow());
    assert_eq!(Some(Track::from("a")), media_player.last_track);
}

#[test]
fn other_track_stops_once_and_plays_once() {
    let mut media_player = open(RecordingAudioLib::new()).unwrap();
    media_player.play(&"a".into()).unwrap();
    media_player.play(&"b".into()).unwrap();
    assert_eq!(
        vec!["play a", "stop", "play b"],
        *media_player.audio_lib.requests.borrow()
    );
    assert_eq!(Some(Track::from("b")), media_player.last_track);
}

#[test]
fn same_track_is_started_again_after_its_end() {
    let mut media_player = open(RecordingAudioLib::new()).unwrap();
    media_player.play(&"a".into()).unwrap();
    media_player.audio_lib.playing.set(false);
    media_player.play(&"a".into()).unwrap();
    assert_eq!(
        vec!["play a", "play a"],
        *media_player.audio_lib.requests.borrow()
    );
    assert_eq!(Some(Track::from("a")), media_player.last_track);
}

#[test]
fn stop_forgets_the_track() {
    let mut media_player = open(RecordingAudioLib::new()).unwrap();
    media_player.play(&"a".into()).unwrap();
    assert_eq!(Ok(()), media_player.stop());
    assert_eq!(None, media_player.last_track);
    media_player.play(&"a".into()).unwrap();
    assert_eq!(
        vec!["play a", "stop", "play a"],
        *media_player.audio_lib.requests.borrow()
    );

    media_player.audio_lib.fail_stop = true;
    assert_eq!(
        Err(Error::AudioLibError("NoDevice".to_string())),
        media_player.stop()
    );
    assert_eq!(None, media_player.last_track);
}

#[test]
fn failed_request_keeps_the_loaded_track() {
    let mut audio_lib = RecordingAudioLib::new();
    audio_lib.fail_play = true;
    let mut media_player = open(audio_lib).unwrap();
    assert_eq!(
        Err(Error::IoError("no such file".to_string())),
        media_player.play(&"a".into())
    );
    assert_eq!(None, media_player.last_track);

    media_player.audio_lib.fail_play = false;
    media_player.play(&"a".into()).unwrap();
    media_player.audio_lib.fail_stop = true;
    assert_eq!(
        Err(Error::AudioLibError("NoDevice".to_string())),
        media_player.play(&"b".into())
    );
    assert_eq!(Some(Track::from("a")), media_player.last_track);
    assert_eq!(
        vec!["play a", "play a", "stop"],
        *media_player.audio_lib.requests.borrow()
    );

    media_player.audio_lib.fail_stop = false;
    media_player.audio_lib.fail_play = true;
    assert!(media_player.play(&"b".into()).is_err());
    assert_eq!(Some(Track::from("a")), media_player.last_track);
}

#[test]
fn play_while_takes_the_answer_of_the_audio_library() {
    let mut media_player = open(RecordingAudioLib::new()).unwrap();
    assert_eq!(Ok(()), media_player.play_while(&"a".into(), true));
    assert_eq!(Some(Track::from("a")), media_player.last_track);
    // loaded and playing: nothing is asked of the audio library
    assert_eq!(Ok(()), media_player.play_while(&"a".into(), true));
    assert_eq!(vec!["play a"], *media_player.audio_lib.requests.borrow());
    assert_eq!(Some(Track::from("a")), media_player.last_track);
    // loaded and at its end: played again
    assert_eq!(Ok(()), media_player.play_while(&"a".into(), false));
    assert_eq!(
        vec!["play a", "play a"],
        *media_player.audio_lib.requests.borrow()
    );
    // another track: stopped first, whether or not the first still plays
    assert_eq!(Ok(()), media_player.play_while(&"b".into(), true));
    assert_eq!(
        vec!["play a", "play a", "stop", "play b"],
        *media_player.audio_lib.requests.borrow()
    );
    assert_eq!(Some(Track::from("b")), media_player.last_track);
    media_player.audio_lib.fail_play = true;
    assert!(media_player.play_while(&"b".into(), false).is_err());
    assert_eq!(Ok(()), media_player.play_while(&"b".into(), true));
    assert_eq!(Some(Track::from("b")), media_player.last_track);
}
