use rfid_media_player::cli_app::{validate_id, validate_timeout};
use rfid_media_player::media_player::{MediaPlayer, Track};
use rfid_media_player::rfid_reader::usb::utils::get_device;
use rfid_media_player::rfid_reader::{ProductId, RfidReader, VendorId};
use rfid_media_player::rfidmediaplayer::{
    get_track, play_outcome, play_track, react, shutdown_outcome, Reaction,
    RfidMediaPlayerImplementation,
};
use rfid_media_player::track_store::{load, Id, TrackPath, TrackStore};
use rfid_media_player::{convert_to_id, open, Error, RfidMediaPlayer};
use rfid_media_player::{media_player, rfid_reader, track_store};

struct OkMediaPlayer;
impl MediaPlayer for OkMediaPlayer {
    fn play(&mut self, _track: &media_player::Track) -> Result<(), media_player::Error> {
        Ok(())
    }
    fn stop(&mut self) -> Result<(), media_player::Error> {
        Ok(())
    }
}

struct ErrMediaPlayer;
impl MediaPlayer for ErrMediaPlayer {
    fn play(&mut self, _track: &media_player::Track) -> Result<(), media_player::Error> {
        Err(media_player::Error::AudioLibError("play".to_string()))
    }
    fn stop(&mut self) -> Result<(), media_player::Error> {
        Err(media_player::Error::AudioLibError("stop".to_string()))
    }
}

/// A media player that records what is asked of it.
struct RecordingMediaPlayer {
    fail: bool,
    requests: Vec<String>,
}

impl RecordingMediaPlayer {
    fn new(fail: bool) -> Self {
        RecordingMediaPlayer {
            fail,
            requests: Vec::new(),
        }
    }
}

impl MediaPlayer for RecordingMediaPlayer {
    fn play(&mut self, track: &Track) -> Result<(), media_player::Error> {
        self.requests.push(format!("play {}", track.to_string()));
        if self.fail {
            Err(media_player::Error::IoError("play".to_string()))
        } else {
            Ok(())
        }
    }
    fn stop(&mut self) -> Result<(), media_player::Error> {
        self.requests.push("stop".to_string());
        if self.fail {
            Err(media_player::Error::AudioLibError("stop".to_string()))
        } else {
            Ok(())
        }
    }
}

struct SomeTrackStore(track_store::TrackPath);
impl TrackStore for SomeTrackStore {
    fn get_path(&self, _id: &track_store::Id) -> Option<&track_store::TrackPath> {
        Some(&self.0)
    }
}

struct NoneTrackStore;
impl TrackStore for NoneTrackStore {
    fn get_path(&self, _id: &track_store::Id) -> Option<&track_store::TrackPath> {
        None
    }
}

#[derive(Debug)]
struct OkRfidReader;
impl RfidReader for OkRfidReader {
    fn read(&self) -> Result<String, rfid_reader::Error> {
        Ok("1234".to_string())
    }
    fn deinitialize(&mut self) -> Result<(), rfid_reader::Error> {
        Ok(())
    }
}

#[derive(Debug)]
struct ErrRfidReader;
impl RfidReader for ErrRfidReader {
    fn read(&self) -> Result<String, rfid_reader::Error> {
        Err(rfid_reader::Error::OtherUsbError("read".to_string()))
    }
    fn deinitialize(&mut self) -> Result<(), rfid_reader::Error> {
        Err(rfid_reader::Error::OtherUsbError(
            "deinitialize".to_string(),
        ))
    }
}

#[derive(Debug)]
struct TimeoutRfidReader;
impl RfidReader for TimeoutRfidReader {
    fn read(&self) -> Result<String, rfid_reader::Error> {
        Err(rfid_reader::Error::Timeout)
    }
    fn deinitialize(&mut self) -> Result<(), rfid_reader::Error> {
        Ok(())
    }
}

#[test]
fn test_convert_to_id() {
    let result = convert_to_id("FF".to_string());
    assert_eq!(Ok(255), result);
    let result = convert_to_id("G".to_string());
    assert!(result.is_err());
}

#[test]
fn test_validate_id() {
    let result = validate_id("FF".to_string());
    assert_eq!(Ok(()), result);
    let result = validate_id("G".to_string());
    assert_eq!(Err("ID value must be a valid hexadecimal or decimal unsigned integer number with at least 16 bits.".to_string()), result);
}

#[test]
fn test_validate_timeout() {
    let result = validate_timeout("1000".to_string());
    assert_eq!(Ok(()), result);
    let result = validate_timeout("G".to_string());
    assert_eq!(
        Err(
            "Timeout value must be a valid decimal unsigned integer with at least 16 bits."
                .to_string()
        ),
        result
    );
}

#[test]
fn ids_are_read_as_hexadecimal_first() {
    assert_eq!(Ok(16), convert_to_id("10".to_string()));
    assert_eq!(Ok(0x16c0), convert_to_id("16c0".to_string()));
    assert_eq!(Ok(0x27db), convert_to_id("27DB".to_string()));
    assert_eq!(Ok(0xffff), convert_to_id("+ffff".to_string()));
    assert_eq!(Ok(0), convert_to_id("0000000".to_string()));
    // too large as a hexadecimal number, but not as a decimal one
    assert_eq!(Ok(65535), convert_to_id("65535".to_string()));
    assert_eq!(Ok(10000), convert_to_id("10000".to_string()));
    for refused in ["", "+", "-1", "0x10", " 10", "10 ", "1_0", "65536", "fffff", "++1", "1g"] {
        assert!(convert_to_id(refused.to_string()).is_err(), "{:?}", refused);
        assert!(validate_id(refused.to_string()).is_err(), "{:?}", refused);
    }
}

#[test]
fn timeouts_are_positive_decimal_numbers() {
    for accepted in ["1", "1000", "+60000", "0001", "18446744073709551615"] {
        assert_eq!(Ok(()), validate_timeout(accepted.to_string()), "{:?}", accepted);
    }
    for refused in ["", "0", "+0", "000", "ff", "18446744073709551616", "-1", "1.5", "1000ms"] {
        assert_eq!(
            Err(
                "Timeout value must be a valid decimal unsigned integer with at least 16 bits."
                    .to_string()
            ),
            validate_timeout(refused.to_string()),
            "{:?}",
            refused
        );
    }
}

#[test]
fn test_from_media_player_error() {
    let media_player_error = media_player::Error::IoError("Test".to_string());
    let error = Error::from(media_player_error);
    assert_eq!(
        Error::MediaPlayerError("IoError(\"Test\")".to_string()),
        error
    );
}

#[test]
fn test_from_rfid_reader_error() {
    let other_error = rfid_reader::Error::Timeout;
    let error = Error::from(other_error);
    assert_eq!(Error::RfidReaderError("Timeout".to_string()), error);
}

#[test]
fn test_from_track_store_error() {
    let other_error = track_store::Error::LoadError("Test".to_string());
    let error = Error::from(other_error);
    assert_eq!(
        Error::TrackStoreError("LoadError(\"Test\")".to_string()),
        error
    );
}

#[test]
fn error_texts_are_quoted_twice() {
    let error = Error::from(track_store::Error::LoadError("a \"b\"".to_string()));
    assert_eq!(
        Error::TrackStoreError("LoadError(\"a \\\"b\\\"\")".to_string()),
        error
    );
    assert_eq!(format!("{:?}", error), error.to_string());
    let error = Error::MediaPlayerError("x".to_string());
    assert_eq!("MediaPlayerError(\"x\")", error.to_string());
}

#[test]
fn test_invalid_yaml() {
    let result = load("test");
    if let Err(error) = result {
        assert_eq!(Error::TrackStoreError("LoadError(\"invalid type: string \\\"test\\\", expected a map at line 1 column 1\")".to_string()), Error::from(error));
    } else {
        assert!(false);
    }
}

#[test]
fn test_wrong_device() {
    assert!(load("1234: path").is_ok());
    let result = get_device(&Vec::new(), VendorId::from(1), ProductId::from(1));
    if let Err(error) = result {
        assert_eq!(
            Error::RfidReaderError("DeviceNotFound(VendorId(1), ProductId(1))".to_string()),
            Error::from(error)
        );
    } else {
        assert!(false);
    }
}

#[test]
fn test_play_track() {
    let mut ok = OkMediaPlayer;
    let result = play_track(&mut ok, &track_store::TrackPath::from(""));
    assert_eq!(Ok(()), result);

    let mut err = ErrMediaPlayer;
    let result = play_track(&mut err, &track_store::TrackPath::from(""));
    assert_eq!(
        Err(Error::MediaPlayerError(
            "AudioLibError(\"play\")".to_string()
        )),
        result
    );
}

#[test]
fn test_get_track() {
    let some = SomeTrackStore(track_store::TrackPath::from("path"));
    let option = get_track(&some, "".to_string());
    assert_eq!(Some(&track_store::TrackPath::from("path")), option);

    let none = NoneTrackStore;
    let option = get_track(&none, "".to_string());
    assert_eq!(None, option);
}

#[test]
fn test_ok_run_and_shutdown() {
    let mut rfid_media_player = open(
        OkMediaPlayer,
        OkRfidReader,
        SomeTrackStore(track_store::TrackPath::from("path")),
    );

    let result = rfid_media_player.run();

    assert_eq!(Ok(()), result);

    let result = rfid_media_player.shutdown();

    assert_eq!(Ok(()), result);
}

#[test]
fn test_err_run_and_shutdown() {
    let mut rfid_media_player = open(
        OkMediaPlayer,
        ErrRfidReader,
        SomeTrackStore(track_store::TrackPath::from("path")),
    );

    let result = rfid_media_player.run();

    assert_eq!(
        Err(Error::RfidReaderError(
            "OtherUsbError(\"read\")".to_string()
        )),
        result
    );

    let result = rfid_media_player.shutdown();

    assert_eq!(
        Err(Error::RfidReaderError(
            "OtherUsbError(\"deinitialize\")".to_string()
        )),
        result
    );
}

#[test]
fn test_err_media_player_shutdown() {
    let mut rfid_media_player = open(
        ErrMediaPlayer,
        OkRfidReader,
        SomeTrackStore(track_store::TrackPath::from("path")),
    );

    let result = rfid_media_player.shutdown();

    assert_eq!(
        Err(Error::MediaPlayerError(
            "AudioLibError(\"stop\")".to_string()
        )),
        result
    );
}

#[test]
fn test_timeout_run() {
    let mut rfid_media_player = open(
        OkMediaPlayer,
        TimeoutRfidReader,
        SomeTrackStore(track_store::TrackPath::from("path")),
    );

    let result = rfid_media_player.run();

    assert_eq!(Ok(()), result);
}

#[test]
fn known_card_plays_its_track() {
    let track_store = load("1234: path/to/track").unwrap();
    let mut rfid_media_player = open(RecordingMediaPlayer::new(false), OkRfidReader, track_store);
    assert_eq!(Ok(()), rfid_media_player.run());
    assert_eq!(
        vec!["play path/to/track"],
        rfid_media_player.media_player.requests
    );

    let track_store = load("1234: path/to/track").unwrap();
    let mut rfid_media_player = open(RecordingMediaPlayer::new(true), OkRfidReader, track_store);
    assert_eq!(
        Err(Error::MediaPlayerError("IoError(\"play\")".to_string())),
        rfid_media_player.run()
    );
}

#[test]
fn unknown_card_plays_nothing() {
    let track_store = load("4321: path/to/track").unwrap();
    let mut rfid_media_player = open(RecordingMediaPlayer::new(true), OkRfidReader, track_store);
    assert_eq!(Ok(()), rfid_media_player.run());
    assert!(rfid_media_player.media_player.requests.is_empty());

    let mut rfid_media_player = open(RecordingMediaPlayer::new(true), OkRfidReader, NoneTrackStore);
    assert_eq!(Ok(()), rfid_media_player.handle(Ok("0000000001".to_string())));
    assert!(rfid_media_player.media_player.requests.is_empty());
}

#[test]
fn failed_read_plays_nothing() {
    let path = || SomeTrackStore(TrackPath::from("path"));
    let mut rfid_media_player = open(RecordingMediaPlayer::new(false), ErrRfidReader, path());
    assert!(rfid_media_player.run().is_err());
    assert!(rfid_media_player.media_player.requests.is_empty());

    let mut rfid_media_player = open(RecordingMediaPlayer::new(false), TimeoutRfidReader, path());
    assert_eq!(Ok(()), rfid_media_player.run());
    assert!(rfid_media_player.media_player.requests.is_empty());

    assert_eq!(
        Err(Error::RfidReaderError("InvalidData(124)".to_string())),
        rfid_media_player.handle(Err(rfid_reader::Error::InvalidData(124)))
    );
    assert!(rfid_media_player.media_player.requests.is_empty());
}

#[test]
fn shutdown_stops_the_player_after_a_failed_reader() {
    let mut rfid_media_player = RfidMediaPlayerImplementation::open(
        RecordingMediaPlayer::new(true),
        ErrRfidReader,
        NoneTrackStore,
    );
    assert_eq!(
        Err(Error::RfidReaderError(
            "OtherUsbError(\"deinitialize\")".to_string()
        )),
        rfid_media_player.shutdown()
    );
    assert_eq!(vec!["stop"], rfid_media_player.media_player.requests);

    let mut rfid_media_player = open(RecordingMediaPlayer::new(false), ErrRfidReader, NoneTrackStore);
    assert!(rfid_media_player.shutdown().is_err());
    assert_eq!(vec!["stop"], rfid_media_player.media_player.requests);
}

#[test]
fn outcomes_of_shutdown_and_play() {
    let reader_error = || Err(rfid_reader::Error::Access);
    let player_error = || Err(media_player::Error::AudioLibError("stop".to_string()));
    assert_eq!(Ok(()), shutdown_outcome(Ok(()), Ok(())));
    assert_eq!(
        Err(Error::RfidReaderError("Access".to_string())),
        shutdown_outcome(reader_error(), Ok(()))
    );
    assert_eq!(
        Err(Error::RfidReaderError("Access".to_string())),
        shutdown_outcome(reader_error(), player_error())
    );
    assert_eq!(
        Err(Error::MediaPlayerError(
            "AudioLibError(\"stop\")".to_string()
        )),
        shutdown_outcome(Ok(()), player_error())
    );
    assert_eq!(Ok(()), play_outcome(Ok(())));
    assert_eq!(
        Err(Error::MediaPlayerError(
            "AudioLibError(\"stop\")".to_string()
        )),
        play_outcome(player_error())
    );
}

#[test]
fn reactions_to_a_read() {
    let track_store = load("0000000042: answer.flac").unwrap();
    assert_eq!(
        Reaction::Nothing,
        react(&track_store, Err(rfid_reader::Error::Timeout))
    );
    assert_eq!(
        Reaction::Fail(Error::RfidReaderError("KeyNotExisting(17)".to_string())),
        react(&track_store, Err(rfid_reader::Error::KeyNotExisting(17)))
    );
    assert_eq!(
        Reaction::Play(&TrackPath::from("answer.flac")),
        react(&track_store, Ok("0000000042".to_string()))
    );
    assert_eq!(Reaction::Nothing, react(&track_store, Ok("42".to_string())));
    assert_eq!(
        Some(&TrackPath::from("answer.flac")),
        track_store.get_path(&Id::from("0000000042"))
    );
}
