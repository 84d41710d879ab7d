//! The errors of the application, whichever part they come from.

use crate::text::push_quoted;
use vstd::prelude::*;
use vstd::string::StringExecFns;

verus! {

/// An error of one of the three parts, kept as its text.
#[derive(Debug, PartialEq)]
pub enum Error {
    /// The media player failed.
    MediaPlayerError(String),
    /// The RFID reader failed.
    RfidReaderError(String),
    /// The track store failed.
    TrackStoreError(String),
}

impl Error {
    /// Whether this is the error that stands for the given error of the
    /// media player: it holds the text of that error.
    pub open spec fn is_of_media_player(self, cause: crate::media_player::Error) -> bool {
        self matches Error::MediaPlayerError(message) && message@ == cause.rendering()
    }

    /// Whether this is the error that stands for the given error of the
    /// RFID reader: it holds the text of that error.
    pub open spec fn is_of_rfid_reader(self, cause: crate::rfid_reader::Error) -> bool {
        self matches Error::RfidReaderError(message) && message@ == cause.rendering()
    }

    /// Whether this is the error that stands for the given error of the
    /// track store: it holds the text of that error.
    pub open spec fn is_of_track_store(self, cause: crate::track_store::Error) -> bool {
        self matches Error::TrackStoreError(message) && message@ == cause.rendering()
    }

    /// The text of the error: the name of its kind and, in brackets, the
    /// text that it holds between double quotes.
    pub open spec fn rendering(self) -> Seq<char> {
        match self {
            Error::MediaPlayerError(message) => "MediaPlayerError("@ + crate::text::debug_quoted(
                message@,
            ) + ")"@,
            Error::RfidReaderError(message) => "RfidReaderError("@ + crate::text::debug_quoted(
                message@,
            ) + ")"@,
            Error::TrackStoreError(message) => "TrackStoreError("@ + crate::text::debug_quoted(
                message@,
            ) + ")"@,
        }
    }

    pub fn to_string(&self) -> (text: String)
        ensures
            text@ == self.rendering(),
    {
        let mut text = String::new();
        match self {
            Error::MediaPlayerError(message) => {
                text.append("MediaPlayerError(");
                push_quoted(&mut text, message.as_str());
            },
            Error::RfidReaderError(message) => {
                text.append("RfidReaderError(");
                push_quoted(&mut text, message.as_str());
            },
            Error::TrackStoreError(message) => {
                text.append("TrackStoreError(");
                push_quoted(&mut text, message.as_str());
            },
        }
        text.append(")");
        text
    }
}

impl vstd::std_specs::convert::FromSpecImpl<crate::media_player::Error> for Error {
    open spec fn obeys_from_spec() -> bool {
        false
    }

    open spec fn from_spec(error: crate::media_player::Error) -> Self {
        arbitrary()
    }
}

impl From<crate::media_player::Error> for Error {
    fn from(error: crate::media_player::Error) -> (converted: Self)
        ensures
            converted.is_of_media_player(error),
    {
        Error::MediaPlayerError(error.to_string())
    }
}

impl vstd::std_specs::convert::FromSpecImpl<crate::rfid_reader::Error> for Error {
    open spec fn obeys_from_spec() -> bool {
        false
    }

    open spec fn from_spec(error: crate::rfid_reader::Error) -> Self {
        arbitrary()
    }
}

impl From<crate::rfid_reader::Error> for Error {
    fn from(error: crate::rfid_reader::Error) -> (converted: Self)
        ensures
            converted.is_of_rfid_reader(error),
    {
        Error::RfidReaderError(error.to_string())
    }
}

impl vstd::std_specs::convert::FromSpecImpl<crate::track_store::Error> for Error {
    open spec fn obeys_from_spec() -> bool {
        false
    }

    open spec fn from_spec(error: crate::track_store::Error) -> Self {
        arbitrary()
    }
}

impl From<crate::track_store::Error> for Error {
    fn from(error: crate::track_store::Error) -> (converted: Self)
        ensures
            converted.is_of_track_store(error),
    {
        Error::TrackStoreError(error.to_string())
    }
}

} // verus!
