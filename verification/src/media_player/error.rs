//! What can go wrong while playing.

use crate::text::push_quoted;
use vstd::prelude::*;
use vstd::string::StringExecFns;

verus! {

/// The errors of the media player.
#[derive(Debug, PartialEq)]
pub enum Error {
    /// The audio library failed; holds its message.
    AudioLibError(String),
    /// The file of the track could not be read; holds the message.
    IoError(String),
}

impl Error {
    /// The text of the error: the name of its kind and, in brackets, the
    /// message between double quotes.
    pub open spec fn rendering(self) -> Seq<char> {
        match self {
            Error::AudioLibError(message) => "AudioLibError("@ + crate::text::debug_quoted(message@)
                + ")"@,
            Error::IoError(message) => "IoError("@ + crate::text::debug_quoted(message@) + ")"@,
        }
    }

    pub fn to_string(&self) -> (text: String)
        ensures
            text@ == self.rendering(),
    {
        let mut text = String::new();
        match self {
            Error::AudioLibError(message) => {
                text.append("AudioLibError(");
                push_quoted(&mut text, message.as_str());
            },
            Error::IoError(message) => {
                text.append("IoError(");
                push_quoted(&mut text, message.as_str());
            },
        }
        text.append(")");
        text
    }
}

} // verus!
