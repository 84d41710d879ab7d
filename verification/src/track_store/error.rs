//! What can go wrong with the track store.

use crate::text::push_quoted;
use vstd::prelude::*;
use vstd::string::StringExecFns;

verus! {

/// The errors of the track store.
#[derive(Debug, PartialEq)]
pub enum Error {
    /// The store could not be loaded, most likely because the YAML text is
    /// not a mapping; holds the message of the parser.
    LoadError(String),
}

impl Error {
    /// The text of the error: the name of its kind and, in brackets, the
    /// message between double quotes.
    pub open spec fn rendering(self) -> Seq<char> {
        match self {
            Error::LoadError(message) => "LoadError("@ + crate::text::debug_quoted(message@) + ")"@,
        }
    }

    pub fn to_string(&self) -> (text: String)
        ensures
            text@ == self.rendering(),
    {
        let mut text = String::new();
        match self {
            Error::LoadError(message) => {
                text.append("LoadError(");
                push_quoted(&mut text, message.as_str());
                text.append(")");
            },
        }
        text
    }
}

} // verus!
