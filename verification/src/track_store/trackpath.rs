//! The path of a stored track.

use vstd::prelude::*;

verus! {

/// The path under which the file of a track is found.
#[derive(Debug, PartialEq)]
pub struct TrackPath(pub String);

impl View for TrackPath {
    type V = Seq<char>;

    open spec fn view(&self) -> Seq<char> {
        self.0@
    }
}

impl vstd::std_specs::convert::FromSpecImpl<String> for TrackPath {
    open spec fn obeys_from_spec() -> bool {
        true
    }

    open spec fn from_spec(s: String) -> Self {
        TrackPath(s)
    }
}

impl From<String> for TrackPath {
    fn from(s: String) -> (path: Self) {
        TrackPath(s)
    }
}

impl<'a> vstd::std_specs::convert::FromSpecImpl<&'a str> for TrackPath {
    open spec fn obeys_from_spec() -> bool {
        false
    }

    open spec fn from_spec(s: &'a str) -> Self {
        arbitrary()
    }
}

impl<'a> From<&'a str> for TrackPath {
    fn from(s: &'a str) -> (path: Self)
        ensures
            path@ == s@,
    {
        TrackPath(s.to_owned())
    }
}

impl AsRef<str> for TrackPath {
    fn as_ref(&self) -> (path: &str)
        ensures
            path@ == self@,
    {
        self.0.as_str()
    }
}

impl TrackPath {
    /// The text of the path.
    pub fn to_string(&self) -> (text: String)
        ensures
            text@ == self@,
    {
        self.0.clone()
    }
}

} // verus!
