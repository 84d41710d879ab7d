//! A track: the path of an audio file.

use vstd::prelude::*;

verus! {

/// The path of a track.
#[derive(Debug, PartialEq)]
pub struct Track(pub String);

impl View for Track {
    type V = Seq<char>;

    open spec fn view(&self) -> Seq<char> {
        self.0@
    }
}

impl vstd::std_specs::convert::FromSpecImpl<String> for Track {
    open spec fn obeys_from_spec() -> bool {
        true
    }

    open spec fn from_spec(path: String) -> Self {
        Track(path)
    }
}

impl From<String> for Track {
    fn from(path: String) -> (track: Self) {
        Track(path)
    }
}

impl<'a> vstd::std_specs::convert::FromSpecImpl<&'a str> for Track {
    open spec fn obeys_from_spec() -> bool {
        false
    }

    open spec fn from_spec(path: &'a str) -> Self {
        arbitrary()
    }
}

impl<'a> From<&'a str> for Track {
    fn from(path: &'a str) -> (track: Self)
        ensures
            track@ == path@,
    {
        Track(path.to_owned())
    }
}

impl Clone for Track {
    fn clone(&self) -> (copy: Self)
        ensures
            copy == *self,
    {
        Track(self.0.clone())
    }
}

impl AsRef<str> for Track {
    fn as_ref(&self) -> (path: &str)
        ensures
            path@ == self@,
    {
        self.0.as_str()
    }
}

impl Track {
    /// Whether two tracks are the same file: whether their paths are equal.
    pub fn same_as(&self, other: &Track) -> (same: bool)
        ensures
            same == (self@ == other@),
    {
        self.0 == other.0
    }

    /// The path of the track.
    pub fn to_string(&self) -> (text: String)
        ensures
            text@ == self@,
    {
        self.0.clone()
    }
}

} // verus!
