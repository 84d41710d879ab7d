//! The identifier of a track.

use vstd::prelude::*;

verus! {

/// The identifier under which a track is stored: the text that the reader
/// makes of a card, leading zeros included.
#[derive(Debug, PartialEq, Eq, Hash)]
pub struct Id(pub String);

impl View for Id {
    type V = Seq<char>;

    open spec fn view(&self) -> Seq<char> {
        self.0@
    }
}

impl vstd::std_specs::convert::FromSpecImpl<String> for Id {
    open spec fn obeys_from_spec() -> bool {
        true
    }

    open spec fn from_spec(s: String) -> Self {
        Id(s)
    }
}

impl From<String> for Id {
    fn from(s: String) -> (id: Self) {
        Id(s)
    }
}

impl<'a> vstd::std_specs::convert::FromSpecImpl<&'a str> for Id {
    open spec fn obeys_from_spec() -> bool {
        false
    }

    open spec fn from_spec(s: &'a str) -> Self {
        arbitrary()
    }
}

impl<'a> From<&'a str> for Id {
    fn from(s: &'a str) -> (id: Self)
        ensures
            id@ == s@,
    {
        Id(s.to_owned())
    }
}

impl Id {
    /// Whether two identifiers are the same text.
    pub fn same_as(&self, other: &Id) -> (same: bool)
        ensures
            same == (self@ == other@),
    {
        self.0 == other.0
    }

    /// The text of the identifier.
    pub fn to_string(&self) -> (text: String)
        ensures
            text@ == self@,
    {
        self.0.clone()
    }
}

} // verus!
