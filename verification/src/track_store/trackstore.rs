//! The store itself, and loading it from YAML.

use crate::track_store::error::Error;
use crate::track_store::id::Id;
use crate::track_store::trackpath::TrackPath;
use vstd::prelude::*;

verus! {

/// A table from identifiers to the paths of tracks. A store does not change
/// by being asked: the same store has the same answer for the same
/// identifier.
pub trait TrackStore {
    /// The table: which identifier has which path. A store that does not say
    /// what its table is has one all the same.
    open spec fn paths(&self) -> Map<Seq<char>, Seq<char>> {
        crate::unspecified::unspecified(self)
    }

    /// The path of the track with this identifier, or `None` where the
    /// store has no track for it.
    fn get_path(&self, id: &Id) -> (path: Option<&TrackPath>)
        ensures
            match path {
                Some(track_path) => self.paths().contains_key(id@) && self.paths()[id@]
                    == track_path@,
                None => !self.paths().contains_key(id@),
            },
    ;
}

/// The mapping that a YAML text denotes, from the texts of its keys to the
/// texts of its values, or the message of the parser where the text is not
/// a mapping of that kind.
pub uninterp spec fn yaml_mapping(yaml: Seq<char>) -> Result<Map<Seq<char>, Seq<char>>, Seq<char>>;

/// The table that a row of entries makes. Of two entries with the same
/// identifier, the later one counts.
pub open spec fn mapping_of(entries: Seq<(Id, TrackPath)>) -> Map<Seq<char>, Seq<char>>
    decreases entries.len(),
{
    if entries.len() == 0 {
        Map::empty()
    } else {
        mapping_of(entries.drop_last()).insert(entries.last().0@, entries.last().1@)
    }
}

/// An identifier that no entry has is not in the table. One that entries
/// have is in the table with the path of the last of them.
pub proof fn lemma_mapping_of(entries: Seq<(Id, TrackPath)>, id: Seq<char>)
    ensures
        (forall|i: int| 0 <= i < entries.len() ==> (#[trigger] entries[i]).0@ != id)
            ==> !mapping_of(entries).contains_key(id),
        forall|i: int|
            0 <= i < entries.len() && (#[trigger] entries[i]).0@ == id && (forall|j: int|
                i < j < entries.len() ==> (#[trigger] entries[j]).0@ != id) ==> mapping_of(
                entries,
            ).contains_key(id) && mapping_of(entries)[id] == entries[i].1@,
    decreases entries.len(),
{
    if entries.len() > 0 {
        let front = entries.drop_last();
        lemma_mapping_of(front, id);
        assert forall|i: int|
            0 <= i < entries.len() && (#[trigger] entries[i]).0@ == id && (forall|j: int|
                i < j < entries.len() ==> (#[trigger] entries[j]).0@ != id) implies mapping_of(
            entries,
        ).contains_key(id) && mapping_of(entries)[id] == entries[i].1@ by {
            if i < entries.len() - 1 {
                assert(front[i] == entries[i]);
                assert forall|j: int| i < j < front.len() implies (#[trigger] front[j]).0@
                    != id by {
                    assert(front[j] == entries[j]);
                }
                assert(entries[entries.len() - 1].0@ != id);
            }
        }
        if forall|i: int| 0 <= i < entries.len() ==> (#[trigger] entries[i]).0@ != id {
            assert forall|i: int| 0 <= i < front.len() implies (#[trigger] front[i]).0@ != id by {
                assert(front[i] == entries[i]);
            }
            assert(entries[entries.len() - 1].0@ != id);
        }
    }
}

/// Reads a YAML text as a mapping from texts to texts, with
/// `serde_yaml::from_str`, and hands out its entries in no particular
/// order, or the message of the error.
///
/// Trusted: the entries make the mapping that the text denotes, and a text
/// that is refused is refused with the same message every time.
#[verifier::external_body]
fn parse_mapping(yaml_string: &str) -> (parsed: Result<Vec<(Id, TrackPath)>, String>)
    ensures
        match parsed {
            Ok(entries) => yaml_mapping(yaml_string@) == Ok::<
                Map<Seq<char>, Seq<char>>,
                Seq<char>,
            >(mapping_of(entries@)),
            Err(message) => yaml_mapping(yaml_string@) == Err::<
                Map<Seq<char>, Seq<char>>,
                Seq<char>,
            >(message@),
        },
{
    match serde_yaml::from_str::<std::collections::HashMap<String, String>>(yaml_string) {
        Ok(mapping) => Ok(mapping.into_iter().map(|(id, path)| (Id(id), TrackPath(path))).collect()),
        Err(error) => Err(error.to_string()),
    }
}

/// A track store held in memory.
pub struct TrackStoreImplementation {
    entries: Vec<(Id, TrackPath)>,
}

impl TrackStoreImplementation {
    /// The store of the given entries. Of two entries with the same
    /// identifier, the later one counts.
    pub fn from_entries(entries: Vec<(Id, TrackPath)>) -> (store: Self)
        ensures
            store.paths() == mapping_of(entries@),
    {
        TrackStoreImplementation { entries }
    }
}

impl TrackStore for TrackStoreImplementation {
    closed spec fn paths(&self) -> Map<Seq<char>, Seq<char>> {
        mapping_of(self.entries@)
    }

    fn get_path(&self, id: &Id) -> (path: Option<&TrackPath>) {
        let mut next: usize = self.entries.len();
        while next > 0
            invariant
                next <= self.entries@.len(),
                forall|j: int| next <= j < self.entries@.len() ==> (#[trigger] self.entries@[j]).0@ != id@,
            decreases next,
        {
            next -= 1;
            if self.entries[next].0.same_as(id) {
                proof {
                    lemma_mapping_of(self.entries@, id@);
                }
                return Some(&self.entries[next].1);
            }
        }
        proof {
            lemma_mapping_of(self.entries@, id@);
        }
        None
    }
}

/// What loading makes of a parsed text: the store of its entries, or the
/// load error with the message of the parser.
pub fn store_of(parsed: Result<Vec<(Id, TrackPath)>, String>) -> (result: Result<
    TrackStoreImplementation,
    Error,
>)
    ensures
        match parsed {
            Ok(entries) => result is Ok && result->Ok_0.paths() == mapping_of(entries@),
            Err(message) => result == Err::<TrackStoreImplementation, Error>(
                Error::LoadError(message),
            ),
        },
{
    match parsed {
        Ok(entries) => Ok(TrackStoreImplementation::from_entries(entries)),
        Err(message) => Err(Error::LoadError(message)),
    }
}

/// Loads a track store from a YAML text, which has to be a mapping from
/// identifiers to paths.
///
/// The store holds the mapping that the text denotes. A text that is no
/// such mapping gives a load error with the message of the parser.
pub fn load(yaml_string: &str) -> (result: Result<TrackStoreImplementation, Error>)
    ensures
        match result {
            Ok(store) => yaml_mapping(yaml_string@) == Ok::<Map<Seq<char>, Seq<char>>, Seq<char>>(
                store.paths(),
            ),
            Err(Error::LoadError(message)) => yaml_mapping(yaml_string@) == Err::<
                Map<Seq<char>, Seq<char>>,
                Seq<char>,
            >(message@),
        },
{
    store_of(parse_mapping(yaml_string))
}

} // verus!
