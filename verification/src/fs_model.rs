//! In-memory model of the slice of the filesystem that the library acts
//! on. The verified operations read and mutate this model; the unverified
//! shell mirrors every mutation with the corresponding real disk call and
//! seeds the model from the disk state it probes.

use vstd::prelude::*;
use vstd::hash_map::StringHashMap;

verus! {

/// What stands at a path: a directory, or a file of `size` bytes.
#[derive(Clone, Copy, Debug, PartialEq, Eq, Structural)]
pub enum FsEntry {
    Directory,
    File { size: u64 },
}

/// A filesystem model: a map from full paths to the entry standing there.
///
/// The model tracks only the paths it was told about; it does not derive
/// the intermediate parents of a path. Creating missing parents is the
/// recursive real call's business.
pub struct FsState {
    entries: StringHashMap<FsEntry>,
}

impl View for FsState {
    type V = Map<Seq<char>, FsEntry>;

    closed spec fn view(&self) -> Map<Seq<char>, FsEntry> {
        self.entries@
    }
}

impl FsState {
    /// A model with no entries.
    pub fn new() -> (r: Self)
        ensures
            r@ == Map::<Seq<char>, FsEntry>::empty(),
    {
        FsState { entries: StringHashMap::new() }
    }

    /// Whether some entry stands at `path`.
    pub fn contains(&self, path: &str) -> (r: bool)
        ensures
            r == self@.contains_key(path@),
    {
        self.entries.contains_key(path)
    }

    /// The entry at `path`, if any.
    pub fn entry(&self, path: &str) -> (r: Option<FsEntry>)
        ensures
            match r {
                Some(e) => self@.contains_key(path@) && e == self@[path@],
                None => !self@.contains_key(path@),
            },
    {
        match self.entries.get(path) {
            Some(e) => Some(*e),
            None => None,
        }
    }

    /// How many entries the model holds.
    pub fn len(&self) -> (r: usize)
        ensures
            r == self@.len(),
    {
        self.entries.len()
    }

    /// Records an entry at `path`, replacing whatever stood there. Used by
    /// the creation operations, and to seed a model with pre-existing
    /// disk state.
    pub fn put(&mut self, path: String, entry: FsEntry)
        ensures
            final(self)@ == old(self)@.insert(path@, entry),
    {
        self.entries.insert(path, entry);
    }
}

} // verus!
