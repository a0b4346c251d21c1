//! The session's memory of the collections that it has resolved.

use crate::collection::{ChromaCollection, CollectionView};
use vstd::hash_map::StringHashMap;
use vstd::prelude::*;

verus! {

/// The handles that a session has resolved, by collection name. It is a map:
/// a name has one entry or none. The map itself is never handed out; it
/// changes through [`CollectionCache::insert_if_absent`] and
/// [`CollectionCache::insert_or_replace`] alone, each of which is one step
/// that the owner takes while it holds the cache exclusively.
pub struct CollectionCache {
    entries: StringHashMap<ChromaCollection>,
}

/// The cache after `handle` was offered for `name`: an entry that is there
/// already stays.
pub open spec fn with_first(
    cache: Map<Seq<char>, CollectionView>,
    name: Seq<char>,
    handle: CollectionView,
) -> Map<Seq<char>, CollectionView> {
    if cache.contains_key(name) {
        cache
    } else {
        cache.insert(name, handle)
    }
}

impl View for CollectionCache {
    type V = Map<Seq<char>, CollectionView>;

    closed spec fn view(&self) -> Map<Seq<char>, CollectionView> {
        self.entries@.map_values(|handle: ChromaCollection| handle@)
    }
}

impl CollectionCache {
    /// A cache that holds nothing.
    pub fn new() -> (cache: Self)
        ensures
            cache@ == Map::<Seq<char>, CollectionView>::empty(),
    {
        let cache = CollectionCache { entries: StringHashMap::new() };
        assert(cache@ =~= Map::<Seq<char>, CollectionView>::empty());
        cache
    }

    /// Whether the cache holds an entry for `name`.
    pub fn contains(&self, name: &str) -> (found: bool)
        ensures
            found == self@.contains_key(name@),
    {
        self.entries.contains_key(name)
    }

    /// A copy of the handle that the cache holds for `name`.
    pub fn lookup(&self, name: &str) -> (found: Option<ChromaCollection>)
        ensures
            match found {
                Some(handle) => self@.contains_key(name@) && handle@ == self@[name@],
                None => !self@.contains_key(name@),
            },
    {
        match self.entries.get(name) {
            Some(handle) => Some(handle.clone()),
            None => None,
        }
    }

    /// Stores `handle` under `name` unless the name has an entry already: who
    /// comes first stays. Says whether the handle was stored.
    pub fn insert_if_absent(&mut self, name: &str, handle: ChromaCollection) -> (stored: bool)
        ensures
            final(self)@ == with_first(old(self)@, name@, handle@),
            stored == !old(self)@.contains_key(name@),
    {
        if self.entries.contains_key(name) {
            false
        } else {
            self.entries.insert(name.to_owned(), handle);
            assert(self@ =~= old(self)@.insert(name@, handle@));
            true
        }
    }

    /// Stores `handle` under `name`, in place of the entry that the name had.
    pub fn insert_or_replace(&mut self, name: &str, handle: ChromaCollection)
        ensures
            final(self)@ == old(self)@.insert(name@, handle@),
    {
        self.entries.insert(name.to_owned(), handle);
        assert(self@ =~= old(self)@.insert(name@, handle@));
    }
}

} // verus!
