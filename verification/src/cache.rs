//! A bounded cache of the iTunes tracks found for songs, so that a song is
//! not searched for twice.

use vstd::prelude::*;
use vstd::hash_map::StringHashMap;

use crate::itunes::AppleTrack;

verus! {

broadcast use vstd::hash_map::group_hash_map_axioms;

/// The most entries the cache holds; when it is full, the next insertion
/// starts it afresh.
pub const MAX_CACHE_ENTRIES: usize = 128;

/// The cache contents after `track` is stored under `key`: a full cache is
/// emptied first, then the entry is added (replacing one with the same key).
pub open spec fn cache_after_insert(
    entries: Map<Seq<char>, AppleTrack>,
    key: Seq<char>,
    track: AppleTrack,
) -> Map<Seq<char>, AppleTrack> {
    if entries.len() >= MAX_CACHE_ENTRIES {
        Map::<Seq<char>, AppleTrack>::empty().insert(key, track)
    } else {
        entries.insert(key, track)
    }
}

/// Tracks found for songs, keyed by the text they were looked up with.
pub struct SongCache {
    entries: StringHashMap<AppleTrack>,
}

impl View for SongCache {
    type V = Map<Seq<char>, AppleTrack>;

    closed spec fn view(&self) -> Map<Seq<char>, AppleTrack> {
        self.entries@
    }
}

impl SongCache {
    /// The cache never holds more than `MAX_CACHE_ENTRIES` entries.
    #[verifier::type_invariant]
    closed spec fn bounded(&self) -> bool {
        &&& self.entries@.dom().finite()
        &&& self.entries@.len() <= MAX_CACHE_ENTRIES
    }

    /// An empty cache.
    pub fn new() -> (c: Self)
        ensures
            c@ == Map::<Seq<char>, AppleTrack>::empty(),
    {
        SongCache { entries: StringHashMap::new() }
    }

    /// The number of entries.
    pub fn len(&self) -> (n: usize)
        ensures
            n == self@.len(),
            n <= MAX_CACHE_ENTRIES,
    {
        proof {
            use_type_invariant(self);
        }
        self.entries.len()
    }

    /// The track stored under `key`, if any.
    pub fn get(&self, key: &str) -> (r: Option<&AppleTrack>)
        ensures
            match r {
                Some(t) => self@.contains_key(key@) && *t == self@[key@],
                None => !self@.contains_key(key@),
            },
    {
        self.entries.get(key)
    }

    /// Stores `track` under `key`; a full cache is emptied first.
    pub fn insert(&mut self, key: String, track: AppleTrack)
        ensures
            final(self)@ == cache_after_insert(old(self)@, key@, track),
    {
        proof {
            use_type_invariant(&*self);
        }
        let mut entries = StringHashMap::new();
        std::mem::swap(&mut entries, &mut self.entries);
        if entries.len() >= MAX_CACHE_ENTRIES {
            entries.clear();
        }
        entries.insert(key, track);
        self.entries = entries;
    }
}

/// Whatever the cache held, after an insertion it gives back the inserted
/// track for its key and still holds at most `MAX_CACHE_ENTRIES` entries.
pub proof fn lemma_insert_then_get(entries: Map<Seq<char>, AppleTrack>, key: Seq<char>, track: AppleTrack)
    requires
        entries.dom().finite(),
        entries.len() <= MAX_CACHE_ENTRIES,
    ensures
        cache_after_insert(entries, key, track).contains_key(key),
        cache_after_insert(entries, key, track)[key] == track,
        cache_after_insert(entries, key, track).dom().finite(),
        cache_after_insert(entries, key, track).len() <= MAX_CACHE_ENTRIES,
{
    if entries.len() >= MAX_CACHE_ENTRIES {
        assert(Map::<Seq<char>, AppleTrack>::empty().insert(key, track).dom() =~= set![key]);
    } else {
        lemma_map_insert_len(entries, key, track);
    }
}

/// Inserting into a finite map adds at most one key.
proof fn lemma_map_insert_len(m: Map<Seq<char>, AppleTrack>, key: Seq<char>, track: AppleTrack)
    requires
        m.dom().finite(),
    ensures
        m.insert(key, track).dom().finite(),
        m.insert(key, track).len() <= m.len() + 1,
{
    assert(m.insert(key, track).dom() =~= m.dom().insert(key));
}

} // verus!
