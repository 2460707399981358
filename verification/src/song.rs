//! The song that the player reports, and how its metadata is cleaned and
//! completed with artwork.

use vstd::prelude::*;

use crate::cache::{cache_after_insert, SongCache};
use crate::itunes::AppleTrack;
pub use crate::pattern::ARTIST_SUFFIX_PATTERN;
use crate::pattern::{compile_pattern, no_dash, regex_replace_all, replace_all_matches};
use crate::text::{replace, replaced, trim, trimmed};

verus! {

/// The size marker in the artwork URLs that the iTunes API returns.
pub const SMALL_ARTWORK_SIZE: &'static str = "100x100bb";

/// The size marker of the artwork that the presence shows.
pub const LARGE_ARTWORK_SIZE: &'static str = "512x512bb";

/// `artist` with every match of the artist-suffix pattern removed.
pub open spec fn artist_without_suffix(artist: Seq<char>) -> Seq<char> {
    regex_replace_all(ARTIST_SUFFIX_PATTERN@, artist, Seq::empty())
}

/// The artist name that a song shows for the name the player reported.
pub open spec fn clean_artist(artist: Seq<char>) -> Seq<char> {
    trimmed(artist_without_suffix(artist))
}

/// A song as the player reports it, with the artwork and link found for it.
#[derive(Clone, PartialEq, Debug)]
pub struct SongInfo {
    pub title: String,
    pub artist: String,
    pub length_ms: u32,
    pub is_playing: bool,
    pub position_ms: u32,
    pub song_id: Option<String>,
    pub cover_url: Option<String>,
    pub song_url: Option<String>,
}

/// The text of an optional string.
pub open spec fn opt_text(o: Option<String>) -> Option<Seq<char>> {
    match o {
        Some(s) => Some(s@),
        None => None,
    }
}

impl SongInfo {
    /// A song reported with the given metadata, without artwork or link yet.
    /// The artist name loses the suffix that matches
    /// `ARTIST_SUFFIX_PATTERN` and its surrounding white space; a name with
    /// no hyphen and no em dash has no such suffix and is only trimmed.
    pub fn new(
        title: &str,
        artist: &str,
        length_ms: u32,
        is_playing: bool,
        position_ms: u32,
        song_id: Option<String>,
    ) -> (s: Self)
        ensures
            s.title@ == title@,
            s.artist@ == clean_artist(artist@),
            no_dash(artist@) ==> s.artist@ == trimmed(artist@),
            s.length_ms == length_ms,
            s.is_playing == is_playing,
            s.position_ms == position_ms,
            s.song_id == song_id,
            s.cover_url is None,
            s.song_url is None,
    {
        let compiled = compile_pattern(ARTIST_SUFFIX_PATTERN).unwrap();
        let stripped = replace_all_matches(&compiled, artist, "");
        proof {
            reveal_strlit("");
            assert(""@ =~= Seq::<char>::empty());
        }
        Self::from_stripped_artist(title, stripped.as_str(), length_ms, is_playing, position_ms, song_id)
    }

    /// A song whose artist suffix has already been removed: the artist name
    /// is `stripped_artist` without leading and trailing white space.
    pub fn from_stripped_artist(
        title: &str,
        stripped_artist: &str,
        length_ms: u32,
        is_playing: bool,
        position_ms: u32,
        song_id: Option<String>,
    ) -> (s: Self)
        ensures
            s.title@ == title@,
            s.artist@ == trimmed(stripped_artist@),
            s.length_ms == length_ms,
            s.is_playing == is_playing,
            s.position_ms == position_ms,
            s.song_id == song_id,
            s.cover_url is None,
            s.song_url is None,
    {
        SongInfo {
            title: title.to_owned(),
            artist: trim(stripped_artist),
            length_ms,
            is_playing,
            position_ms,
            song_id,
            cover_url: None,
            song_url: None,
        }
    }

    /// Takes the artwork and link of `track`: the artwork URL, when the track
    /// has one, becomes the cover at the larger size; the track's page becomes
    /// the song's link (or no link, when the track has none).
    pub fn set_artwork(&mut self, track: &AppleTrack)
        ensures
            artwork_applied(*old(self), *final(self), *track),
    {
        proof {
            reveal_strlit("100x100bb");
        }
        if let Some(art_work) = &track.artwork_url100 {
            self.cover_url = Some(replace(art_work.as_str(), SMALL_ARTWORK_SIZE, LARGE_ARTWORK_SIZE));
        }
        self.song_url = track.track_view_url.clone();
    }

    /// Remembers `track` as the one found for `query`.
    pub fn set_cache(&self, cache: &mut SongCache, query: String, track: AppleTrack)
        ensures
            final(cache)@ == cache_after_insert(old(cache)@, query@, track),
    {
        cache.insert(query, track);
    }
}

/// `after` is `before` with the artwork and link of `track` taken over: the
/// reported metadata is kept, the cover is the track's artwork URL at the
/// larger size when the track has one (else the cover is kept), and the link
/// is the track's page.
pub open spec fn artwork_applied(before: SongInfo, after: SongInfo, track: AppleTrack) -> bool {
    &&& same_report(before, after)
    &&& opt_text(after.cover_url) == match track.artwork_url100 {
        Some(art) => Some(replaced(art@, SMALL_ARTWORK_SIZE@, LARGE_ARTWORK_SIZE@)),
        None => opt_text(before.cover_url),
    }
    &&& opt_text(after.song_url) == opt_text(track.track_view_url)
}

/// `a` and `b` carry the same reported metadata (all but artwork and link).
pub open spec fn same_report(a: SongInfo, b: SongInfo) -> bool {
    &&& a.title == b.title
    &&& a.artist == b.artist
    &&& a.length_ms == b.length_ms
    &&& a.is_playing == b.is_playing
    &&& a.position_ms == b.position_ms
    &&& a.song_id == b.song_id
}

} // verus!
