//! Finding a song's artwork and link: the decisions between the requests to
//! the iTunes API, as steps from what was asked and what came back to what
//! to ask next.

use vstd::prelude::*;

use crate::cache::{cache_after_insert, SongCache};
use crate::itunes::{
    lemma_first_accepted_is_least, track_accepted, broad_search_url, broad_search_url_of, find_track, first_accepted, lookup_url,
    lookup_url_of, search_query, search_query_text, search_url, search_url_of, AppleTrack,
};
use crate::song::{artwork_applied, opt_text, same_report, SongInfo};
use crate::text::{lowercase, to_lowercase, trim, trimmed};

verus! {

/// What a search for artwork waits for.
pub enum FetchStage {
    /// The answer to a lookup by store id.
    Lookup { song_id: String },
    /// The answer to a search by title and artist.
    Search { query: String, title_lower: String, artist_lower: String },
    /// The answer to a search by artist alone.
    BroadSearch { query: String, title_lower: String, artist_lower: String },
}

/// What to do next in a search for artwork.
pub enum FetchStep {
    /// The search is over.
    Finished,
    /// Ask `url`, then continue at `stage` with the answer.
    Request { url: String, stage: FetchStage },
}

/// The text of a `FetchStage`.
pub enum FetchStageView {
    Lookup { song_id: Seq<char> },
    Search { query: Seq<char>, title_lower: Seq<char>, artist_lower: Seq<char> },
    BroadSearch { query: Seq<char>, title_lower: Seq<char>, artist_lower: Seq<char> },
}

/// The text of a `FetchStep`.
pub enum FetchStepView {
    Finished,
    Request { url: Seq<char>, stage: FetchStageView },
}

impl View for FetchStage {
    type V = FetchStageView;

    open spec fn view(&self) -> FetchStageView {
        match self {
            FetchStage::Lookup { song_id } => FetchStageView::Lookup { song_id: song_id@ },
            FetchStage::Search { query, title_lower, artist_lower } => FetchStageView::Search {
                query: query@,
                title_lower: title_lower@,
                artist_lower: artist_lower@,
            },
            FetchStage::BroadSearch { query, title_lower, artist_lower } =>
                FetchStageView::BroadSearch {
                query: query@,
                title_lower: title_lower@,
                artist_lower: artist_lower@,
            },
        }
    }
}

impl View for FetchStep {
    type V = FetchStepView;

    open spec fn view(&self) -> FetchStepView {
        match self {
            FetchStep::Finished => FetchStepView::Finished,
            FetchStep::Request { url, stage } => FetchStepView::Request { url: url@, stage: stage@ },
        }
    }
}

/// The tracks of an answer; no answer counts as no tracks.
pub open spec fn tracks_of(results: Option<Vec<AppleTrack>>) -> Seq<AppleTrack> {
    match results {
        Some(v) => v@,
        None => Seq::empty(),
    }
}

/// How a search starts for `song`, given the cache: a song cached under its
/// title and artist takes the cached artwork and the search is over;
/// otherwise nothing changes yet, and the store id is looked up when the
/// song has one, else title and artist are searched for.
pub open spec fn fetch_started(
    song: SongInfo,
    cache: Map<Seq<char>, AppleTrack>,
    after: SongInfo,
    step: FetchStepView,
) -> bool {
    let query = search_query(song.title@, song.artist@);
    if cache.contains_key(query) {
        &&& artwork_applied(song, after, cache[query])
        &&& step == FetchStepView::Finished
    } else {
        &&& after == song
        &&& step == match song.song_id {
            Some(id) => FetchStepView::Request {
                url: lookup_url_of(id@),
                stage: FetchStageView::Lookup { song_id: id@ },
            },
            None => FetchStepView::Request {
                url: search_url_of(query),
                stage: FetchStageView::Search {
                    query,
                    title_lower: trimmed(lowercase(song.title@)),
                    artist_lower: trimmed(lowercase(song.artist@)),
                },
            },
        }
    }
}

/// The song takes `track` and the cache remembers it under `key`.
pub open spec fn track_taken(
    song: SongInfo,
    cache: Map<Seq<char>, AppleTrack>,
    after: SongInfo,
    cache_after: Map<Seq<char>, AppleTrack>,
    key: Seq<char>,
    track: AppleTrack,
) -> bool {
    &&& artwork_applied(song, after, track)
    &&& cache_after == cache_after_insert(cache, key, track)
}

/// Neither the song nor the cache changes.
pub open spec fn nothing_taken(
    song: SongInfo,
    cache: Map<Seq<char>, AppleTrack>,
    after: SongInfo,
    cache_after: Map<Seq<char>, AppleTrack>,
) -> bool {
    after == song && cache_after == cache
}

/// How a search goes on with the `tracks` answered at `stage`:
/// - after a lookup, the first track, if any, is taken and cached under the
///   store id, and the search is over (`begin_fetch` looks the cache up under
///   title and artist only, so it never reads an entry kept under a store id:
///   a song with a store id is looked up again at each fetch);
/// - after a search by title and artist, the first track that matches
///   (equal or contained titles) is taken and cached under the query, and
///   the search is over; when none matches, the artist alone is searched for;
/// - after a search by artist, the first track that matches (contained
///   titles) is taken and cached under the query, and the search is over.
pub open spec fn fetch_continued(
    song: SongInfo,
    cache: Map<Seq<char>, AppleTrack>,
    stage: FetchStageView,
    tracks: Seq<AppleTrack>,
    after: SongInfo,
    cache_after: Map<Seq<char>, AppleTrack>,
    step: FetchStepView,
) -> bool {
    match stage {
        FetchStageView::Lookup { song_id } => {
            &&& step == FetchStepView::Finished
            &&& if tracks.len() > 0 {
                track_taken(song, cache, after, cache_after, song_id, tracks[0])
            } else {
                nothing_taken(song, cache, after, cache_after)
            }
        },
        FetchStageView::Search { query, title_lower, artist_lower } => {
            match first_accepted(tracks, title_lower, artist_lower, true) {
                Some(k) => {
                    &&& step == FetchStepView::Finished
                    &&& track_taken(song, cache, after, cache_after, query, tracks[k])
                },
                None => {
                    &&& nothing_taken(song, cache, after, cache_after)
                    &&& step == FetchStepView::Request {
                        url: broad_search_url_of(song.artist@),
                        stage: FetchStageView::BroadSearch { query, title_lower, artist_lower },
                    }
                },
            }
        },
        FetchStageView::BroadSearch { query, title_lower, artist_lower } => {
            &&& step == FetchStepView::Finished
            &&& match first_accepted(tracks, title_lower, artist_lower, false) {
                Some(k) => track_taken(song, cache, after, cache_after, query, tracks[k]),
                None => nothing_taken(song, cache, after, cache_after),
            }
        },
    }
}

impl SongInfo {
    /// Starts the search for this song's artwork and link.
    pub fn begin_fetch(&mut self, cache: &SongCache) -> (step: FetchStep)
        ensures
            fetch_started(*old(self), cache@, *final(self), step@),
    {
        let query = search_query_text(self.title.as_str(), self.artist.as_str());
        if let Some(cached_track) = cache.get(query.as_str()) {
            self.set_artwork(cached_track);
            return FetchStep::Finished;
        }
        match &self.song_id {
            Some(song_id) => FetchStep::Request {
                url: lookup_url(song_id.as_str()),
                stage: FetchStage::Lookup { song_id: song_id.clone() },
            },
            None => {
                let title_lower = to_lowercase(self.title.as_str());
                let artist_lower = to_lowercase(self.artist.as_str());
                FetchStep::Request {
                    url: search_url(query.as_str()),
                    stage: FetchStage::Search {
                        query,
                        title_lower: trim(title_lower.as_str()),
                        artist_lower: trim(artist_lower.as_str()),
                    },
                }
            },
        }
    }

    /// Goes on with the search after the answer `results` to the request
    /// made for `stage` (`None` when the request or its decoding failed).
    pub fn continue_fetch(
        &mut self,
        cache: &mut SongCache,
        stage: FetchStage,
        results: Option<Vec<AppleTrack>>,
    ) -> (step: FetchStep)
        ensures
            fetch_continued(
                *old(self),
                old(cache)@,
                stage@,
                tracks_of(results),
                *final(self),
                final(cache)@,
                step@,
            ),
    {
        let mut tracks = match results {
            Some(v) => v,
            None => Vec::new(),
        };
        match stage {
            FetchStage::Lookup { song_id } => {
                if tracks.len() > 0 {
                    let track = tracks.remove(0);
                    self.set_artwork(&track);
                    self.set_cache(cache, song_id, track);
                }
                FetchStep::Finished
            },
            FetchStage::Search { query, title_lower, artist_lower } => {
                match find_track(&tracks, title_lower.as_str(), artist_lower.as_str(), true) {
                    Some(k) => {
                        let track = tracks.remove(k);
                        self.set_artwork(&track);
                        self.set_cache(cache, query, track);
                        FetchStep::Finished
                    },
                    None => FetchStep::Request {
                        url: broad_search_url(self.artist.as_str()),
                        stage: FetchStage::BroadSearch { query, title_lower, artist_lower },
                    },
                }
            },
            FetchStage::BroadSearch { query, title_lower, artist_lower } => {
                if let Some(k) = find_track(
                    &tracks,
                    title_lower.as_str(),
                    artist_lower.as_str(),
                    false,
                ) {
                    let track = tracks.remove(k);
                    self.set_artwork(&track);
                    self.set_cache(cache, query, track);
                }
                FetchStep::Finished
            },
        }
    }
}

/// A song found by a search is served from the cache when it is fetched
/// again: once a search by title and artist (or by artist alone) has taken a
/// track, the next fetch of a song with that title and artist ends at once
/// with the same track's artwork.
pub proof fn lemma_found_song_is_cached(
    song: SongInfo,
    cache: Map<Seq<char>, AppleTrack>,
    stage: FetchStageView,
    tracks: Seq<AppleTrack>,
    after: SongInfo,
    cache_after: Map<Seq<char>, AppleTrack>,
    step: FetchStepView,
    next: SongInfo,
    next_after: SongInfo,
    next_step: FetchStepView,
)
    requires
        fetch_continued(song, cache, stage, tracks, after, cache_after, step),
        match stage {
            FetchStageView::Search { query, title_lower, artist_lower } => {
                &&& query == search_query(next.title@, next.artist@)
                &&& first_accepted(tracks, title_lower, artist_lower, true) is Some
            },
            FetchStageView::BroadSearch { query, title_lower, artist_lower } => {
                &&& query == search_query(next.title@, next.artist@)
                &&& first_accepted(tracks, title_lower, artist_lower, false) is Some
            },
            FetchStageView::Lookup { .. } => false,
        },
        fetch_started(next, cache_after, next_after, next_step),
    ensures
        next_step == FetchStepView::Finished,
        exists|k: int|
            0 <= k < tracks.len() && #[trigger] artwork_applied(next, next_after, tracks[k]),
{
    match stage {
        FetchStageView::Search { query, title_lower, artist_lower } => {
            let k = first_accepted(tracks, title_lower, artist_lower, true)->0;
            assert(cache_after == cache_after_insert(cache, query, tracks[k]));
            assert(cache_after.contains_key(query) && cache_after[query] == tracks[k]);
            assert(artwork_applied(next, next_after, tracks[k]));
        },
        FetchStageView::BroadSearch { query, title_lower, artist_lower } => {
            let k = first_accepted(tracks, title_lower, artist_lower, false)->0;
            assert(cache_after == cache_after_insert(cache, query, tracks[k]));
            assert(cache_after.contains_key(query) && cache_after[query] == tracks[k]);
            assert(artwork_applied(next, next_after, tracks[k]));
        },
        FetchStageView::Lookup { .. } => {},
    }
}

/// Fetching never changes what the player reported of a song: each step
/// keeps its title, artist, length, playing state, position and store id.
pub proof fn lemma_fetch_keeps_report(
    song: SongInfo,
    cache: Map<Seq<char>, AppleTrack>,
    stage: FetchStageView,
    tracks: Seq<AppleTrack>,
    after: SongInfo,
    cache_after: Map<Seq<char>, AppleTrack>,
    step: FetchStepView,
    started_after: SongInfo,
    start_step: FetchStepView,
)
    requires
        fetch_continued(song, cache, stage, tracks, after, cache_after, step),
        fetch_started(song, cache, started_after, start_step),
    ensures
        same_report(song, after),
        same_report(song, started_after),
{
}

/// After a search answer, the song and the cache change only by taking a
/// track that the search accepts: when no track of the answer is accepted
/// (title and artist test, with the stage's exact flag), neither changes;
/// otherwise the song takes the first accepted track's artwork and link and
/// the cache keeps that track under the query. After a lookup, the song and
/// cache change only by taking the first track of the answer, kept under
/// the store id.
pub proof fn lemma_fetch_takes_only_accepted(
    song: SongInfo,
    cache: Map<Seq<char>, AppleTrack>,
    stage: FetchStageView,
    tracks: Seq<AppleTrack>,
    after: SongInfo,
    cache_after: Map<Seq<char>, AppleTrack>,
    step: FetchStepView,
)
    requires
        fetch_continued(song, cache, stage, tracks, after, cache_after, step),
    ensures
        match stage {
            FetchStageView::Lookup { song_id } => {
                &&& tracks.len() == 0 ==> after == song && cache_after == cache
                &&& tracks.len() > 0 ==> {
                    &&& cache_after.contains_key(song_id)
                    &&& cache_after[song_id] == tracks[0]
                    &&& opt_text(after.song_url) == opt_text(tracks[0].track_view_url)
                    &&& artwork_applied(song, after, tracks[0])
                }
            },
            FetchStageView::Search { query, title_lower, artist_lower } => {
                &&& (forall|k: int|
                    0 <= k < tracks.len() ==> !track_accepted(
                        #[trigger] tracks[k],
                        title_lower,
                        artist_lower,
                        true,
                    )) ==> after == song && cache_after == cache
                &&& (exists|k: int|
                    0 <= k < tracks.len() && #[trigger] track_accepted(
                        tracks[k],
                        title_lower,
                        artist_lower,
                        true,
                    )) ==> exists|k: int|
                    {
                        &&& 0 <= k < tracks.len()
                        &&& #[trigger] track_accepted(tracks[k], title_lower, artist_lower, true)
                        &&& forall|j: int|
                            0 <= j < k ==> !track_accepted(
                                #[trigger] tracks[j],
                                title_lower,
                                artist_lower,
                                true,
                            )
                        &&& cache_after.contains_key(query)
                        &&& cache_after[query] == tracks[k]
                        &&& opt_text(after.song_url) == opt_text(tracks[k].track_view_url)
                        &&& artwork_applied(song, after, tracks[k])
                    }
            },
            FetchStageView::BroadSearch { query, title_lower, artist_lower } => {
                &&& (forall|k: int|
                    0 <= k < tracks.len() ==> !track_accepted(
                        #[trigger] tracks[k],
                        title_lower,
                        artist_lower,
                        false,
                    )) ==> after == song && cache_after == cache
                &&& (exists|k: int|
                    0 <= k < tracks.len() && #[trigger] track_accepted(
                        tracks[k],
                        title_lower,
                        artist_lower,
                        false,
                    )) ==> exists|k: int|
                    {
                        &&& 0 <= k < tracks.len()
                        &&& #[trigger] track_accepted(tracks[k], title_lower, artist_lower, false)
                        &&& forall|j: int|
                            0 <= j < k ==> !track_accepted(
                                #[trigger] tracks[j],
                                title_lower,
                                artist_lower,
                                false,
                            )
                        &&& cache_after.contains_key(query)
                        &&& cache_after[query] == tracks[k]
                        &&& opt_text(after.song_url) == opt_text(tracks[k].track_view_url)
                        &&& artwork_applied(song, after, tracks[k])
                    }
            },
        },
{
    match stage {
        FetchStageView::Lookup { song_id } => {},
        FetchStageView::Search { query, title_lower, artist_lower } => {
            lemma_first_accepted_is_least(tracks, title_lower, artist_lower, true);
            if let Some(k) = first_accepted(tracks, title_lower, artist_lower, true) {
                assert(track_accepted(tracks[k], title_lower, artist_lower, true));
            }
        },
        FetchStageView::BroadSearch { query, title_lower, artist_lower } => {
            lemma_first_accepted_is_least(tracks, title_lower, artist_lower, false);
            if let Some(k) = first_accepted(tracks, title_lower, artist_lower, false) {
                assert(track_accepted(tracks[k], title_lower, artist_lower, false));
            }
        },
    }
}

} // verus!
