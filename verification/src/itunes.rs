//! The iTunes search API: its results, the URLs that are asked, and how a
//! result is chosen for a song.

use vstd::prelude::*;
use vstd::utf8::encode_utf8;

use crate::text::{concat_text, contains, contains_seq, lowercase, same_text, to_lowercase};

verus! {

/// The start of a lookup by iTunes store id.
pub const LOOKUP_URL: &'static str = "https://itunes.apple.com/lookup?id=";

/// The start of a search by terms.
pub const SEARCH_URL: &'static str = "https://itunes.apple.com/search?term=";

/// The parameters of a search by title and artist: songs, at most five.
pub const SEARCH_PARAMS: &'static str = "&entity=song&limit=5";

/// The parameters of a search by artist alone: songs, at most two hundred.
pub const BROAD_SEARCH_PARAMS: &'static str = "&entity=song&limit=200";

/// Bytes that percent-encoding leaves as they are: ASCII letters and digits,
/// `-`, `.`, `_` and `~`.
pub open spec fn is_unreserved_byte(b: u8) -> bool {
    ||| 0x30 <= b <= 0x39
    ||| 0x41 <= b <= 0x5A
    ||| 0x61 <= b <= 0x7A
    ||| b == 0x2D
    ||| b == 0x2E
    ||| b == 0x5F
    ||| b == 0x7E
}

/// The upper-case hexadecimal digit of `d` (below 16).
pub open spec fn hex_digit(d: u8) -> char {
    if d < 10 {
        (0x30 + d) as char
    } else {
        (0x37 + d) as char
    }
}

/// `bytes` percent-encoded: each unreserved byte as its character, every
/// other byte as `%` and two upper-case hexadecimal digits.
pub open spec fn percent_encoded(bytes: Seq<u8>) -> Seq<char>
    decreases bytes.len(),
{
    if bytes.len() == 0 {
        Seq::empty()
    } else {
        let b = bytes[0];
        (if is_unreserved_byte(b) {
            seq![b as char]
        } else {
            seq!['%', hex_digit(b / 16), hex_digit(b % 16)]
        }) + percent_encoded(bytes.drop_first())
    }
}

/// `urlencoding::encode`, made owned. As its source shows, it percent-encodes
/// every byte of the UTF-8 encoding of `s` except ASCII alphanumerics and
/// `-`, `_`, `.`, `~`, with upper-case hexadecimal digits.
#[verifier::external_body]
fn url_encode(s: &str) -> (r: String)
    ensures
        r@ == percent_encoded(encode_utf8(s@)),
{
    urlencoding::encode(s).into_owned()
}

/// The text a song is searched for and cached under: title, a space, artist.
pub open spec fn search_query(title: Seq<char>, artist: Seq<char>) -> Seq<char> {
    title + seq![' '] + artist
}

/// The URL that looks a track up by its store id.
pub open spec fn lookup_url_of(song_id: Seq<char>) -> Seq<char> {
    LOOKUP_URL@ + song_id
}

/// The URL that searches for songs matching `query`, at most five.
pub open spec fn search_url_of(query: Seq<char>) -> Seq<char> {
    SEARCH_URL@ + percent_encoded(encode_utf8(query)) + SEARCH_PARAMS@
}

/// The URL that searches for songs of `artist`, at most two hundred.
pub open spec fn broad_search_url_of(artist: Seq<char>) -> Seq<char> {
    SEARCH_URL@ + percent_encoded(encode_utf8(artist)) + BROAD_SEARCH_PARAMS@
}

/// The text a song is searched for: `title`, a space, `artist`.
pub fn search_query_text(title: &str, artist: &str) -> (q: String)
    ensures
        q@ == search_query(title@, artist@),
{
    let with_space = concat_text(title, " ");
    proof {
        reveal_strlit(" ");
    }
    let q = concat_text(with_space.as_str(), artist);
    assert(q@ =~= search_query(title@, artist@));
    q
}

/// The URL that looks a track up by its store id.
pub fn lookup_url(song_id: &str) -> (url: String)
    ensures
        url@ == lookup_url_of(song_id@),
{
    concat_text(LOOKUP_URL, song_id)
}

/// The URL that searches for songs matching `query`, at most five.
pub fn search_url(query: &str) -> (url: String)
    ensures
        url@ == search_url_of(query@),
{
    let encoded = url_encode(query);
    let start = concat_text(SEARCH_URL, encoded.as_str());
    concat_text(start.as_str(), SEARCH_PARAMS)
}

/// The URL that searches for songs of `artist`, at most two hundred.
pub fn broad_search_url(artist: &str) -> (url: String)
    ensures
        url@ == broad_search_url_of(artist@),
{
    let encoded = url_encode(artist);
    let start = concat_text(SEARCH_URL, encoded.as_str());
    concat_text(start.as_str(), BROAD_SEARCH_PARAMS)
}

/// A result title (lower-cased) matches the searched title (lower-cased and
/// trimmed) when one contains the other, or, when `exact_allowed`, when the
/// two are equal.
pub open spec fn title_accepted(api_title: Seq<char>, title_lower: Seq<char>, exact_allowed: bool) -> bool {
    ||| exact_allowed && api_title == title_lower
    ||| contains_seq(api_title, title_lower)
    ||| contains_seq(title_lower, api_title)
}

/// `track` matches a song with the given lower-cased title and artist: its
/// title matches, and its lower-cased artist contains the artist.
pub open spec fn track_accepted(
    track: AppleTrack,
    title_lower: Seq<char>,
    artist_lower: Seq<char>,
    exact_allowed: bool,
) -> bool {
    &&& title_accepted(lowercase(track.track_name@), title_lower, exact_allowed)
    &&& contains_seq(lowercase(track.artist_name@), artist_lower)
}

/// `k` is the position of the first track that matches.
pub open spec fn is_first_accepted(
    tracks: Seq<AppleTrack>,
    k: int,
    title_lower: Seq<char>,
    artist_lower: Seq<char>,
    exact_allowed: bool,
) -> bool {
    &&& 0 <= k < tracks.len()
    &&& track_accepted(tracks[k], title_lower, artist_lower, exact_allowed)
    &&& forall|j: int|
        0 <= j < k ==> !track_accepted(#[trigger] tracks[j], title_lower, artist_lower, exact_allowed)
}

/// The position of the first track that matches, if any does.
pub open spec fn first_accepted(
    tracks: Seq<AppleTrack>,
    title_lower: Seq<char>,
    artist_lower: Seq<char>,
    exact_allowed: bool,
) -> Option<int> {
    if exists|k: int| is_first_accepted(tracks, k, title_lower, artist_lower, exact_allowed) {
        Some(
            choose|k: int| is_first_accepted(tracks, k, title_lower, artist_lower, exact_allowed),
        )
    } else {
        None
    }
}

/// Only one position is the first that matches.
pub proof fn lemma_first_accepted_unique(
    tracks: Seq<AppleTrack>,
    k1: int,
    k2: int,
    title_lower: Seq<char>,
    artist_lower: Seq<char>,
    exact_allowed: bool,
)
    requires
        is_first_accepted(tracks, k1, title_lower, artist_lower, exact_allowed),
        is_first_accepted(tracks, k2, title_lower, artist_lower, exact_allowed),
    ensures
        k1 == k2,
{
    if k1 < k2 {
        assert(!track_accepted(tracks[k1], title_lower, artist_lower, exact_allowed));
    } else if k2 < k1 {
        assert(!track_accepted(tracks[k2], title_lower, artist_lower, exact_allowed));
    }
}

/// Some track at or before an accepted one is the first accepted.
proof fn lemma_some_first_accepted(
    tracks: Seq<AppleTrack>,
    k: int,
    title_lower: Seq<char>,
    artist_lower: Seq<char>,
    exact_allowed: bool,
)
    requires
        0 <= k < tracks.len(),
        track_accepted(tracks[k], title_lower, artist_lower, exact_allowed),
    ensures
        exists|j: int| 0 <= j <= k && is_first_accepted(tracks, j, title_lower, artist_lower, exact_allowed),
    decreases k,
{
    if exists|i: int| 0 <= i < k && track_accepted(tracks[i], title_lower, artist_lower, exact_allowed) {
        let i = choose|i: int|
            0 <= i < k && track_accepted(tracks[i], title_lower, artist_lower, exact_allowed);
        lemma_some_first_accepted(tracks, i, title_lower, artist_lower, exact_allowed);
    } else {
        assert(is_first_accepted(tracks, k, title_lower, artist_lower, exact_allowed));
    }
}

/// The search finds a track exactly when some track is accepted, and what it
/// finds is the accepted track that comes first: accepted, with no accepted
/// track before it.
pub proof fn lemma_first_accepted_is_least(
    tracks: Seq<AppleTrack>,
    title_lower: Seq<char>,
    artist_lower: Seq<char>,
    exact_allowed: bool,
)
    ensures
        (exists|k: int|
            0 <= k < tracks.len() && #[trigger] track_accepted(
                tracks[k],
                title_lower,
                artist_lower,
                exact_allowed,
            )) <==> first_accepted(tracks, title_lower, artist_lower, exact_allowed) is Some,
        first_accepted(tracks, title_lower, artist_lower, exact_allowed) matches Some(j) ==> {
            &&& 0 <= j < tracks.len()
            &&& track_accepted(tracks[j], title_lower, artist_lower, exact_allowed)
            &&& forall|i: int|
                0 <= i < j ==> !track_accepted(
                    #[trigger] tracks[i],
                    title_lower,
                    artist_lower,
                    exact_allowed,
                )
        },
{
    if exists|k: int|
        0 <= k < tracks.len() && #[trigger] track_accepted(
            tracks[k],
            title_lower,
            artist_lower,
            exact_allowed,
        ) {
        let k = choose|k: int|
            0 <= k < tracks.len() && #[trigger] track_accepted(
                tracks[k],
                title_lower,
                artist_lower,
                exact_allowed,
            );
        lemma_some_first_accepted(tracks, k, title_lower, artist_lower, exact_allowed);
    }
}

/// Whether `track` matches a song with the given lower-cased title and
/// artist.
pub fn accepts_track(track: &AppleTrack, title_lower: &str, artist_lower: &str, exact_allowed: bool) -> (r: bool)
    ensures
        r == track_accepted(*track, title_lower@, artist_lower@, exact_allowed),
{
    let api_title = to_lowercase(track.track_name.as_str());
    let title_ok = (exact_allowed && same_text(api_title.as_str(), title_lower)) || contains(
        api_title.as_str(),
        title_lower,
    ) || contains(title_lower, api_title.as_str());
    if !title_ok {
        return false;
    }
    let api_artist = to_lowercase(track.artist_name.as_str());
    contains(api_artist.as_str(), artist_lower)
}

/// The position of the first track that matches a song with the given
/// lower-cased title and artist.
pub fn find_track(tracks: &Vec<AppleTrack>, title_lower: &str, artist_lower: &str, exact_allowed: bool) -> (r: Option<usize>)
    ensures
        match r {
            Some(k) => first_accepted(tracks@, title_lower@, artist_lower@, exact_allowed) == Some(k as int),
            None => first_accepted(tracks@, title_lower@, artist_lower@, exact_allowed) is None,
        },
        r matches Some(k) ==> {
            &&& k < tracks@.len()
            &&& track_accepted(tracks@[k as int], title_lower@, artist_lower@, exact_allowed)
            &&& forall|j: int|
                0 <= j < k ==> !track_accepted(
                    #[trigger] tracks@[j],
                    title_lower@,
                    artist_lower@,
                    exact_allowed,
                )
        },
        r is None ==> forall|k: int|
            0 <= k < tracks@.len() ==> !track_accepted(
                #[trigger] tracks@[k],
                title_lower@,
                artist_lower@,
                exact_allowed,
            ),
{
    let n = tracks.len();
    let mut i: usize = 0;
    while i < n
        invariant
            n == tracks@.len(),
            i <= n,
            forall|j: int| 0 <= j < i ==> !track_accepted(#[trigger] tracks@[j], title_lower@, artist_lower@, exact_allowed),
        decreases n - i,
    {
        if accepts_track(&tracks[i], title_lower, artist_lower, exact_allowed) {
            proof {
                let ghost k = i as int;
                assert(is_first_accepted(tracks@, k, title_lower@, artist_lower@, exact_allowed));
                let ghost c = choose|c: int| is_first_accepted(tracks@, c, title_lower@, artist_lower@, exact_allowed);
                lemma_first_accepted_unique(tracks@, k, c, title_lower@, artist_lower@, exact_allowed);
            }
            return Some(i);
        }
        i = i + 1;
    }
    assert forall|k: int| !is_first_accepted(tracks@, k, title_lower@, artist_lower@, exact_allowed) by {
        if 0 <= k < n {
            assert(!track_accepted(tracks@[k], title_lower@, artist_lower@, exact_allowed));
        }
    }
    None
}

/// One track of an iTunes API answer.
#[derive(Clone, Debug)]
pub struct AppleTrack {
    pub track_name: String,
    pub artist_name: String,
    pub artwork_url100: Option<String>,
    pub track_view_url: Option<String>,
}

/// An iTunes API answer: the tracks it lists, in order.
#[derive(Clone, Debug)]
pub struct AppleApiResponse {
    results: Vec<AppleTrack>,
}

impl AppleApiResponse {
    /// An answer listing `results`.
    pub fn new(results: Vec<AppleTrack>) -> (r: Self)
        ensures
            r.results() == results@,
    {
        AppleApiResponse { results }
    }

    /// The tracks the answer lists.
    pub closed spec fn results(&self) -> Seq<AppleTrack> {
        self.results@
    }

    /// The tracks the answer lists, in order.
    pub fn into_results(self) -> (v: Vec<AppleTrack>)
        ensures
            v@ == self.results(),
    {
        self.results
    }
}

} // verus!
