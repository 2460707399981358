use apple_music_rpc::cache::SongCache;
use apple_music_rpc::itunes::AppleTrack;
use apple_music_rpc::song::SongInfo;

fn track(name: &str, artist: &str, art: Option<&str>, url: Option<&str>) -> AppleTrack {
    AppleTrack {
        track_name: name.to_string(),
        artist_name: artist.to_string(),
        artwork_url100: art.map(|s| s.to_string()),
        track_view_url: url.map(|s| s.to_string()),
    }
}

#[test]
fn new_keeps_reported_fields() {
    let s = SongInfo::new("Blinding Lights", "The Weeknd", 200_000, true, 1_500, Some("123".to_string()));
    assert_eq!(s.title, "Blinding Lights");
    assert_eq!(s.artist, "The Weeknd");
    assert_eq!(s.length_ms, 200_000);
    assert!(s.is_playing);
    assert_eq!(s.position_ms, 1_500);
    assert_eq!(s.song_id.as_deref(), Some("123"));
    assert_eq!(s.cover_url, None);
    assert_eq!(s.song_url, None);
}

#[test]
fn new_strips_hyphen_suffix() {
    let s = SongInfo::new("Song", "Artist - Album Name", 1, false, 0, None);
    assert_eq!(s.artist, "Artist");
}

#[test]
fn new_strips_em_dash_suffix() {
    let s = SongInfo::new("Song", "Daft Punk — Random Access Memories", 1, false, 0, None);
    assert_eq!(s.artist, "Daft Punk");
}

#[test]
fn new_keeps_hyphenated_names() {
    let s = SongInfo::new("Song", "Jay-Z", 1, false, 0, None);
    assert_eq!(s.artist, "Jay-Z");
    let s = SongInfo::new("Song", "A-ha -Live", 1, false, 0, None);
    assert_eq!(s.artist, "A-ha -Live");
}

#[test]
fn new_trims_artist_but_not_title() {
    let s = SongInfo::new("  Title  ", "\t Artist \u{3000}", 1, false, 0, None);
    assert_eq!(s.title, "  Title  ");
    assert_eq!(s.artist, "Artist");
}

#[test]
fn from_stripped_artist_only_trims() {
    let s = SongInfo::from_stripped_artist("T", "  A - B  ", 5, true, 6, None);
    assert_eq!(s.artist, "A - B");
    assert_eq!(s.length_ms, 5);
    assert_eq!(s.position_ms, 6);
}

#[test]
fn set_artwork_enlarges_cover_and_takes_link() {
    let mut s = SongInfo::new("T", "A", 1, true, 0, None);
    let t = track(
        "T",
        "A",
        Some("https://is1.mzstatic.com/image/100x100bb.jpg"),
        Some("https://music.apple.com/song/1"),
    );
    s.set_artwork(&t);
    assert_eq!(s.cover_url.as_deref(), Some("https://is1.mzstatic.com/image/512x512bb.jpg"));
    assert_eq!(s.song_url.as_deref(), Some("https://music.apple.com/song/1"));
    assert_eq!(s.title, "T");
}

#[test]
fn set_artwork_replaces_every_size_marker() {
    let mut s = SongInfo::new("T", "A", 1, true, 0, None);
    let t = track("T", "A", Some("100x100bb/100x100bb100x100bb"), None);
    s.set_artwork(&t);
    assert_eq!(s.cover_url.as_deref(), Some("512x512bb/512x512bb512x512bb"));
}

#[test]
fn set_artwork_without_artwork_keeps_cover_and_clears_link() {
    let mut s = SongInfo::new("T", "A", 1, true, 0, None);
    s.cover_url = Some("old-cover".to_string());
    s.song_url = Some("old-link".to_string());
    let t = track("T", "A", None, None);
    s.set_artwork(&t);
    assert_eq!(s.cover_url.as_deref(), Some("old-cover"));
    assert_eq!(s.song_url, None);
}

#[test]
fn set_cache_stores_under_query() {
    let s = SongInfo::new("T", "A", 1, true, 0, None);
    let mut cache = SongCache::new();
    s.set_cache(&mut cache, "T A".to_string(), track("T", "A", None, Some("u")));
    assert_eq!(cache.len(), 1);
    let got = cache.get("T A").unwrap();
    assert_eq!(got.track_view_url.as_deref(), Some("u"));
}
