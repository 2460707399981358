use apple_music_rpc::cache::SongCache;
use apple_music_rpc::fetch::{FetchStage, FetchStep};
use apple_music_rpc::itunes::AppleTrack;
use apple_music_rpc::song::SongInfo;

fn track(name: &str, artist: &str, art: &str) -> AppleTrack {
    AppleTrack {
        track_name: name.to_string(),
        artist_name: artist.to_string(),
        artwork_url100: Some(art.to_string()),
        track_view_url: Some(format!("link:{}", name)),
    }
}

#[test]
fn cached_song_is_done_at_once() {
    let mut cache = SongCache::new();
    cache.insert("Hello Adele".to_string(), track("Hello", "Adele", "c/100x100bb"));
    let mut s = SongInfo::new("Hello", "Adele", 1, true, 0, None);
    match s.begin_fetch(&cache) {
        FetchStep::Finished => {}
        _ => panic!("expected the cached track"),
    }
    assert_eq!(s.cover_url.as_deref(), Some("c/512x512bb"));
    assert_eq!(s.song_url.as_deref(), Some("link:Hello"));
}

#[test]
fn song_with_store_id_is_looked_up() {
    let cache = SongCache::new();
    let mut s = SongInfo::new("Hello", "Adele", 1, true, 0, Some("42".to_string()));
    let step = s.begin_fetch(&cache);
    match step {
        FetchStep::Request { url, stage: FetchStage::Lookup { song_id } } => {
            assert_eq!(url, "https://itunes.apple.com/lookup?id=42");
            assert_eq!(song_id, "42");
        }
        _ => panic!("expected a lookup"),
    }
    assert_eq!(s.cover_url, None);
}

#[test]
fn lookup_takes_first_track_and_caches_it_under_the_id() {
    let mut cache = SongCache::new();
    let mut s = SongInfo::new("Hello", "Adele", 1, true, 0, Some("42".to_string()));
    let stage = FetchStage::Lookup { song_id: "42".to_string() };
    let results = Some(vec![track("Hello", "Adele", "a/100x100bb"), track("X", "Y", "b")]);
    match s.continue_fetch(&mut cache, stage, results) {
        FetchStep::Finished => {}
        _ => panic!("expected the end"),
    }
    assert_eq!(s.cover_url.as_deref(), Some("a/512x512bb"));
    assert_eq!(cache.get("42").unwrap().track_name, "Hello");
    assert!(cache.get("Hello Adele").is_none());
}

#[test]
fn lookup_without_answer_changes_nothing() {
    let mut cache = SongCache::new();
    let mut s = SongInfo::new("Hello", "Adele", 1, true, 0, Some("42".to_string()));
    let stage = FetchStage::Lookup { song_id: "42".to_string() };
    assert!(matches!(s.continue_fetch(&mut cache, stage, None), FetchStep::Finished));
    assert_eq!(s.cover_url, None);
    assert_eq!(cache.len(), 0);
}

#[test]
fn search_then_broad_search() {
    let mut cache = SongCache::new();
    let mut s = SongInfo::new("  Hello ", "Adele - 25", 1, true, 0, None);
    assert_eq!(s.artist, "Adele");
    let step = s.begin_fetch(&cache);
    let stage = match step {
        FetchStep::Request { url, stage } => {
            assert_eq!(
                url,
                "https://itunes.apple.com/search?term=%20%20Hello%20%20Adele&entity=song&limit=5"
            );
            match &stage {
                FetchStage::Search { query, title_lower, artist_lower } => {
                    assert_eq!(query, "  Hello  Adele");
                    assert_eq!(title_lower, "hello");
                    assert_eq!(artist_lower, "adele");
                }
                _ => panic!("expected a search"),
            }
            stage
        }
        _ => panic!("expected a request"),
    };
    let miss = Some(vec![track("Other", "Adele", "x")]);
    let stage = match s.continue_fetch(&mut cache, stage, miss) {
        FetchStep::Request { url, stage } => {
            assert_eq!(url, "https://itunes.apple.com/search?term=Adele&entity=song&limit=200");
            assert!(matches!(stage, FetchStage::BroadSearch { .. }));
            stage
        }
        _ => panic!("expected the broad search"),
    };
    assert_eq!(s.cover_url, None);
    let hit = Some(vec![track("Other", "Adele", "x"), track("Hello (Live)", "Adele", "h/100x100bb")]);
    assert!(matches!(s.continue_fetch(&mut cache, stage, hit), FetchStep::Finished));
    assert_eq!(s.cover_url.as_deref(), Some("h/512x512bb"));
    assert_eq!(cache.get("  Hello  Adele").unwrap().track_name, "Hello (Live)");
}

#[test]
fn search_hit_is_taken_and_cached_under_the_query() {
    let mut cache = SongCache::new();
    let mut s = SongInfo::new("Hello", "Adele", 1, true, 0, None);
    let stage = FetchStage::Search {
        query: "Hello Adele".to_string(),
        title_lower: "hello".to_string(),
        artist_lower: "adele".to_string(),
    };
    let results = Some(vec![track("hello", "ADELE", "p/100x100bb")]);
    assert!(matches!(s.continue_fetch(&mut cache, stage, results), FetchStep::Finished));
    assert_eq!(s.cover_url.as_deref(), Some("p/512x512bb"));
    assert!(cache.get("Hello Adele").is_some());
}

#[test]
fn broad_search_miss_ends_without_artwork() {
    let mut cache = SongCache::new();
    let mut s = SongInfo::new("Hello", "Adele", 1, true, 0, None);
    let stage = FetchStage::BroadSearch {
        query: "Hello Adele".to_string(),
        title_lower: "hello".to_string(),
        artist_lower: "adele".to_string(),
    };
    assert!(matches!(s.continue_fetch(&mut cache, stage, Some(vec![])), FetchStep::Finished));
    assert_eq!(s.cover_url, None);
    assert_eq!(cache.len(), 0);
}

#[test]
fn song_found_by_search_is_served_from_cache_next_time() {
    let mut cache = SongCache::new();
    let mut s = SongInfo::new("Hello", "Adele", 1, true, 0, None);
    let stage = match s.begin_fetch(&cache) {
        FetchStep::Request { stage, .. } => stage,
        _ => panic!("expected a search"),
    };
    let results = Some(vec![track("Hello", "Adele", "z/100x100bb")]);
    assert!(matches!(s.continue_fetch(&mut cache, stage, results), FetchStep::Finished));
    let mut again = SongInfo::new("Hello", "Adele", 1, false, 500, None);
    assert!(matches!(again.begin_fetch(&cache), FetchStep::Finished));
    assert_eq!(again.cover_url.as_deref(), Some("z/512x512bb"));
    assert!(!again.is_playing);
    assert_eq!(again.position_ms, 500);
}

#[test]
fn song_found_by_store_id_is_looked_up_again() {
    let mut cache = SongCache::new();
    let mut s = SongInfo::new("Hello", "Adele", 1, true, 0, Some("42".to_string()));
    let stage = match s.begin_fetch(&cache) {
        FetchStep::Request { stage, .. } => stage,
        _ => panic!("expected a lookup"),
    };
    let results = Some(vec![track("Hello", "Adele", "z")]);
    s.continue_fetch(&mut cache, stage, results);
    let mut again = SongInfo::new("Hello", "Adele", 1, true, 0, Some("42".to_string()));
    assert!(matches!(again.begin_fetch(&cache), FetchStep::Request { .. }));
}
