use apple_music_rpc::cache::{SongCache, MAX_CACHE_ENTRIES};
use apple_music_rpc::itunes::AppleTrack;

fn track(name: &str) -> AppleTrack {
    AppleTrack {
        track_name: name.to_string(),
        artist_name: "artist".to_string(),
        artwork_url100: None,
        track_view_url: None,
    }
}

#[test]
fn empty_cache_has_nothing() {
    let c = SongCache::new();
    assert_eq!(c.len(), 0);
    assert!(c.get("x").is_none());
}

#[test]
fn read_after_write() {
    let mut c = SongCache::new();
    c.insert("k".to_string(), track("one"));
    assert_eq!(c.get("k").unwrap().track_name, "one");
    c.insert("k".to_string(), track("two"));
    assert_eq!(c.get("k").unwrap().track_name, "two");
    assert_eq!(c.len(), 1);
}

#[test]
fn full_cache_starts_afresh() {
    let mut c = SongCache::new();
    for i in 0..MAX_CACHE_ENTRIES {
        c.insert(format!("key{}", i), track("t"));
    }
    assert_eq!(c.len(), 128);
    assert!(c.get("key0").is_some());
    c.insert("new".to_string(), track("n"));
    assert_eq!(c.len(), 1);
    assert!(c.get("key0").is_none());
    assert_eq!(c.get("new").unwrap().track_name, "n");
}

#[test]
fn full_cache_is_emptied_even_for_a_known_key() {
    let mut c = SongCache::new();
    for i in 0..MAX_CACHE_ENTRIES {
        c.insert(format!("key{}", i), track("t"));
    }
    c.insert("key5".to_string(), track("again"));
    assert_eq!(c.len(), 1);
    assert_eq!(c.get("key5").unwrap().track_name, "again");
}

#[test]
fn below_the_bound_nothing_is_lost() {
    let mut c = SongCache::new();
    for i in 0..(MAX_CACHE_ENTRIES - 1) {
        c.insert(format!("key{}", i), track("t"));
    }
    c.insert("last".to_string(), track("l"));
    assert_eq!(c.len(), 128);
    assert!(c.get("key0").is_some());
}
