use apple_music_rpc::itunes::{
    accepts_track, broad_search_url, find_track, lookup_url, search_query_text, search_url,
    AppleApiResponse, AppleTrack,
};

fn track(name: &str, artist: &str) -> AppleTrack {
    AppleTrack {
        track_name: name.to_string(),
        artist_name: artist.to_string(),
        artwork_url100: None,
        track_view_url: None,
    }
}

#[test]
fn query_is_title_space_artist() {
    assert_eq!(search_query_text("Hello", "Adele"), "Hello Adele");
    assert_eq!(search_query_text("", ""), " ");
}

#[test]
fn lookup_url_appends_id() {
    assert_eq!(lookup_url("1440857781"), "https://itunes.apple.com/lookup?id=1440857781");
}

#[test]
fn search_url_percent_encodes_query() {
    assert_eq!(
        search_url("Hello Adele"),
        "https://itunes.apple.com/search?term=Hello%20Adele&entity=song&limit=5"
    );
    assert_eq!(
        search_url("Beyoncé & Jay-Z ~._"),
        "https://itunes.apple.com/search?term=Beyonc%C3%A9%20%26%20Jay-Z%20~._&entity=song&limit=5"
    );
}

#[test]
fn broad_search_url_asks_for_two_hundred() {
    assert_eq!(
        broad_search_url("AC/DC"),
        "https://itunes.apple.com/search?term=AC%2FDC&entity=song&limit=200"
    );
}

#[test]
fn acceptance_of_titles_and_artists() {
    let t = track("Hello (Live)", "Adele & Friends");
    assert!(accepts_track(&t, "hello", "adele", true));
    assert!(accepts_track(&t, "hello (live) at wembley", "adele", false));
    assert!(!accepts_track(&t, "goodbye", "adele", true));
    assert!(!accepts_track(&t, "hello", "beyoncé", true));
    let exact = track("Hello", "Adele");
    assert!(accepts_track(&exact, "hello", "adele", true));
    assert!(accepts_track(&exact, "hello", "adele", false));
}

#[test]
fn find_track_picks_the_first_match() {
    let tracks = vec![
        track("Other", "Adele"),
        track("Hello", "Someone"),
        track("Hello", "ADELE"),
        track("Hello", "Adele"),
    ];
    assert_eq!(find_track(&tracks, "hello", "adele", true), Some(2));
    assert_eq!(find_track(&tracks, "nothing", "adele", true), None);
    assert_eq!(find_track(&Vec::new(), "hello", "adele", false), None);
}

#[test]
fn api_response_keeps_order() {
    let r = AppleApiResponse::new(vec![track("a", "b"), track("c", "d")]);
    let v = r.into_results();
    assert_eq!(v.len(), 2);
    assert_eq!(v[0].track_name, "a");
    assert_eq!(v[1].track_name, "c");
}
