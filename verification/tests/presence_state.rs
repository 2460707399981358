use apple_music_rpc::presence::{compose_activity, Connection, PresenceTracker};
use apple_music_rpc::song::SongInfo;

fn song(title: &str, playing: bool, pos: u32) -> SongInfo {
    SongInfo::new(title, "Adele", 300_000, playing, pos, None)
}

#[test]
fn first_song_refreshes() {
    let mut t = PresenceTracker::new();
    assert!(t.observe_song(&song("Hello", true, 0)));
}

#[test]
fn repeated_report_does_not_refresh() {
    let mut t = PresenceTracker::new();
    let s = song("Hello", true, 10_000);
    assert!(t.observe_song(&s));
    assert!(!t.observe_song(&s));
    assert!(!t.observe_song(&song("Hello", true, 11_000)));
}

#[test]
fn title_or_state_change_refreshes() {
    let mut t = PresenceTracker::new();
    t.observe_song(&song("Hello", true, 10_000));
    assert!(t.observe_song(&song("Hello", false, 10_000)));
    assert!(!t.observe_song(&song("Hello", false, 0)));
    assert!(t.observe_song(&song("Skyfall", false, 0)));
}

#[test]
fn seeking_back_refreshes_only_beyond_tolerance() {
    let mut t = PresenceTracker::new();
    t.observe_song(&song("Hello", true, 10_000));
    assert!(!t.observe_song(&song("Hello", true, 7_000)));
    assert!(t.observe_song(&song("Hello", true, 3_000)));
    assert!(!t.observe_song(&song("Hello", true, 1_000)));
}

#[test]
fn silence_clears_title_only_while_connected() {
    let mut t = PresenceTracker::new();
    t.observe_song(&song("Hello", true, 0));
    assert!(!t.observe_silence(false));
    assert!(!t.observe_song(&song("Hello", true, 0)));
    assert!(t.observe_silence(true));
    assert!(t.observe_song(&song("Hello", true, 0)));
}

#[test]
fn connection_flag() {
    let mut c = Connection::new();
    assert!(!c.is_connected());
    assert!(c.should_connect());
    c.record_connect(false);
    assert!(!c.is_connected());
    c.record_connect(true);
    assert!(c.is_connected());
    assert!(!c.should_connect());
    assert!(c.should_disconnect());
    c.record_disconnect(false);
    assert!(c.is_connected());
    c.record_disconnect(true);
    assert!(!c.is_connected());
}

#[test]
fn activity_for_a_playing_song() {
    let mut s = SongInfo::new("Hello", "Adele", 295_500, true, 12_250, None);
    s.cover_url = Some("cover".to_string());
    s.song_url = Some("link".to_string());
    let a = compose_activity(&s, 1_700_000_000);
    assert_eq!(a.name, "Hello");
    assert_eq!(a.details, "Hello");
    assert_eq!(a.state, "by Adele");
    assert_eq!(a.details_url, "link");
    assert_eq!(a.large_image, "cover");
    assert_eq!(a.large_text, "Hello by Adele");
    assert_eq!(a.small_image, "apple_music_logo");
    assert_eq!(a.small_text, "Apple Music");
    assert_eq!(a.buttons.len(), 2);
    assert_eq!(a.buttons[0].label, "Play on Apple Music");
    assert_eq!(a.buttons[0].url, "link");
    assert_eq!(a.buttons[1].label, "Github Repository");
    assert_eq!(a.buttons[1].url, "https://github.com/sudoabc/apple_music_rpc");
    let ts = a.timestamps.unwrap();
    assert_eq!(ts.start, 1_700_000_000 - 12);
    assert_eq!(ts.end, 1_700_000_000 - 12 + 295);
}

#[test]
fn activity_for_a_paused_song_uses_defaults() {
    let s = SongInfo::new("Hello", "Adele", 295_500, false, 12_250, None);
    let a = compose_activity(&s, 5);
    assert_eq!(a.details_url, "https://music.apple.com");
    assert_eq!(a.large_image, "apple_music_logo");
    assert_eq!(a.buttons[0].url, "https://music.apple.com");
    assert!(a.timestamps.is_none());
}

#[test]
fn link_is_up_after_a_successful_connect_not_undone() {
    let mut c = Connection::new();
    c.record_connect(true);
    c.record_disconnect(false);
    c.record_connect(false);
    assert!(c.is_connected());
    c.record_disconnect(true);
    c.record_connect(false);
    assert!(!c.is_connected());
    c.record_connect(true);
    assert!(c.is_connected());
}
