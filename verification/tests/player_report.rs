use apple_music_rpc::player::{
    is_apple_music_app, parse_player_output, subscription_step, ticks_to_millis, timeline_step,
    TimelineStep,
};

#[test]
fn parses_a_playing_track() {
    let r = parse_player_output("playing|Hello|Adele|295.5|12.25|1440857781\n").unwrap();
    assert!(r.is_playing);
    assert_eq!(r.title, "Hello");
    assert_eq!(r.artist, "Adele");
    assert_eq!(r.duration_text, "295.5");
    assert_eq!(r.position_text, "12.25");
    assert_eq!(r.song_id.as_deref(), Some("1440857781"));
}

#[test]
fn decimal_commas_become_points() {
    let r = parse_player_output("  paused|T|A|295,5|12,25|None  ").unwrap();
    assert!(!r.is_playing);
    assert_eq!(r.duration_text, "295.5");
    assert_eq!(r.position_text, "12.25");
    assert_eq!(r.song_id, None);
}

#[test]
fn inner_spaces_are_kept() {
    let r = parse_player_output("playing| T |A - B|1|2|x").unwrap();
    assert_eq!(r.title, " T ");
    assert_eq!(r.artist, "A - B");
}

#[test]
fn blank_or_malformed_output_is_no_track() {
    assert!(parse_player_output("").is_none());
    assert!(parse_player_output(" \n ").is_none());
    assert!(parse_player_output("playing|T|A|1|2").is_none());
    assert!(parse_player_output("playing|T|A|1|2|3|4").is_none());
    assert!(parse_player_output("playing|T|A|B|1|2|3").is_none());
}

#[test]
fn apple_music_session_is_recognized() {
    assert!(is_apple_music_app("AppleInc.AppleMusicWin_nzyj5cx40ttqa!App"));
    assert!(!is_apple_music_app("Spotify.exe"));
}

#[test]
fn ticks_become_milliseconds() {
    assert_eq!(ticks_to_millis(2_950_000_000), 295_000);
    assert_eq!(ticks_to_millis(9_999), 0);
    assert_eq!(ticks_to_millis(0), 0);
    assert_eq!(ticks_to_millis(-25_000), (-25_000i64 / 10_000) as u32);
    assert_eq!(ticks_to_millis(i64::MAX), (i64::MAX / 10_000) as u32);
}

#[test]
fn handlers_are_registered_once_per_appearance() {
    assert_eq!(subscription_step(false, true), (true, true));
    assert_eq!(subscription_step(true, true), (false, true));
    assert_eq!(subscription_step(true, false), (false, false));
    assert_eq!(subscription_step(false, false), (false, false));
}

#[test]
fn timeline_is_read_at_most_ten_times() {
    assert_eq!(timeline_step(0, Some(1)), TimelineStep::Take);
    assert_eq!(timeline_step(9, Some(295_000)), TimelineStep::Take);
    assert_eq!(timeline_step(0, Some(0)), TimelineStep::WaitAndRetry);
    assert_eq!(timeline_step(8, None), TimelineStep::WaitAndRetry);
    assert_eq!(timeline_step(9, Some(0)), TimelineStep::WaitAndStop);
    assert_eq!(timeline_step(9, None), TimelineStep::WaitAndStop);
}

#[test]
fn handlers_follow_session_appearances_over_rounds() {
    let rounds = [true, true, false, true, false, false, true, true];
    let mut subscribed = false;
    let mut registered_in = Vec::new();
    for (k, found) in rounds.iter().enumerate() {
        let (register, now) = subscription_step(subscribed, *found);
        subscribed = now;
        if register {
            registered_in.push(k);
        }
    }
    assert_eq!(registered_in, vec![0, 3, 6]);
    assert!(subscribed);
}
