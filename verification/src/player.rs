//! What the music player reports: the line that the AppleScript query of the
//! Music app prints, and the values read from the Windows media session.

use vstd::prelude::*;

use crate::song::opt_text;
use crate::text::{
    chars_of, contains, contains_seq, lowercase, replace, replaced,
    same_chars, split_chars, split_on, string_of, to_lowercase, trim_chars, trimmed,
};

verus! {

/// The separator between the fields of the player's report.
pub const FIELD_SEPARATOR: char = '|';

/// The number of fields of a report.
pub const FIELD_COUNT: usize = 6;

/// The player state that means a track is playing.
pub const PLAYING_STATE: &'static str = "playing";

/// The store id the player reports for a track that has none.
pub const NO_STORE_ID: &'static str = "None";

/// The decimal comma some locales print in durations.
pub const DECIMAL_COMMA: &'static str = ",";

/// The decimal point that number parsing expects.
pub const DECIMAL_POINT: &'static str = ".";

/// What the player reports of the current track, before the numbers are
/// read.
pub struct PlayerReport {
    pub is_playing: bool,
    pub title: String,
    pub artist: String,
    /// The track's duration in seconds, as decimal text with a point.
    pub duration_text: String,
    /// The playback position in seconds, as decimal text with a point.
    pub position_text: String,
    pub song_id: Option<String>,
}

/// The fields of the player's output: the trimmed text cut at each
/// separator.
pub open spec fn report_fields(raw: Seq<char>) -> Seq<Seq<char>> {
    split_on(trimmed(raw), FIELD_SEPARATOR)
}

/// The output describes a track: it is not blank and has exactly six fields.
pub open spec fn describes_track(raw: Seq<char>) -> bool {
    trimmed(raw).len() > 0 && report_fields(raw).len() == FIELD_COUNT
}

/// `r` is what the six `fields` say: the state, title, artist, duration,
/// position (decimal commas made points) and store id (absent when `None`).
pub open spec fn report_matches(r: PlayerReport, fields: Seq<Seq<char>>) -> bool {
    &&& r.is_playing == (fields[0] == PLAYING_STATE@)
    &&& r.title@ == fields[1]
    &&& r.artist@ == fields[2]
    &&& r.duration_text@ == replaced(fields[3], DECIMAL_COMMA@, DECIMAL_POINT@)
    &&& r.position_text@ == replaced(fields[4], DECIMAL_COMMA@, DECIMAL_POINT@)
    &&& opt_text(r.song_id) == if fields[5] == NO_STORE_ID@ {
        None::<Seq<char>>
    } else {
        Some(fields[5])
    }
}

/// Reads the player's output: a track when the trimmed output is not blank
/// and has six fields, nothing otherwise.
pub fn parse_player_output(raw: &str) -> (r: Option<PlayerReport>)
    ensures
        r is Some <==> describes_track(raw@),
        r matches Some(rep) ==> report_matches(rep, report_fields(raw@)),
{
    let text = trim_chars(&chars_of(raw));
    if text.len() == 0 {
        return None;
    }
    let parts = split_chars(&text, FIELD_SEPARATOR);
    if parts.len() != FIELD_COUNT {
        return None;
    }
    proof {
        reveal_strlit(",");
    }
    let state_text = &parts[0];
    let is_playing = same_chars(state_text, &chars_of(PLAYING_STATE));
    let title = string_of(&parts[1]);
    let artist = string_of(&parts[2]);
    let duration_raw = string_of(&parts[3]);
    let position_raw = string_of(&parts[4]);
    let id_text = &parts[5];
    let song_id = if same_chars(id_text, &chars_of(NO_STORE_ID)) {
        None
    } else {
        Some(string_of(id_text))
    };
    Some(
        PlayerReport {
            is_playing,
            title,
            artist,
            duration_text: replace(duration_raw.as_str(), DECIMAL_COMMA, DECIMAL_POINT),
            position_text: replace(position_raw.as_str(), DECIMAL_COMMA, DECIMAL_POINT),
            song_id,
        },
    )
}

/// The part of the app id that marks the Apple Music session on Windows.
pub const APPLE_MUSIC_APP_ID: &'static str = "applemusicwin";

/// Whether a media session's app id is Apple Music's.
pub fn is_apple_music_app(app_id: &str) -> (b: bool)
    ensures
        b == contains_seq(lowercase(app_id@), APPLE_MUSIC_APP_ID@),
{
    let lower = to_lowercase(app_id);
    contains(lower.as_str(), APPLE_MUSIC_APP_ID)
}

/// The number of 100-nanosecond ticks in a millisecond.
pub const TICKS_PER_MILLI: i64 = 10_000;

/// Whole milliseconds in `ticks` (rounded toward zero), cut to 32 bits as
/// `as u32` does.
pub open spec fn ticks_to_millis_spec(ticks: i64) -> u32 {
    let t = ticks as int;
    let per = TICKS_PER_MILLI as int;
    let ms: int = if t >= 0 {
        t / per
    } else {
        -((-t) / per)
    };
    ms as u32
}

/// Converts a media-timeline duration in 100-nanosecond ticks to
/// milliseconds.
pub fn ticks_to_millis(ticks: i64) -> (ms: u32)
    ensures
        ms == ticks_to_millis_spec(ticks),
{
    (ticks / TICKS_PER_MILLI) as u32
}

/// Whether the session's change handlers are to be registered, and whether
/// they are registered afterwards: they are registered once per appearance
/// of the Apple Music session, and forgotten when it disappears.
pub fn subscription_step(subscribed: bool, session_found: bool) -> (r: (bool, bool))
    ensures
        r.0 == (session_found && !subscribed),
        r.1 == session_found,
{
    if session_found {
        (!subscribed, true)
    } else {
        (false, false)
    }
}

/// Whether the handlers are registered after `rounds`, each round telling
/// whether the Apple Music session was found, starting unregistered.
pub open spec fn subscribed_after(rounds: Seq<bool>) -> bool {
    if rounds.len() == 0 {
        false
    } else {
        rounds.last()
    }
}

/// Whether round `k` of `rounds` registers the handlers, as
/// `subscription_step` decides it from the state the earlier rounds left.
pub open spec fn registers_in_round(rounds: Seq<bool>, k: int) -> bool {
    rounds[k] && !subscribed_after(rounds.take(k))
}

/// One more round acts as `subscription_step` does on the state the earlier
/// rounds left: it registers when it finds the session and the handlers are
/// not registered, and leaves them registered exactly when it found it. So
/// `subscription_step`, applied round by round from the unregistered state,
/// registers in round `k` exactly when `registers_in_round(rounds, k)`.
pub proof fn lemma_subscription_follows_rounds(rounds: Seq<bool>, found: bool)
    ensures
        subscribed_after(rounds.push(found)) == found,
        registers_in_round(rounds.push(found), rounds.len() as int) == (found && !subscribed_after(
            rounds,
        )),
{
    assert(rounds.push(found).take(rounds.len() as int) =~= rounds);
}

/// A round registers the handlers exactly when it finds the session and the
/// round before (if any) did not.
pub proof fn lemma_registers_when_session_appears(rounds: Seq<bool>, k: int)
    requires
        0 <= k < rounds.len(),
    ensures
        registers_in_round(rounds, k) <==> (rounds[k] && (k == 0 || !rounds[k - 1])),
{
    if k > 0 {
        assert(rounds.take(k).last() == rounds[k - 1]);
    }
}

/// When the round before `k` found the session, some earlier round of the
/// same unbroken run of rounds that found it registered the handlers.
proof fn lemma_run_was_registered(rounds: Seq<bool>, k: int)
    requires
        0 < k < rounds.len(),
        rounds[k - 1],
    ensures
        exists|m: int|
            0 <= m < k && (forall|t: int| m <= t < k ==> #[trigger] rounds[t])
                && #[trigger] registers_in_round(rounds, m),
    decreases k,
{
    lemma_registers_when_session_appears(rounds, k - 1);
    if k - 1 == 0 || !rounds[k - 2] {
        assert(registers_in_round(rounds, k - 1));
        assert(forall|t: int| k - 1 <= t < k ==> #[trigger] rounds[t]);
    } else {
        lemma_run_was_registered(rounds, k - 1);
        let m = choose|m: int|
            0 <= m < k - 1 && (forall|t: int| m <= t < k - 1 ==> #[trigger] rounds[t])
                && #[trigger] registers_in_round(rounds, m);
        assert(forall|t: int| m <= t < k ==> #[trigger] rounds[t]);
    }
}

/// Over any sequence of rounds, the handlers are registered in round `k`
/// exactly when it finds the session and no round since the start, or since
/// the last round that found none, has registered them.
pub proof fn lemma_handlers_registered_once_per_appearance(rounds: Seq<bool>, k: int)
    requires
        0 <= k < rounds.len(),
    ensures
        registers_in_round(rounds, k) <==> (rounds[k] && forall|m: int|
            0 <= m < k && (forall|t: int| m <= t < k ==> #[trigger] rounds[t])
                ==> !#[trigger] registers_in_round(rounds, m)),
{
    lemma_registers_when_session_appears(rounds, k);
    if k > 0 && rounds[k - 1] {
        lemma_run_was_registered(rounds, k);
    } else if k > 0 {
        assert forall|m: int|
            0 <= m < k && (forall|t: int| m <= t < k ==> #[trigger] rounds[t]) implies
            !#[trigger] registers_in_round(rounds, m) by {
            assert(rounds[k - 1]);
        }
    }
}

/// Between two rounds that register the handlers, some round found no
/// session.
pub proof fn lemma_registrations_are_separated(rounds: Seq<bool>, i: int, j: int)
    requires
        0 <= i < j < rounds.len(),
        registers_in_round(rounds, i),
        registers_in_round(rounds, j),
    ensures
        exists|m: int| i < m < j && !#[trigger] rounds[m],
{
    lemma_registers_when_session_appears(rounds, i);
    lemma_registers_when_session_appears(rounds, j);
    if j == i + 1 {
        assert(false);
    } else {
        assert(!rounds[j - 1]);
        assert(i < j - 1 < j);
    }
}

/// How many times the media timeline is read before giving up.
pub const TIMELINE_ATTEMPTS: u32 = 10;

/// What to do after a read of the media timeline.
#[derive(Clone, Copy, Debug, PartialEq, Eq)]
pub enum TimelineStep {
    /// The length is known: take it (and the position).
    Take,
    /// Wait, then read again.
    WaitAndRetry,
    /// Wait, then give up (length and position stay zero).
    WaitAndStop,
}

/// The step after read number `attempt` (from zero) gave `length_ms` (`None`
/// when the timeline could not be read): a positive length is taken;
/// otherwise the reader waits, and reads again unless that was the last of
/// `TIMELINE_ATTEMPTS` reads.
pub open spec fn timeline_step_spec(attempt: u32, length_ms: Option<u32>) -> TimelineStep {
    if length_ms matches Some(l) && l > 0 {
        TimelineStep::Take
    } else if attempt + 1 < TIMELINE_ATTEMPTS {
        TimelineStep::WaitAndRetry
    } else {
        TimelineStep::WaitAndStop
    }
}

/// Decides what follows read number `attempt` of the media timeline.
pub fn timeline_step(attempt: u32, length_ms: Option<u32>) -> (step: TimelineStep)
    ensures
        step == timeline_step_spec(attempt, length_ms),
{
    if let Some(l) = length_ms {
        if l > 0 {
            return TimelineStep::Take;
        }
    }
    if attempt < TIMELINE_ATTEMPTS - 1 {
        TimelineStep::WaitAndRetry
    } else {
        TimelineStep::WaitAndStop
    }
}

/// At most `TIMELINE_ATTEMPTS` reads are made: from the last read on, the
/// reader never reads again.
pub proof fn lemma_timeline_reads_are_bounded(attempt: u32, length_ms: Option<u32>)
    requires
        attempt + 1 >= TIMELINE_ATTEMPTS,
    ensures
        timeline_step_spec(attempt, length_ms) != TimelineStep::WaitAndRetry,
{
}

} // verus!
