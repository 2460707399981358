//! The Discord presence: when it must be refreshed, whether the link to
//! Discord is up, and the activity it shows for a song.

use vstd::prelude::*;

use crate::song::SongInfo;
use crate::text::concat_text;

verus! {

/// How far (in milliseconds) playback may jump back before it counts as a
/// seek or a repeat.
pub const SEEK_TOLERANCE_MS: u32 = 3000;

/// What the presence was last refreshed for.
pub struct PresenceTracker {
    last_song_title: String,
    last_was_playing: bool,
    last_position: u32,
}

/// The state of a `PresenceTracker`: the title and playing state that the
/// presence shows, and the position last reported.
pub struct TrackerState {
    pub title: Seq<char>,
    pub was_playing: bool,
    pub position: u32,
}

impl View for PresenceTracker {
    type V = TrackerState;

    closed spec fn view(&self) -> TrackerState {
        TrackerState {
            title: self.last_song_title@,
            was_playing: self.last_was_playing,
            position: self.last_position,
        }
    }
}

/// `a - b`, or zero when `b` is larger.
pub open spec fn saturating_sub_spec(a: u32, b: u32) -> u32 {
    if a >= b {
        (a - b) as u32
    } else {
        0
    }
}

/// A report of a song calls for a refresh when its title or its playing
/// state differs from what the presence shows, or when, playing before and
/// now, playback jumped back more than `SEEK_TOLERANCE_MS` (a seek or a
/// repeat).
pub open spec fn needs_refresh(state: TrackerState, title: Seq<char>, is_playing: bool, position: u32) -> bool {
    ||| title != state.title
    ||| is_playing != state.was_playing
    ||| is_playing && state.was_playing && position < saturating_sub_spec(
        state.position,
        SEEK_TOLERANCE_MS,
    )
}

/// The state after a report: a refresh takes the report's title and playing
/// state; the position is always the reported one.
pub open spec fn state_after_report(state: TrackerState, title: Seq<char>, is_playing: bool, position: u32) -> TrackerState {
    if needs_refresh(state, title, is_playing, position) {
        TrackerState { title, was_playing: is_playing, position }
    } else {
        TrackerState { position, ..state }
    }
}

impl PresenceTracker {
    /// A tracker that has shown nothing yet (empty title, playing, position
    /// zero).
    pub fn new() -> (t: Self)
        ensures
            t@ == (TrackerState { title: Seq::empty(), was_playing: true, position: 0 }),
    {
        PresenceTracker { last_song_title: String::new(), last_was_playing: true, last_position: 0 }
    }

    /// Takes in a report of `song`; the result tells whether the presence
    /// must be refreshed for it.
    pub fn observe_song(&mut self, song: &SongInfo) -> (refresh: bool)
        ensures
            refresh == needs_refresh(old(self)@, song.title@, song.is_playing, song.position_ms),
            final(self)@ == state_after_report(
                old(self)@,
                song.title@,
                song.is_playing,
                song.position_ms,
            ),
            song.title@ != old(self)@.title ==> refresh,
            song.is_playing != old(self)@.was_playing ==> refresh,
            song.is_playing && old(self)@.was_playing && song.position_ms + SEEK_TOLERANCE_MS
                < old(self)@.position ==> refresh,
            song.title@ == old(self)@.title && song.is_playing == old(self)@.was_playing && !(
            song.is_playing && song.position_ms + SEEK_TOLERANCE_MS < old(self)@.position)
                ==> !refresh,
            final(self)@.title == song.title@,
            final(self)@.was_playing == song.is_playing,
            final(self)@.position == song.position_ms,
    {
        let song_changed = !(song.title == self.last_song_title);
        let status_changed = song.is_playing != self.last_was_playing;
        let seeked_or_repeated = song.is_playing && self.last_was_playing && song.position_ms
            < self.last_position.saturating_sub(SEEK_TOLERANCE_MS);
        let refresh = song_changed || status_changed || seeked_or_repeated;
        if refresh {
            self.last_song_title = song.title.clone();
            self.last_was_playing = song.is_playing;
        }
        self.last_position = song.position_ms;
        refresh
    }

    /// Takes in that no song is playing; while connected the shown title is
    /// forgotten, so that the next song refreshes the presence. The result
    /// tells whether to disconnect (exactly when connected).
    pub fn observe_silence(&mut self, connected: bool) -> (disconnect: bool)
        ensures
            disconnect == connected,
            final(self)@ == if connected {
                TrackerState { title: Seq::empty(), ..old(self)@ }
            } else {
                old(self)@
            },
    {
        if connected {
            self.last_song_title = String::new();
        }
        connected
    }
}

/// After any report, the tracker holds that report: its title, its playing
/// state and its position.
pub proof fn lemma_tracker_holds_last_report(
    state: TrackerState,
    title: Seq<char>,
    is_playing: bool,
    position: u32,
)
    ensures
        state_after_report(state, title, is_playing, position) == (TrackerState {
            title,
            was_playing: is_playing,
            position,
        }),
{
}

/// A report calls for a refresh exactly when it names another title, when
/// its playing state differs from the shown one (pausing or resuming), or
/// when, playing before and now, it is more than `SEEK_TOLERANCE_MS` behind
/// the last position.
pub proof fn lemma_refresh_exactly_on_change(
    state: TrackerState,
    title: Seq<char>,
    is_playing: bool,
    position: u32,
)
    ensures
        title != state.title ==> needs_refresh(state, title, is_playing, position),
        is_playing != state.was_playing ==> needs_refresh(state, title, is_playing, position),
        is_playing && state.was_playing && position + SEEK_TOLERANCE_MS < state.position
            ==> needs_refresh(state, title, is_playing, position),
        title == state.title && is_playing == state.was_playing && !(is_playing
            && position + SEEK_TOLERANCE_MS < state.position) ==> !needs_refresh(
            state,
            title,
            is_playing,
            position,
        ),
{
}

/// Pausing and then resuming a song refreshes the presence both times,
/// whatever was shown before and wherever playback stands.
pub proof fn lemma_pause_and_resume_refresh(
    state: TrackerState,
    title: Seq<char>,
    paused_at: u32,
    resumed_at: u32,
)
    requires
        state.was_playing,
    ensures
        needs_refresh(state, title, false, paused_at),
        needs_refresh(state_after_report(state, title, false, paused_at), title, true, resumed_at),
{
    lemma_tracker_holds_last_report(state, title, false, paused_at);
}

/// A report repeated unchanged never refreshes the presence a second time.
pub proof fn lemma_repeated_report_is_quiet(
    state: TrackerState,
    title: Seq<char>,
    is_playing: bool,
    position: u32,
)
    ensures
        !needs_refresh(
            state_after_report(state, title, is_playing, position),
            title,
            is_playing,
            position,
        ),
{
    lemma_tracker_holds_last_report(state, title, is_playing, position);
}

/// An attempt to change the link to Discord, and whether it succeeded.
pub enum LinkAttempt {
    Connect(bool),
    Disconnect(bool),
}

/// Whether the link is up after `attempt`, when it was `up` before: a
/// successful connect brings it up, a successful disconnect brings it down,
/// a failed attempt changes nothing.
pub open spec fn link_after(up: bool, attempt: LinkAttempt) -> bool {
    match attempt {
        LinkAttempt::Connect(succeeded) => up || succeeded,
        LinkAttempt::Disconnect(succeeded) => up && !succeeded,
    }
}

/// Whether the link is up after `attempts`, made in order on a new link.
pub open spec fn link_after_all(attempts: Seq<LinkAttempt>) -> bool
    decreases attempts.len(),
{
    if attempts.len() == 0 {
        false
    } else {
        link_after(link_after_all(attempts.drop_last()), attempts.last())
    }
}

/// One more attempt acts on the state the earlier ones left: so a new
/// `Connection` that records `attempts` in order, through `record_connect`
/// and `record_disconnect`, is up exactly when `link_after_all(attempts)`.
pub proof fn lemma_link_after_one_more(attempts: Seq<LinkAttempt>, attempt: LinkAttempt)
    ensures
        link_after_all(attempts.push(attempt)) == link_after(link_after_all(attempts), attempt),
{
    assert(attempts.push(attempt).drop_last() =~= attempts);
}

/// After any sequence of attempts on a new link, the link is up exactly when
/// some connect succeeded after the last disconnect that succeeded (or at
/// all, when no disconnect succeeded).
pub proof fn lemma_link_up_iff_last_success_connects(attempts: Seq<LinkAttempt>)
    ensures
        link_after_all(attempts) <==> exists|i: int|
            0 <= i < attempts.len() && #[trigger] attempts[i] == LinkAttempt::Connect(true)
                && forall|j: int| i < j < attempts.len() ==> attempts[j] != LinkAttempt::Disconnect(
                true,
            ),
    decreases attempts.len(),
{
    if attempts.len() > 0 {
        let prefix = attempts.drop_last();
        let n = attempts.len() - 1;
        lemma_link_up_iff_last_success_connects(prefix);
        if link_after_all(attempts) {
            if attempts[n] == LinkAttempt::Connect(true) {
                assert(attempts[n] == LinkAttempt::Connect(true));
            } else {
                let i = choose|i: int|
                    0 <= i < prefix.len() && #[trigger] prefix[i] == LinkAttempt::Connect(true)
                        && forall|j: int| i < j < prefix.len() ==> prefix[j] != LinkAttempt::Disconnect(
                        true,
                    );
                assert(attempts[i] == LinkAttempt::Connect(true));
                assert forall|j: int| i < j < attempts.len() implies attempts[j]
                    != LinkAttempt::Disconnect(true) by {
                    if j < n {
                        assert(prefix[j] == attempts[j]);
                    }
                }
            }
        } else {
            assert forall|i: int|
                0 <= i < attempts.len() && #[trigger] attempts[i] == LinkAttempt::Connect(
                    true,
                ) implies exists|j: int|
                i < j < attempts.len() && attempts[j] == LinkAttempt::Disconnect(true) by {
                if attempts[n] == LinkAttempt::Disconnect(true) {
                    assert(i != n);
                } else {
                    assert(i < n);
                    assert(prefix[i] == attempts[i]);
                    let j = choose|j: int| i < j < prefix.len() && prefix[j] == LinkAttempt::Disconnect(true);
                    assert(attempts[j] == prefix[j]);
                }
            }
        }
    }
}

/// Whether the link to Discord is up.
pub struct Connection {
    connected: bool,
}

impl Connection {
    /// A link that is down.
    pub fn new() -> (c: Self)
        ensures
            !c.is_up(),
            c.is_up() == link_after_all(Seq::empty()),
    {
        Connection { connected: false }
    }

    /// The link is up.
    pub closed spec fn is_up(&self) -> bool {
        self.connected
    }

    /// Whether the link is up.
    pub fn is_connected(&self) -> (b: bool)
        ensures
            b == self.is_up(),
    {
        self.connected
    }

    /// Whether to try to connect: only when the link is down.
    pub fn should_connect(&self) -> (b: bool)
        ensures
            b == !self.is_up(),
    {
        !self.connected
    }

    /// Records the outcome of an attempt to connect.
    pub fn record_connect(&mut self, succeeded: bool)
        ensures
            final(self).is_up() == (old(self).is_up() || succeeded),
            final(self).is_up() == link_after(old(self).is_up(), LinkAttempt::Connect(succeeded)),
    {
        if succeeded {
            self.connected = true;
        }
    }

    /// Whether to try to disconnect: only when the link is up.
    pub fn should_disconnect(&self) -> (b: bool)
        ensures
            b == self.is_up(),
    {
        self.connected
    }

    /// Records the outcome of an attempt to disconnect.
    pub fn record_disconnect(&mut self, succeeded: bool)
        ensures
            final(self).is_up() == (old(self).is_up() && !succeeded),
            final(self).is_up() == link_after(old(self).is_up(), LinkAttempt::Disconnect(succeeded)),
    {
        if succeeded {
            self.connected = false;
        }
    }
}

/// The page opened when the song has no link of its own.
pub const APPLE_MUSIC_URL: &'static str = "https://music.apple.com";

/// The image asset shown when the song has no artwork, and as the small
/// image.
pub const LOGO_ASSET: &'static str = "apple_music_logo";

/// The text of the small image.
pub const SMALL_TEXT: &'static str = "Apple Music";

/// The label of the button that opens the song.
pub const PLAY_BUTTON_LABEL: &'static str = "Play on Apple Music";

/// The label of the button that opens the project's repository.
pub const REPOSITORY_BUTTON_LABEL: &'static str = "Github Repository";

/// The project's repository.
pub const REPOSITORY_URL: &'static str = "https://github.com/sudoabc/apple_music_rpc";

/// The text before the artist in the state line.
pub const BY_PREFIX: &'static str = "by ";

/// The text between title and artist in the large image's text.
pub const BY_SEPARATOR: &'static str = " by ";

/// A button of the activity.
pub struct ActivityButton {
    pub label: String,
    pub url: String,
}

/// When the shown song started and ends, in seconds since the epoch.
#[derive(Clone, Copy, Debug)]
pub struct ActivityTimestamps {
    pub start: i64,
    pub end: i64,
}

/// The "listening" activity shown for a song.
pub struct PresenceActivity {
    pub name: String,
    pub details: String,
    pub state: String,
    pub details_url: String,
    pub large_image: String,
    pub large_text: String,
    pub small_image: String,
    pub small_text: String,
    pub buttons: Vec<ActivityButton>,
    pub timestamps: Option<ActivityTimestamps>,
}

/// The text of `o`, or `default` when there is none.
pub open spec fn text_or(o: Option<String>, default: Seq<char>) -> Seq<char> {
    match o {
        Some(s) => s@,
        None => default,
    }
}

/// The timestamps shown for `song` at `now_secs`: only while it plays, from
/// `now` minus the whole seconds played, to that plus the whole seconds of
/// the song.
pub open spec fn timestamps_for(song: SongInfo, now_secs: u64) -> Option<ActivityTimestamps> {
    if song.is_playing {
        let start = now_secs - song.position_ms / 1000;
        let end = start + song.length_ms / 1000;
        Some(ActivityTimestamps { start: start as i64, end: end as i64 })
    } else {
        None
    }
}

/// While a song plays, its timestamps start the whole seconds played before
/// `now_secs` and span its whole seconds of length (when they fit in
/// `i64`); while it does not play, there are none.
pub proof fn lemma_timestamps_measure_the_song(song: SongInfo, now_secs: u64)
    requires
        timestamps_fit(song, now_secs),
    ensures
        !song.is_playing ==> timestamps_for(song, now_secs) is None,
        song.is_playing ==> timestamps_for(song, now_secs) is Some,
        song.is_playing && now_secs - song.position_ms / 1000 + song.length_ms / 1000 <= i64::MAX
            ==> {
            &&& now_secs - timestamps_for(song, now_secs)->0.start == song.position_ms / 1000
            &&& timestamps_for(song, now_secs)->0.end - timestamps_for(song, now_secs)->0.start
                == song.length_ms / 1000
        },
{
}

/// The timestamps can be computed without leaving `u64`.
pub open spec fn timestamps_fit(song: SongInfo, now_secs: u64) -> bool {
    song.is_playing ==> {
        &&& now_secs >= song.position_ms / 1000
        &&& now_secs - song.position_ms / 1000 + song.length_ms / 1000 <= u64::MAX
    }
}

/// The activity shown for `song` at `now_secs`: named and detailed by the
/// title, stating the artist, linking to the song (or to Apple Music),
/// showing the artwork (or the logo), with a button to play the song and
/// one to the repository, and timestamps while it plays.
pub fn compose_activity(song: &SongInfo, now_secs: u64) -> (a: PresenceActivity)
    requires
        timestamps_fit(*song, now_secs),
    ensures
        a.name@ == song.title@,
        a.details@ == song.title@,
        a.state@ == BY_PREFIX@ + song.artist@,
        a.details_url@ == text_or(song.song_url, APPLE_MUSIC_URL@),
        a.large_image@ == text_or(song.cover_url, LOGO_ASSET@),
        a.large_text@ == song.title@ + BY_SEPARATOR@ + song.artist@,
        a.small_image@ == LOGO_ASSET@,
        a.small_text@ == SMALL_TEXT@,
        a.buttons@.len() == 2,
        a.buttons@[0].label@ == PLAY_BUTTON_LABEL@,
        a.buttons@[0].url@ == text_or(song.song_url, APPLE_MUSIC_URL@),
        a.buttons@[1].label@ == REPOSITORY_BUTTON_LABEL@,
        a.buttons@[1].url@ == REPOSITORY_URL@,
        a.timestamps == timestamps_for(*song, now_secs),
        song.is_playing <==> a.timestamps is Some,
        song.is_playing && now_secs - song.position_ms / 1000 + song.length_ms / 1000 <= i64::MAX
            ==> {
            &&& a.timestamps->0.start == now_secs - song.position_ms / 1000
            &&& a.timestamps->0.end - a.timestamps->0.start == song.length_ms / 1000
        },
{
    let song_link = match &song.song_url {
        Some(url) => url.clone(),
        None => APPLE_MUSIC_URL.to_owned(),
    };
    let large_image = match &song.cover_url {
        Some(url) => url.clone(),
        None => LOGO_ASSET.to_owned(),
    };
    let title_by = concat_text(song.title.as_str(), BY_SEPARATOR);
    let large_text = concat_text(title_by.as_str(), song.artist.as_str());
    let mut buttons: Vec<ActivityButton> = Vec::new();
    buttons.push(ActivityButton { label: PLAY_BUTTON_LABEL.to_owned(), url: song_link.clone() });
    buttons.push(
        ActivityButton { label: REPOSITORY_BUTTON_LABEL.to_owned(), url: REPOSITORY_URL.to_owned() },
    );
    let timestamps = if song.is_playing {
        let start_ts = now_secs - (song.position_ms as u64 / 1000);
        let end_ts = start_ts + (song.length_ms as u64 / 1000);
        Some(ActivityTimestamps { start: start_ts as i64, end: end_ts as i64 })
    } else {
        None
    };
    PresenceActivity {
        name: song.title.clone(),
        details: song.title.clone(),
        state: concat_text(BY_PREFIX, song.artist.as_str()),
        details_url: song_link,
        large_image,
        large_text,
        small_image: LOGO_ASSET.to_owned(),
        small_text: SMALL_TEXT.to_owned(),
        buttons,
        timestamps,
    }
}

} // verus!
