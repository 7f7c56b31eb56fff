//! The decisions of the player loop: how commands change the controllable
//! state, which Spotify Connect calls they lead to, and how reports from the
//! Spotify player update the playback information.
use vstd::prelude::*;
use vstd::std_specs::convert::FromSpecImpl;
use crate::info::{AudioItem, PlaybackInfo, AudioItemView, uri_number, same_info, same_opt_info, position_reading};
use crate::text::{chars_of, push_str, into_string};
use crate::utils::{get_time, valid_reading, reading_millis};
use crate::json::{Json, JsonView, json_view, field, text_at, json_field, json_text, json_parsed, parse_body};

verus! {

/// Default playback volume (75% of `u16::MAX`), the volume the player starts with.
pub const DEFAULT_VOLUME: u16 = 49151;

/// Repeat mode, matching Spotify's three states.
#[derive(Debug, Clone, Copy, PartialEq, Eq, Structural)]
pub enum RepeatMode {
    Off,
    /// Repeat the whole context (playlist/album/queue).
    Context,
    /// Repeat the current track.
    Track,
}

impl Default for RepeatMode {
    fn default() -> (m: Self)
        ensures
            m == RepeatMode::Off,
    {
        RepeatMode::Off
    }
}

/// The mode after `m` in the cycle Off → Context → Track → Off.
pub open spec fn next_mode(m: RepeatMode) -> RepeatMode {
    match m {
        RepeatMode::Off => RepeatMode::Context,
        RepeatMode::Context => RepeatMode::Track,
        RepeatMode::Track => RepeatMode::Off,
    }
}

/// The short label of a mode.
pub open spec fn mode_label(m: RepeatMode) -> Seq<char> {
    match m {
        RepeatMode::Off => "Off"@,
        RepeatMode::Context => "All"@,
        RepeatMode::Track => "One"@,
    }
}

impl RepeatMode {
    /// The next mode when cycling through the dashboard button (Off → Context → Track → Off).
    pub fn next(self) -> (m: Self)
        ensures
            m == next_mode(self),
    {
        match self {
            RepeatMode::Off => RepeatMode::Context,
            RepeatMode::Context => RepeatMode::Track,
            RepeatMode::Track => RepeatMode::Off,
        }
    }

    /// A short human-readable label.
    pub fn label(self) -> (s: &'static str)
        ensures
            s@ == mode_label(self),
    {
        match self {
            RepeatMode::Off => "Off",
            RepeatMode::Context => "All",
            RepeatMode::Track => "One",
        }
    }
}

/// Cycling three times through the repeat modes comes back to the start, and
/// every step changes the mode.
pub proof fn lemma_repeat_cycle(m: RepeatMode)
    ensures
        next_mode(next_mode(next_mode(m))) == m,
        next_mode(m) != m,
{
}

/// The three repeat labels are distinct.
pub proof fn lemma_labels_distinct(a: RepeatMode, b: RepeatMode)
    requires
        a != b,
    ensures
        mode_label(a) != mode_label(b),
{
    reveal_strlit("Off");
    reveal_strlit("All");
    reveal_strlit("One");
    assert(mode_label(a)[0] != mode_label(b)[0] || mode_label(a)[1] != mode_label(b)[1]);
}

/// The repeat choice offered by the `/repeat` command.
#[derive(Debug, Clone, Copy, PartialEq, Eq, Structural)]
pub enum RepeatChoice {
    Off,
    All,
    One,
}

pub open spec fn choice_mode(c: RepeatChoice) -> RepeatMode {
    match c {
        RepeatChoice::Off => RepeatMode::Off,
        RepeatChoice::All => RepeatMode::Context,
        RepeatChoice::One => RepeatMode::Track,
    }
}

impl From<RepeatChoice> for RepeatMode {
    fn from(choice: RepeatChoice) -> (m: Self) {
        match choice {
            RepeatChoice::Off => RepeatMode::Off,
            RepeatChoice::All => RepeatMode::Context,
            RepeatChoice::One => RepeatMode::Track,
        }
    }
}

impl FromSpecImpl<RepeatChoice> for RepeatMode {
    open spec fn obeys_from_spec() -> bool {
        true
    }

    open spec fn from_spec(v: RepeatChoice) -> RepeatMode {
        choice_mode(v)
    }
}

/// The controllable player state that isn't part of [`PlaybackInfo`].
#[derive(Debug, Clone, Copy, PartialEq, Eq, Structural)]
pub struct PlayerState {
    pub volume: u16,
    pub shuffle: bool,
    pub repeat: RepeatMode,
}


/// A request handed to the player loop. Requests that expect an answer are
/// answered through the [`CommandAction`] the loop computes for them.
#[derive(Debug, Clone, Copy, PartialEq, Eq, Structural)]
pub enum PlayerCommand {
    NextTrack,
    PreviousTrack,
    Pause,
    Play,
    SetVolume(u16),
    SetShuffle(bool),
    SetRepeat(RepeatMode),
    GetPlaybackInfo,
    GetState,
    GetLyrics,
    CreateJam,
    Shutdown,
}

/// A call on the Spotify Connect controller.
#[derive(Debug, Clone, Copy, PartialEq, Eq, Structural)]
pub enum SpircCall {
    Next,
    Prev,
    Pause,
    Play,
    SetVolume(u16),
    Shuffle(bool),
    RepeatTrack(bool),
    Repeat(bool),
}

/// What the player loop does for a command.
pub enum CommandAction {
    /// Issue these controller calls, in order.
    Control(Vec<SpircCall>),
    /// Answer with a copy of the playback information.
    ReplyPlaybackInfo(Option<PlaybackInfo>),
    /// Answer with the controllable state.
    ReplyState(PlayerState),
    /// Nothing is playing: answer that there are no lyrics.
    ReplyNoLyrics,
    /// Fetch the lyrics of the track with this Spotify id and answer with them.
    FetchLyrics(u128),
    /// Create (or fetch) a Jam and answer with its link.
    CreateJam,
    /// Stop accepting commands.
    CloseCommands,
}

/// The controller calls that set a repeat mode.
pub open spec fn repeat_calls(m: RepeatMode) -> Seq<SpircCall> {
    match m {
        RepeatMode::Off => seq![SpircCall::RepeatTrack(false), SpircCall::Repeat(false)],
        RepeatMode::Context => seq![SpircCall::RepeatTrack(false), SpircCall::Repeat(true)],
        RepeatMode::Track => seq![SpircCall::RepeatTrack(true)],
    }
}

/// The controllable state after a command.
pub open spec fn state_after(s: PlayerState, cmd: PlayerCommand) -> PlayerState {
    match cmd {
        PlayerCommand::SetVolume(v) => PlayerState { volume: v, ..s },
        PlayerCommand::SetShuffle(b) => PlayerState { shuffle: b, ..s },
        PlayerCommand::SetRepeat(m) => PlayerState { repeat: m, ..s },
        _ => s,
    }
}

/// The controller calls a command leads to, if it is a control command.
pub open spec fn control_calls(cmd: PlayerCommand) -> Option<Seq<SpircCall>> {
    match cmd {
        PlayerCommand::NextTrack => Some(seq![SpircCall::Next]),
        PlayerCommand::PreviousTrack => Some(seq![SpircCall::Prev]),
        PlayerCommand::Pause => Some(seq![SpircCall::Pause]),
        PlayerCommand::Play => Some(seq![SpircCall::Play]),
        PlayerCommand::SetVolume(v) => Some(seq![SpircCall::SetVolume(v)]),
        PlayerCommand::SetShuffle(b) => Some(seq![SpircCall::Shuffle(b)]),
        PlayerCommand::SetRepeat(m) => Some(repeat_calls(m)),
        _ => None,
    }
}

/// An event the Spotify player reports.
pub enum SpotifyEvent {
    PositionCorrection { position_ms: u32 },
    Seeked { position_ms: u32 },
    Playing { position_ms: u32 },
    Paused { position_ms: u32 },
    Stopped,
    SessionDisconnected,
    TrackChanged { audio_item: AudioItem },
    /// Any other report, which the player ignores.
    Other,
}

/// An event the player sends to its owner.
pub enum PlayerEvent {
    Pause,
    Play,
    Stopped,
    TrackChanged(Box<PlaybackInfo>),
    ConnectionReset,
}

/// What the player loop does after a Spotify event, besides updating its state.
pub struct EventOutcome {
    /// Pause the voice-channel audio track.
    pub pause_track: bool,
    /// Send this event to the owner.
    pub event: Option<PlayerEvent>,
}

/// An event from the audio sink.
#[derive(Debug, Clone, Copy, PartialEq, Eq, Structural)]
pub enum SinkEvent {
    Start,
    Stop,
}

/// Whether the voice-channel audio track is to be resumed after a sink event.
pub fn handle_sink_event(event: SinkEvent) -> (resume: bool)
    ensures
        resume == (event == SinkEvent::Start),
{
    match event {
        SinkEvent::Start => true,
        SinkEvent::Stop => false,
    }
}

/// The state the player loop keeps.
pub struct Player {
    playback_info: Option<PlaybackInfo>,
    volume: u16,
    shuffle: bool,
    repeat: RepeatMode,
}

fn copy_info(info: &Option<PlaybackInfo>) -> (r: Option<PlaybackInfo>)
    ensures
        same_opt_info(r, *info),
{
    match info {
        Some(i) => Some(i.duplicate()),
        None => None,
    }
}

/// `new` is `old` with its position and play state replaced as reported at `now`
/// (nothing loaded stays nothing loaded).
pub open spec fn playback_reported(
    old: Option<PlaybackInfo>,
    new: Option<PlaybackInfo>,
    position: u32,
    playing: bool,
    now: u128,
) -> bool {
    match old {
        Some(o) => new matches Some(n) && n.item() == o.item() && n.position() == position
            && n.is_playing() == playing && n.updated_at() == now,
        None => new is None,
    }
}

/// `new` holds `item`: it replaces the item of `old`, or starts paused at
/// position 0 at `now` when nothing was loaded.
pub open spec fn track_loaded(
    old: Option<PlaybackInfo>,
    new: Option<PlaybackInfo>,
    item: AudioItemView,
    now: u128,
) -> bool {
    new matches Some(n) && n.item() == item && match old {
        Some(o) => n.position() == o.position() && n.is_playing() == o.is_playing()
            && n.updated_at() == o.updated_at(),
        None => n.position() == 0 && !n.is_playing() && n.updated_at() == now,
    }
}

impl Player {
    pub closed spec fn state(&self) -> PlayerState {
        PlayerState { volume: self.volume, shuffle: self.shuffle, repeat: self.repeat }
    }

    pub closed spec fn info(&self) -> Option<PlaybackInfo> {
        self.playback_info
    }

    /// The state of a freshly created player: default volume, no shuffle, no
    /// repeat, nothing loaded.
    pub fn new() -> (p: Self)
        ensures
            p.state() == initial_state(),
            p.info() is None,
    {
        Player { playback_info: None, volume: DEFAULT_VOLUME, shuffle: false, repeat: RepeatMode::Off }
    }

    /// The controllable state.
    pub fn state_snapshot(&self) -> (s: PlayerState)
        ensures
            s == self.state(),
    {
        PlayerState { volume: self.volume, shuffle: self.shuffle, repeat: self.repeat }
    }

    /// Handles one command: updates the state and says what the loop does next.
    pub fn handle_command(&mut self, command: PlayerCommand) -> (action: CommandAction)
        ensures
            final(self).state() == state_after(old(self).state(), command),
            final(self).info() == old(self).info(),
            match control_calls(command) {
                Some(calls) => action matches CommandAction::Control(v) && v@ == calls,
                None => match command {
                    PlayerCommand::GetPlaybackInfo => action matches CommandAction::ReplyPlaybackInfo(i)
                        && same_opt_info(i, old(self).info()),
                    PlayerCommand::GetState => action == CommandAction::ReplyState(old(self).state()),
                    PlayerCommand::GetLyrics => match old(self).info() {
                        Some(info) => action == CommandAction::FetchLyrics(uri_number(info.item().track_id@)),
                        None => action == CommandAction::ReplyNoLyrics,
                    },
                    PlayerCommand::CreateJam => action == CommandAction::CreateJam,
                    _ => action == CommandAction::CloseCommands,
                },
            },
    {
        match command {
            PlayerCommand::NextTrack => CommandAction::Control(vec![SpircCall::Next]),
            PlayerCommand::PreviousTrack => CommandAction::Control(vec![SpircCall::Prev]),
            PlayerCommand::Pause => CommandAction::Control(vec![SpircCall::Pause]),
            PlayerCommand::Play => CommandAction::Control(vec![SpircCall::Play]),
            PlayerCommand::SetVolume(volume) => {
                self.volume = volume;
                CommandAction::Control(vec![SpircCall::SetVolume(volume)])
            },
            PlayerCommand::SetShuffle(shuffle) => {
                self.shuffle = shuffle;
                CommandAction::Control(vec![SpircCall::Shuffle(shuffle)])
            },
            PlayerCommand::SetRepeat(mode) => {
                self.repeat = mode;
                match mode {
                    RepeatMode::Off => CommandAction::Control(
                        vec![SpircCall::RepeatTrack(false), SpircCall::Repeat(false)],
                    ),
                    RepeatMode::Context => CommandAction::Control(
                        vec![SpircCall::RepeatTrack(false), SpircCall::Repeat(true)],
                    ),
                    RepeatMode::Track => CommandAction::Control(vec![SpircCall::RepeatTrack(true)]),
                }
            },
            PlayerCommand::GetPlaybackInfo => CommandAction::ReplyPlaybackInfo(copy_info(&self.playback_info)),
            PlayerCommand::GetState => CommandAction::ReplyState(self.state_snapshot()),
            PlayerCommand::GetLyrics => match &self.playback_info {
                Some(info) => CommandAction::FetchLyrics(info.track_id()),
                None => CommandAction::ReplyNoLyrics,
            },
            PlayerCommand::CreateJam => CommandAction::CreateJam,
            PlayerCommand::Shutdown => CommandAction::CloseCommands,
        }
    }

    /// Handles a report of the Spotify player received at Unix time `now`
    /// (milliseconds).
    pub fn handle_spotify_event_at(&mut self, event: SpotifyEvent, now: u128) -> (out: EventOutcome)
        ensures
            final(self).state() == old(self).state(),
            spotify_event_effect(old(self).info(), final(self).info(), event, out, now),
    {
        match event {
            SpotifyEvent::PositionCorrection { position_ms } | SpotifyEvent::Seeked { position_ms } => {
                if let Some(info) = &mut self.playback_info {
                    info.update_playback_at(position_ms, true, now);
                }
                EventOutcome { pause_track: false, event: None }
            },
            SpotifyEvent::Playing { position_ms } => {
                if let Some(info) = &mut self.playback_info {
                    info.update_playback_at(position_ms, true, now);
                }
                EventOutcome { pause_track: false, event: Some(PlayerEvent::Play) }
            },
            SpotifyEvent::Paused { position_ms } => {
                if let Some(info) = &mut self.playback_info {
                    info.update_playback_at(position_ms, false, now);
                }
                EventOutcome { pause_track: false, event: Some(PlayerEvent::Pause) }
            },
            SpotifyEvent::Stopped | SpotifyEvent::SessionDisconnected => {
                self.playback_info = None;
                EventOutcome { pause_track: true, event: Some(PlayerEvent::Pause) }
            },
            SpotifyEvent::TrackChanged { audio_item } => {
                let loaded = match self.playback_info.take() {
                    Some(mut info) => {
                        info.update_track(audio_item);
                        info
                    },
                    None => PlaybackInfo::new_at(audio_item, 0, false, now),
                };
                let copy = loaded.duplicate();
                self.playback_info = Some(loaded);
                EventOutcome { pause_track: false, event: Some(PlayerEvent::TrackChanged(Box::new(copy))) }
            },
            SpotifyEvent::Other => EventOutcome { pause_track: false, event: None },
        }
    }

    /// Handles a report of the Spotify player, timestamped with the clock.
    pub fn handle_spotify_event(&mut self, event: SpotifyEvent) -> (out: EventOutcome)
        ensures
            final(self).state() == old(self).state(),
            exists|rd: Option<(u64, u32)>|
                valid_reading(rd) && spotify_event_effect(
                    old(self).info(),
                    final(self).info(),
                    event,
                    out,
                    #[trigger] reading_millis(rd),
                ),
    {
        let now = get_time();
        let ghost before = self.info();
        let out = self.handle_spotify_event_at(event, now);
        assert(spotify_event_effect(before, self.info(), event, out, now));
        out
    }
}

/// How a Spotify event received at `now` changes the playback information and
/// what the loop does about it (the contract of
/// [`Player::handle_spotify_event_at`]).
pub open spec fn spotify_event_effect(
    old: Option<PlaybackInfo>,
    new: Option<PlaybackInfo>,
    event: SpotifyEvent,
    out: EventOutcome,
    now: u128,
) -> bool {
    match event {
        SpotifyEvent::PositionCorrection { position_ms } | SpotifyEvent::Seeked { position_ms } => {
            &&& playback_reported(old, new, position_ms, true, now)
            &&& !out.pause_track && out.event is None
        },
        SpotifyEvent::Playing { position_ms } => {
            &&& playback_reported(old, new, position_ms, true, now)
            &&& !out.pause_track && out.event matches Some(PlayerEvent::Play)
        },
        SpotifyEvent::Paused { position_ms } => {
            &&& playback_reported(old, new, position_ms, false, now)
            &&& !out.pause_track && out.event matches Some(PlayerEvent::Pause)
        },
        SpotifyEvent::Stopped | SpotifyEvent::SessionDisconnected => {
            &&& new is None
            &&& out.pause_track && out.event matches Some(PlayerEvent::Pause)
        },
        SpotifyEvent::TrackChanged { audio_item } => {
            &&& track_loaded(old, new, audio_item@, now)
            &&& !out.pause_track
            &&& out.event matches Some(PlayerEvent::TrackChanged(info))
            &&& same_opt_info(Some(*info), new)
        },
        SpotifyEvent::Other => {
            &&& new == old
            &&& !out.pause_track && out.event is None
        },
    }
}


/// After a position report on a loaded track (playing, paused, seeked or
/// corrected), reading the position at the instant the report was stamped
/// gives back the reported position, and the play state is the reported one.
pub proof fn lemma_report_read_back(
    old: Option<PlaybackInfo>,
    new: Option<PlaybackInfo>,
    event: SpotifyEvent,
    out: EventOutcome,
    now: u128,
    p: u32,
)
    requires
        spotify_event_effect(old, new, event, out, now),
        old is Some,
        event == (SpotifyEvent::Playing { position_ms: p }) || event == (SpotifyEvent::Paused { position_ms: p })
            || event == (SpotifyEvent::Seeked { position_ms: p })
            || event == (SpotifyEvent::PositionCorrection { position_ms: p }),
    ensures
        new matches Some(n) && n.item() == old->0.item()
            && position_reading(n.position(), n.updated_at(), n.is_playing(), now) == Some(p)
            && n.is_playing() == !(event is Paused),
{
}

/// A track change keeps the running position: at every later reading, the new
/// track's position is what the old one's would have been; with nothing
/// loaded, the new track starts paused at 0.
pub proof fn lemma_track_change_keeps_position(
    old: Option<PlaybackInfo>,
    new: Option<PlaybackInfo>,
    item: AudioItem,
    out: EventOutcome,
    now: u128,
    t: u128,
)
    requires
        spotify_event_effect(old, new, SpotifyEvent::TrackChanged { audio_item: item }, out, now),
    ensures
        new matches Some(n) && n.item() == item@,
        old matches Some(o) ==> position_reading(new->0.position(), new->0.updated_at(), new->0.is_playing(), t)
            == position_reading(o.position(), o.updated_at(), o.is_playing(), t),
        old is None ==> position_reading(new->0.position(), new->0.updated_at(), new->0.is_playing(), t) == Some(0u32),
{
}

/// A stop or a lost session unloads the track and pauses the audio.
pub proof fn lemma_stop_unloads(
    old: Option<PlaybackInfo>,
    new: Option<PlaybackInfo>,
    event: SpotifyEvent,
    out: EventOutcome,
    now: u128,
)
    requires
        spotify_event_effect(old, new, event, out, now),
        event is Stopped || event is SessionDisconnected,
    ensures
        new is None,
        out.pause_track,
{
}

/// A state query right after a setter answers the value just set, and the
/// setter leaves the other fields alone.
pub proof fn lemma_state_read_after_write(s: PlayerState, v: u16, b: bool, m: RepeatMode)
    ensures
        state_after(s, PlayerCommand::SetVolume(v)) == (PlayerState { volume: v, ..s }),
        state_after(s, PlayerCommand::SetShuffle(b)) == (PlayerState { shuffle: b, ..s }),
        state_after(s, PlayerCommand::SetRepeat(m)) == (PlayerState { repeat: m, ..s }),
        state_after(state_after(s, PlayerCommand::SetVolume(v)), PlayerCommand::GetState).volume == v,
        state_after(state_after(s, PlayerCommand::SetShuffle(b)), PlayerCommand::GetState).shuffle == b,
        state_after(state_after(s, PlayerCommand::SetRepeat(m)), PlayerCommand::GetState).repeat == m,
{
}

/// Commands other than the three setters never change the controllable state.
pub proof fn lemma_other_commands_keep_state(s: PlayerState, cmd: PlayerCommand)
    requires
        !(cmd is SetVolume || cmd is SetShuffle || cmd is SetRepeat),
    ensures
        state_after(s, cmd) == s,
{
}

/// Setting the same value twice is the same as setting it once.
pub proof fn lemma_setters_idempotent(s: PlayerState, cmd: PlayerCommand)
    requires
        cmd is SetVolume || cmd is SetShuffle || cmd is SetRepeat,
    ensures
        state_after(state_after(s, cmd), cmd) == state_after(s, cmd),
{
}

/// The controllable state after a sequence of commands, handled in order.
pub open spec fn state_after_all(s: PlayerState, cmds: Seq<PlayerCommand>) -> PlayerState
    decreases cmds.len(),
{
    if cmds.len() == 0 {
        s
    } else {
        state_after(state_after_all(s, cmds.drop_last()), cmds.last())
    }
}

/// Whether a command sets part of the controllable state.
pub open spec fn is_setter(cmd: PlayerCommand) -> bool {
    cmd is SetVolume || cmd is SetShuffle || cmd is SetRepeat
}

/// The state of a freshly created player.
pub open spec fn initial_state() -> PlayerState {
    PlayerState { volume: DEFAULT_VOLUME, shuffle: false, repeat: RepeatMode::Off }
}

/// Over a sequence of commands, each field of the state holds the value of
/// the last command that set it, and its starting value when none did.
pub proof fn lemma_last_setter_wins(
    s: PlayerState,
    cmds: Seq<PlayerCommand>,
    i: int,
    v: u16,
    b: bool,
    m: RepeatMode,
)
    ensures
        (forall|j: int| 0 <= j < cmds.len() ==> !(#[trigger] cmds[j] is SetVolume))
            ==> state_after_all(s, cmds).volume == s.volume,
        (forall|j: int| 0 <= j < cmds.len() ==> !(#[trigger] cmds[j] is SetShuffle))
            ==> state_after_all(s, cmds).shuffle == s.shuffle,
        (forall|j: int| 0 <= j < cmds.len() ==> !(#[trigger] cmds[j] is SetRepeat))
            ==> state_after_all(s, cmds).repeat == s.repeat,
        0 <= i < cmds.len() && cmds[i] == PlayerCommand::SetVolume(v) && (forall|j: int|
            i < j < cmds.len() ==> !(#[trigger] cmds[j] is SetVolume)) ==> state_after_all(s, cmds).volume == v,
        0 <= i < cmds.len() && cmds[i] == PlayerCommand::SetShuffle(b) && (forall|j: int|
            i < j < cmds.len() ==> !(#[trigger] cmds[j] is SetShuffle)) ==> state_after_all(s, cmds).shuffle == b,
        0 <= i < cmds.len() && cmds[i] == PlayerCommand::SetRepeat(m) && (forall|j: int|
            i < j < cmds.len() ==> !(#[trigger] cmds[j] is SetRepeat)) ==> state_after_all(s, cmds).repeat == m,
    decreases cmds.len(),
{
    if cmds.len() > 0 {
        let p = cmds.drop_last();
        lemma_last_setter_wins(s, p, i, v, b, m);
        assert forall|j: int| 0 <= j < p.len() implies #[trigger] p[j] == cmds[j] by {}
        let last = cmds.len() - 1;
        assert(cmds.last() == cmds[last]);
    }
}

/// A player reports its initial state (default volume, no shuffle, no repeat)
/// until a setter is handled.
pub proof fn lemma_initial_state_until_set(cmds: Seq<PlayerCommand>)
    requires
        forall|j: int| 0 <= j < cmds.len() ==> !is_setter(#[trigger] cmds[j]),
    ensures
        state_after_all(initial_state(), cmds) == initial_state(),
{
    lemma_last_setter_wins(initial_state(), cmds, 0, 0, false, RepeatMode::Off);
}

/// What to do after a failed attempt to connect to Spotify Connect.
#[derive(Debug, Clone, Copy, PartialEq, Eq, Structural)]
pub enum ConnectRetry {
    /// Try again; this many attempts have failed so far.
    Retry(u32),
    /// Give up and report the failure.
    GiveUp,
}

/// The decision after a failed connection attempt, given how many attempts
/// failed before it and whether the login itself was refused.
pub open spec fn connect_retry_spec(failures: u32, permission_denied: bool) -> ConnectRetry {
    if permission_denied || failures >= 3 {
        ConnectRetry::GiveUp
    } else {
        ConnectRetry::Retry((failures + 1) as u32)
    }
}

/// A refused login fails at once; other failures are retried until the
/// fourth attempt has failed.
pub fn connect_retry(failures: u32, permission_denied: bool) -> (d: ConnectRetry)
    ensures
        d == connect_retry_spec(failures, permission_denied),
{
    if permission_denied {
        return ConnectRetry::GiveUp;
    }
    if failures >= 3 {
        ConnectRetry::GiveUp
    } else {
        ConnectRetry::Retry(failures + 1)
    }
}

/// Starting from no failures, at most four attempts are made: after the
/// `k`-th failure (k counted from 1) there is a retry only when k <= 3.
pub proof fn lemma_connect_attempts_bounded(failures: u32, denied: bool)
    ensures
        connect_retry_spec(failures, denied) matches ConnectRetry::Retry(n) ==> n == failures + 1 && n <= 3 && !denied,
        failures >= 3 ==> connect_retry_spec(failures, denied) == ConnectRetry::GiveUp,
{
}

/// A JSON value where a string is expected: absent, a string, or some other value.
pub enum JsonText {
    Missing,
    Text(String),
    Other,
}

/// The value of a [`JsonText`].
pub enum TextView {
    Missing,
    Text(Seq<char>),
    Other,
}

impl View for JsonText {
    type V = TextView;

    open spec fn view(&self) -> TextView {
        match self {
            JsonText::Missing => TextView::Missing,
            JsonText::Text(s) => TextView::Text(s@),
            JsonText::Other => TextView::Other,
        }
    }
}

/// The fields of Spotify's Jam response that carry the join token.
pub struct JamResponse {
    pub join_session_token: JsonText,
    pub join_session_url: JsonText,
    pub join_session_uri: JsonText,
}

/// The value of a [`JamResponse`].
pub struct JamView {
    pub join_session_token: TextView,
    pub join_session_url: TextView,
    pub join_session_uri: TextView,
}

impl View for JamResponse {
    type V = JamView;

    open spec fn view(&self) -> JamView {
        JamView {
            join_session_token: self.join_session_token@,
            join_session_url: self.join_session_url@,
            join_session_uri: self.join_session_uri@,
        }
    }
}

/// The part of `s` after its last `/` (all of `s` when it has none).
pub open spec fn last_segment(s: Seq<char>) -> Seq<char>
    decreases s.len(),
{
    if s.len() == 0 {
        s
    } else if s.last() == '/' {
        Seq::empty()
    } else {
        last_segment(s.drop_last()).push(s.last())
    }
}

/// The join token of a Jam response: `join_session_token` when it is a string,
/// else the last path segment of `join_session_url` (or of `join_session_uri`
/// when the url field is absent) when that is a string.
pub open spec fn jam_token(r: JamView) -> Option<Seq<char>> {
    match r.join_session_token {
        TextView::Text(t) => Some(t),
        _ => {
            let link = match r.join_session_url {
                TextView::Missing => r.join_session_uri,
                other => other,
            };
            match link {
                TextView::Text(u) => Some(last_segment(u)),
                _ => None,
            }
        },
    }
}

/// The message given when the response carries no usable Jam token.
pub open spec fn jam_unsupported() -> Seq<char> {
    "Spotify did not return a Jam link. Your account may not support Jams."@
}

/// The shareable link for a join token.
pub open spec fn jam_link_text(token: Seq<char>) -> Seq<char> {
    "https://open.spotify.com/socialsession/"@ + token
}

/// The text after the last `/` of a string.
pub fn last_path_segment(s: &str) -> (r: Vec<char>)
    ensures
        r@ == last_segment(s@),
{
    let chars = chars_of(s);
    let mut start: usize = 0;
    let mut i: usize = 0;
    while i < chars.len()
        invariant
            chars@ == s@,
            start <= i <= chars.len(),
            last_segment(chars@.subrange(0, i as int)) == chars@.subrange(start as int, i as int),
        decreases chars.len() - i,
    {
        let ghost prefix = chars@.subrange(0, i + 1);
        assert(prefix.drop_last() =~= chars@.subrange(0, i as int));
        if chars[i] == '/' {
            start = i + 1;
            assert(chars@.subrange(start as int, i + 1) =~= Seq::<char>::empty());
        } else {
            assert(chars@.subrange(start as int, i + 1) =~= chars@.subrange(start as int, i as int).push(chars@[i as int]));
        }
        i = i + 1;
    }
    assert(chars@.subrange(0, chars.len() as int) =~= s@);
    let mut r: Vec<char> = Vec::new();
    let mut j: usize = start;
    while j < chars.len()
        invariant
            start <= j <= chars.len(),
            r@ == chars@.subrange(start as int, j as int),
        decreases chars.len() - j,
    {
        r.push(chars[j]);
        j = j + 1;
        assert(r@ =~= chars@.subrange(start as int, j as int));
    }
    r
}

/// The Jam link from Spotify's response, or the message explaining that there is none.
pub fn jam_link(response: &JamResponse) -> (r: Result<String, String>)
    ensures
        match jam_token(response@) {
            Some(t) if t.len() > 0 => r matches Ok(link) && link@ == jam_link_text(t),
            _ => r matches Err(msg) && msg@ == jam_unsupported(),
        },
{
    let token: Option<Vec<char>> = match &response.join_session_token {
        JsonText::Text(t) => Some(chars_of(t.as_str())),
        _ => {
            let link = match &response.join_session_url {
                JsonText::Missing => &response.join_session_uri,
                other => other,
            };
            match link {
                JsonText::Text(u) => Some(last_path_segment(u.as_str())),
                _ => None,
            }
        },
    };
    match token {
        Some(t) if t.len() > 0 => {
            let mut out: Vec<char> = Vec::new();
            push_str(&mut out, "https://open.spotify.com/socialsession/");
            let ghost before = out@;
            let mut k: usize = 0;
            while k < t.len()
                invariant
                    k <= t.len(),
                    out@ == before + t@.subrange(0, k as int),
                decreases t.len() - k,
            {
                out.push(t[k]);
                k = k + 1;
                assert(out@ =~= before + t@.subrange(0, k as int));
            }
            assert(t@.subrange(0, t.len() as int) =~= t@);
            Ok(into_string(out))
        },
        _ => {
            let msg = "Spotify did not return a Jam link. Your account may not support Jams.";
            Err(into_string(chars_of(msg)))
        },
    }
}

/// The Jam fields of a response document.
pub open spec fn jam_at(v: JsonView) -> JamView {
    JamView {
        join_session_token: text_at(field(Some(v), "join_session_token"@)),
        join_session_url: text_at(field(Some(v), "join_session_url"@)),
        join_session_uri: text_at(field(Some(v), "join_session_uri"@)),
    }
}

/// Reads the Jam fields of a parsed response.
pub fn jam_response_of(json: &Json) -> (r: JamResponse)
    ensures
        r@ == jam_at(json_view(*json)),
{
    JamResponse {
        join_session_token: json_text(json_field(Some(json), "join_session_token")),
        join_session_url: json_text(json_field(Some(json), "join_session_url")),
        join_session_uri: json_text(json_field(Some(json), "join_session_uri")),
    }
}

/// The Jam link from the body of Spotify's Jam response, or the message
/// explaining why there is none.
pub fn jam_link_from_body(body: &[u8]) -> (r: Result<String, String>)
    ensures
        match json_parsed(body@) {
            Err(e) => r matches Err(msg) && msg@ == "Could not parse Spotify's Jam response: "@ + e,
            Ok(v) => match jam_token(jam_at(v)) {
                Some(t) if t.len() > 0 => r matches Ok(link) && link@ == jam_link_text(t),
                _ => r matches Err(msg) && msg@ == jam_unsupported(),
            },
        },
{
    match parse_body(body) {
        Ok(json) => jam_link(&jam_response_of(&json)),
        Err(e) => {
            let mut out: Vec<char> = Vec::new();
            push_str(&mut out, "Could not parse Spotify's Jam response: ");
            push_str(&mut out, e.as_str());
            Err(into_string(out))
        },
    }
}

/// The request path that fetches (or creates) the Jam of a playback device.
pub fn jam_endpoint(device_id: &str) -> (s: String)
    ensures
        s@ == "/social-connect/v2/sessions/current_or_new?local_device_id="@ + device_id@,
{
    let mut out: Vec<char> = Vec::new();
    push_str(&mut out, "/social-connect/v2/sessions/current_or_new?local_device_id=");
    push_str(&mut out, device_id);
    into_string(out)
}

} // verus!
