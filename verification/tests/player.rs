use spoticord::info::{AudioItem, CoverImage, PlaybackInfo, TrackUri, UniqueFields};
use spoticord::player::{
    connect_retry, handle_sink_event, jam_endpoint, jam_link, jam_link_from_body, last_path_segment, CommandAction, ConnectRetry,
    JamResponse, JsonText, Player, PlayerCommand, PlayerEvent, PlayerState, RepeatChoice, RepeatMode, SinkEvent,
    SpircCall, SpotifyEvent, DEFAULT_VOLUME,
};

fn item(id: u128) -> AudioItem {
    AudioItem {
        track_id: TrackUri::Track { id },
        name: format!("Track {id}"),
        covers: vec![CoverImage { url: "u".to_string() }],
        duration_ms: 1000,
        unique_fields: UniqueFields::Track { artists: vec![], album: "A".to_string() },
    }
}

fn calls(a: CommandAction) -> Vec<SpircCall> {
    match a {
        CommandAction::Control(v) => v,
        _ => panic!("expected controller calls"),
    }
}

fn state_of(p: &mut Player) -> PlayerState {
    match p.handle_command(PlayerCommand::GetState) {
        CommandAction::ReplyState(s) => s,
        _ => panic!("expected a state reply"),
    }
}

#[test]
fn repeat_mode_cycles_off_context_track() {
    assert_eq!(RepeatMode::Off.next(), RepeatMode::Context);
    assert_eq!(RepeatMode::Context.next(), RepeatMode::Track);
    assert_eq!(RepeatMode::Track.next(), RepeatMode::Off);
    for m in [RepeatMode::Off, RepeatMode::Context, RepeatMode::Track] {
        assert_eq!(m.next().next().next(), m);
        assert_ne!(m.next(), m);
    }
    assert_eq!(RepeatMode::default(), RepeatMode::Off);
}

#[test]
fn repeat_labels_and_choices() {
    assert_eq!(RepeatMode::Off.label(), "Off");
    assert_eq!(RepeatMode::Context.label(), "All");
    assert_eq!(RepeatMode::Track.label(), "One");
    assert_eq!(RepeatMode::from(RepeatChoice::Off), RepeatMode::Off);
    assert_eq!(RepeatMode::from(RepeatChoice::All), RepeatMode::Context);
    assert_eq!(RepeatMode::from(RepeatChoice::One), RepeatMode::Track);
}

#[test]
fn new_player_starts_at_default_volume() {
    let mut p = Player::new();
    assert_eq!(DEFAULT_VOLUME, 49151);
    assert_eq!(state_of(&mut p), PlayerState { volume: DEFAULT_VOLUME, shuffle: false, repeat: RepeatMode::Off });
    assert!(matches!(p.handle_command(PlayerCommand::GetPlaybackInfo), CommandAction::ReplyPlaybackInfo(None)));
    assert!(matches!(p.handle_command(PlayerCommand::GetLyrics), CommandAction::ReplyNoLyrics));
}

#[test]
fn setters_are_read_back_by_the_state_query() {
    let mut p = Player::new();
    assert_eq!(calls(p.handle_command(PlayerCommand::SetVolume(1234))), vec![SpircCall::SetVolume(1234)]);
    assert_eq!(state_of(&mut p).volume, 1234);
    assert_eq!(calls(p.handle_command(PlayerCommand::SetShuffle(true))), vec![SpircCall::Shuffle(true)]);
    assert!(state_of(&mut p).shuffle);
    assert_eq!(state_of(&mut p).volume, 1234);
    assert_eq!(
        calls(p.handle_command(PlayerCommand::SetRepeat(RepeatMode::Context))),
        vec![SpircCall::RepeatTrack(false), SpircCall::Repeat(true)]
    );
    assert_eq!(state_of(&mut p).repeat, RepeatMode::Context);
    assert_eq!(
        calls(p.handle_command(PlayerCommand::SetRepeat(RepeatMode::Track))),
        vec![SpircCall::RepeatTrack(true)]
    );
    assert_eq!(
        calls(p.handle_command(PlayerCommand::SetRepeat(RepeatMode::Off))),
        vec![SpircCall::RepeatTrack(false), SpircCall::Repeat(false)]
    );
    assert_eq!(state_of(&mut p), PlayerState { volume: 1234, shuffle: true, repeat: RepeatMode::Off });
}

#[test]
fn transport_commands_only_call_the_controller() {
    let mut p = Player::new();
    assert_eq!(calls(p.handle_command(PlayerCommand::NextTrack)), vec![SpircCall::Next]);
    assert_eq!(calls(p.handle_command(PlayerCommand::PreviousTrack)), vec![SpircCall::Prev]);
    assert_eq!(calls(p.handle_command(PlayerCommand::Pause)), vec![SpircCall::Pause]);
    assert_eq!(calls(p.handle_command(PlayerCommand::Play)), vec![SpircCall::Play]);
    assert!(matches!(p.handle_command(PlayerCommand::CreateJam), CommandAction::CreateJam));
    assert!(matches!(p.handle_command(PlayerCommand::Shutdown), CommandAction::CloseCommands));
    assert_eq!(state_of(&mut p), PlayerState { volume: DEFAULT_VOLUME, shuffle: false, repeat: RepeatMode::Off });
}

#[test]
fn track_changes_load_the_track_and_report_it() {
    let mut p = Player::new();
    let out = p.handle_spotify_event_at(SpotifyEvent::TrackChanged { audio_item: item(5) }, 100);
    assert!(!out.pause_track);
    match out.event {
        Some(PlayerEvent::TrackChanged(info)) => {
            assert_eq!(info.track_id(), 5);
            assert!(!info.playing());
            assert_eq!(info.current_position_at(1000), 0);
        }
        _ => panic!("expected a track change"),
    }
    assert!(matches!(p.handle_command(PlayerCommand::GetLyrics), CommandAction::FetchLyrics(5)));
    // Position reports update the loaded track.
    let out = p.handle_spotify_event_at(SpotifyEvent::Playing { position_ms: 2000 }, 200);
    assert!(matches!(out.event, Some(PlayerEvent::Play)));
    // A second track change keeps the position and play state.
    let out = p.handle_spotify_event_at(SpotifyEvent::TrackChanged { audio_item: item(6) }, 300);
    match out.event {
        Some(PlayerEvent::TrackChanged(info)) => {
            assert_eq!(info.track_id(), 6);
            assert!(info.playing());
            assert_eq!(info.current_position_at(300), 2100);
        }
        _ => panic!("expected a track change"),
    }
    match p.handle_command(PlayerCommand::GetPlaybackInfo) {
        CommandAction::ReplyPlaybackInfo(Some(info)) => assert_eq!(info.name(), "Track 6"),
        _ => panic!("expected playback info"),
    }
}

#[test]
fn pauses_seeks_and_stops() {
    let mut p = Player::new();
    // Reports without a loaded track change nothing but still notify.
    let out = p.handle_spotify_event_at(SpotifyEvent::Paused { position_ms: 10 }, 1);
    assert!(matches!(out.event, Some(PlayerEvent::Pause)));
    assert!(matches!(p.handle_command(PlayerCommand::GetPlaybackInfo), CommandAction::ReplyPlaybackInfo(None)));
    p.handle_spotify_event_at(SpotifyEvent::TrackChanged { audio_item: item(1) }, 0);
    let out = p.handle_spotify_event_at(SpotifyEvent::Seeked { position_ms: 500 }, 50);
    assert!(out.event.is_none() && !out.pause_track);
    let out = p.handle_spotify_event_at(SpotifyEvent::PositionCorrection { position_ms: 700 }, 60);
    assert!(out.event.is_none());
    match p.handle_command(PlayerCommand::GetPlaybackInfo) {
        CommandAction::ReplyPlaybackInfo(Some(info)) => {
            assert!(info.playing());
            assert_eq!(info.current_position_at(70), 710);
        }
        _ => panic!("expected playback info"),
    }
    let out = p.handle_spotify_event_at(SpotifyEvent::Paused { position_ms: 800 }, 80);
    assert!(matches!(out.event, Some(PlayerEvent::Pause)));
    match p.handle_command(PlayerCommand::GetPlaybackInfo) {
        CommandAction::ReplyPlaybackInfo(Some(info)) => {
            assert!(!info.playing());
            assert_eq!(info.current_position_at(10_000), 800);
        }
        _ => panic!("expected playback info"),
    }
    let out = p.handle_spotify_event_at(SpotifyEvent::Other, 90);
    assert!(out.event.is_none() && !out.pause_track);
    let out = p.handle_spotify_event_at(SpotifyEvent::Stopped, 100);
    assert!(out.pause_track);
    assert!(matches!(out.event, Some(PlayerEvent::Pause)));
    assert!(matches!(p.handle_command(PlayerCommand::GetPlaybackInfo), CommandAction::ReplyPlaybackInfo(None)));
    p.handle_spotify_event(SpotifyEvent::TrackChanged { audio_item: item(2) });
    let out = p.handle_spotify_event(SpotifyEvent::SessionDisconnected);
    assert!(out.pause_track);
    assert!(matches!(p.handle_command(PlayerCommand::GetLyrics), CommandAction::ReplyNoLyrics));
}

#[test]
fn sink_start_resumes_the_track() {
    assert!(handle_sink_event(SinkEvent::Start));
    assert!(!handle_sink_event(SinkEvent::Stop));
}

#[test]
fn connection_is_retried_until_the_fourth_failure() {
    assert_eq!(connect_retry(0, false), ConnectRetry::Retry(1));
    assert_eq!(connect_retry(1, false), ConnectRetry::Retry(2));
    assert_eq!(connect_retry(2, false), ConnectRetry::Retry(3));
    assert_eq!(connect_retry(3, false), ConnectRetry::GiveUp);
    assert_eq!(connect_retry(0, true), ConnectRetry::GiveUp);
    // Simulate the loop: count the attempts until giving up.
    let mut failures = 0;
    let mut attempts = 1;
    while let ConnectRetry::Retry(n) = connect_retry(failures, false) {
        failures = n;
        attempts += 1;
    }
    assert_eq!(attempts, 4);
}

fn text(s: &str) -> JsonText {
    JsonText::Text(s.to_string())
}

#[test]
fn jam_link_prefers_the_token() {
    let r = JamResponse {
        join_session_token: text("tok"),
        join_session_url: text("hm://x/sessions/join/other"),
        join_session_uri: JsonText::Missing,
    };
    assert_eq!(jam_link(&r), Ok("https://open.spotify.com/socialsession/tok".to_string()));
}

#[test]
fn jam_link_falls_back_to_the_last_segment() {
    let r = JamResponse {
        join_session_token: JsonText::Other,
        join_session_url: text("hm://social-connect/v2/sessions/join/ABC123"),
        join_session_uri: text("hm://ignored/zzz"),
    };
    assert_eq!(jam_link(&r), Ok("https://open.spotify.com/socialsession/ABC123".to_string()));
    let r = JamResponse {
        join_session_token: JsonText::Missing,
        join_session_url: JsonText::Missing,
        join_session_uri: text("no-slashes"),
    };
    assert_eq!(jam_link(&r), Ok("https://open.spotify.com/socialsession/no-slashes".to_string()));
}

#[test]
fn jam_link_refuses_missing_or_empty_tokens() {
    let msg = "Spotify did not return a Jam link. Your account may not support Jams.".to_string();
    let none = JamResponse { join_session_token: JsonText::Missing, join_session_url: JsonText::Missing, join_session_uri: JsonText::Missing };
    assert_eq!(jam_link(&none), Err(msg.clone()));
    // A url field that is present but not a string hides the uri field.
    let other = JamResponse { join_session_token: JsonText::Missing, join_session_url: JsonText::Other, join_session_uri: text("a/b") };
    assert_eq!(jam_link(&other), Err(msg.clone()));
    let trailing = JamResponse { join_session_token: JsonText::Missing, join_session_url: text("hm://x/"), join_session_uri: JsonText::Missing };
    assert_eq!(jam_link(&trailing), Err(msg.clone()));
    let empty = JamResponse { join_session_token: text(""), join_session_url: text("a/b"), join_session_uri: JsonText::Missing };
    assert_eq!(jam_link(&empty), Err(msg));
}

#[test]
fn last_segment_and_endpoint() {
    assert_eq!(last_path_segment("a/b/c").into_iter().collect::<String>(), "c");
    assert_eq!(last_path_segment("abc").into_iter().collect::<String>(), "abc");
    assert_eq!(last_path_segment("").into_iter().collect::<String>(), "");
    assert_eq!(
        jam_endpoint("dev42"),
        "/social-connect/v2/sessions/current_or_new?local_device_id=dev42"
    );
}

#[test]
fn playback_info_copies_are_equal() {
    let info = PlaybackInfo::new_at(item(9), 3, true, 7);
    let copy = info.duplicate();
    assert_eq!(copy.track_id(), 9);
    assert_eq!(copy.current_position_at(8), 4);
}

#[test]
fn state_reports_the_last_value_each_setter_sent() {
    let mut p = Player::new();
    for cmd in [PlayerCommand::Pause, PlayerCommand::GetPlaybackInfo, PlayerCommand::NextTrack, PlayerCommand::GetLyrics] {
        p.handle_command(cmd);
    }
    assert_eq!(state_of(&mut p), PlayerState { volume: DEFAULT_VOLUME, shuffle: false, repeat: RepeatMode::Off });
    for cmd in [
        PlayerCommand::SetVolume(10),
        PlayerCommand::SetShuffle(true),
        PlayerCommand::SetVolume(20),
        PlayerCommand::Play,
        PlayerCommand::SetRepeat(RepeatMode::Track),
        PlayerCommand::SetShuffle(false),
        PlayerCommand::PreviousTrack,
    ] {
        p.handle_command(cmd);
    }
    assert_eq!(state_of(&mut p), PlayerState { volume: 20, shuffle: false, repeat: RepeatMode::Track });
}

#[test]
fn jam_links_from_response_bodies() {
    assert_eq!(
        jam_link_from_body(br#"{"join_session_token":"tok"}"#),
        Ok("https://open.spotify.com/socialsession/tok".to_string())
    );
    assert_eq!(
        jam_link_from_body(br#"{"join_session_url":"hm://social-connect/v2/sessions/join/abc"}"#),
        Ok("https://open.spotify.com/socialsession/abc".to_string())
    );
    assert_eq!(
        jam_link_from_body(br#"{"join_session_uri":"a/b/xyz","session_id":"s"}"#),
        Ok("https://open.spotify.com/socialsession/xyz".to_string())
    );
    let unsupported = "Spotify did not return a Jam link. Your account may not support Jams.".to_string();
    assert_eq!(jam_link_from_body(br#"{"join_session_token":""}"#), Err(unsupported.clone()));
    assert_eq!(jam_link_from_body(br#"{"join_session_token":5}"#), Err(unsupported));
    let err = jam_link_from_body(b"nope").unwrap_err();
    assert!(err.starts_with("Could not parse Spotify's Jam response: "));
    assert!(err.len() > "Could not parse Spotify's Jam response: ".len());
}
