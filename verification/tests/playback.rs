use spoticord::info::{ArtistWithRole, AudioItem, CoverImage, PlaybackInfo, TrackUri, UniqueFields};

fn track_item(id: u128, artists: Vec<ArtistWithRole>) -> AudioItem {
    AudioItem {
        track_id: TrackUri::Track { id },
        name: "Song".to_string(),
        covers: vec![CoverImage { url: "https://i.scdn.co/cover".to_string() }],
        duration_ms: 215_000,
        unique_fields: UniqueFields::Track { artists, album: "Album".to_string() },
    }
}

fn artist(id: u128, name: &str) -> ArtistWithRole {
    ArtistWithRole { id: TrackUri::Artist { id }, name: name.to_string(), role: 1 }
}

#[test]
fn to_id_renders_22_base62_digits() {
    assert_eq!(TrackUri::Track { id: 0 }.to_id(), "0000000000000000000000");
    assert_eq!(TrackUri::Track { id: 61 }.to_id(), "000000000000000000000Z");
    assert_eq!(TrackUri::Track { id: 62 }.to_id(), "0000000000000000000010");
    assert_eq!(TrackUri::Album { id: 35 }.to_id(), "000000000000000000000z");
    assert_eq!(TrackUri::Episode { id: 10 }.to_id(), "000000000000000000000a");
    // u128::MAX = 7N42dgm5tFLK9N8MT7fHC7 in base62.
    assert_eq!(TrackUri::Show { id: u128::MAX }.to_id(), "7N42dgm5tFLK9N8MT7fHC7");
    assert_eq!(
        TrackUri::Playlist { user: Some("me".to_string()), id: 1 }.to_id(),
        "0000000000000000000001"
    );
}

#[test]
fn to_id_of_local_and_unknown() {
    let local = TrackUri::Local {
        artist: "A".to_string(),
        album_title: "B".to_string(),
        track_title: "C".to_string(),
        duration_secs: 187,
    };
    assert_eq!(local.to_id(), "A:B:C:187");
    let unknown = TrackUri::Unknown { kind: "thing".to_string(), id: "xyz".to_string() };
    assert_eq!(unknown.to_id(), "xyz");
}

#[test]
fn playback_info_reads_track_fields() {
    let info = PlaybackInfo::new_at(track_item(62, vec![artist(1, "X")]), 1000, true, 5000);
    assert_eq!(info.track_id(), 62);
    assert_eq!(info.track_id_string(), "0000000000000000000010");
    assert_eq!(info.name(), "Song");
    assert_eq!(info.album_name(), Some("Album".to_string()));
    assert_eq!(info.show_name(), None);
    assert_eq!(info.thumbnail(), "https://i.scdn.co/cover");
    assert_eq!(info.duration(), 215_000);
    assert_eq!(info.url(), "https://open.spotify.com/track/0000000000000000000010");
    assert!(info.is_track());
    assert!(!info.is_episode());
    assert!(info.playing());
}

#[test]
fn playback_info_episode_and_local() {
    let episode = AudioItem {
        track_id: TrackUri::Episode { id: 10 },
        name: "Ep".to_string(),
        covers: vec![],
        duration_ms: 1,
        unique_fields: UniqueFields::Episode { show_name: "Show".to_string() },
    };
    let info = PlaybackInfo::new_at(episode, 0, false, 0);
    assert_eq!(info.show_name(), Some("Show".to_string()));
    assert_eq!(info.album_name(), None);
    assert!(info.artists().is_none());
    assert!(info.is_episode() && !info.is_track());
    assert_eq!(info.url(), "https://open.spotify.com/episode/000000000000000000000a");

    let local = AudioItem {
        track_id: TrackUri::Local {
            artist: "A".to_string(),
            album_title: "B".to_string(),
            track_title: "C".to_string(),
            duration_secs: 3,
        },
        name: "C".to_string(),
        covers: vec![],
        duration_ms: 3000,
        unique_fields: UniqueFields::Local { album: None },
    };
    let info = PlaybackInfo::new_at(local, 0, false, 0);
    assert_eq!(info.track_id(), 0);
    assert_eq!(info.url(), "https://open.spotify.com");
    assert_eq!(info.album_name(), None);
    assert!(!info.is_episode() && !info.is_track());
}

#[test]
fn artists_keep_the_first_of_each_id_in_order() {
    let info = PlaybackInfo::new_at(
        track_item(1, vec![artist(7, "A"), artist(8, "B"), artist(7, "A again"), artist(9, "C"), artist(8, "B again")]),
        0,
        false,
        0,
    );
    let names: Vec<String> = info.artists().unwrap().into_iter().map(|a| a.name).collect();
    assert_eq!(names, vec!["A", "B", "C"]);
}

#[test]
fn artists_of_a_track_without_duplicates_are_unchanged() {
    let info = PlaybackInfo::new_at(track_item(1, vec![artist(3, "Z"), artist(2, "Y")]), 0, false, 0);
    let names: Vec<String> = info.artists().unwrap().into_iter().map(|a| a.name).collect();
    assert_eq!(names, vec!["Z", "Y"]);
    let empty = PlaybackInfo::new_at(track_item(1, vec![]), 0, false, 0);
    assert!(empty.artists().unwrap().is_empty());
}

#[test]
fn position_advances_only_while_playing() {
    let playing = PlaybackInfo::new_at(track_item(1, vec![]), 1000, true, 10_000);
    assert_eq!(playing.current_position_at(10_000), 1000);
    assert_eq!(playing.current_position_at(12_500), 3500);
    let paused = PlaybackInfo::new_at(track_item(1, vec![]), 1000, false, 10_000);
    assert_eq!(paused.current_position_at(99_999), 1000);
    assert_eq!(paused.current_position(), Some(1000));
}

#[test]
fn current_position_is_none_when_the_update_lies_in_the_future() {
    let future = PlaybackInfo::new_at(track_item(1, vec![]), 5, true, u128::MAX);
    assert_eq!(future.current_position(), None);
    let now = PlaybackInfo::new(track_item(1, vec![]), 5, true);
    let p = now.current_position().unwrap();
    assert!(p >= 5);
}

#[test]
fn update_playback_and_track() {
    let mut info = PlaybackInfo::new_at(track_item(1, vec![]), 0, false, 0);
    info.update_playback_at(4000, true, 100);
    assert_eq!(info.current_position_at(100), 4000);
    assert!(info.playing());
    info.update_track(track_item(2, vec![]));
    assert_eq!(info.track_id(), 2);
    assert_eq!(info.current_position_at(150), 4050);
    info.update_playback(10, false);
    assert!(!info.playing());
    assert_eq!(info.current_position(), Some(10));
}

#[test]
fn position_from_a_clock_reading() {
    let playing = PlaybackInfo::new_at(track_item(1, vec![]), 1000, true, 10_000);
    assert_eq!(playing.position_from_clock(10_000), Some(1000));
    assert_eq!(playing.position_from_clock(12_500), Some(3500));
    assert_eq!(playing.position_from_clock(9_999), None);
    let near_end = PlaybackInfo::new_at(track_item(1, vec![]), u32::MAX - 10, true, 0);
    assert_eq!(near_end.position_from_clock(10), Some(u32::MAX));
    assert_eq!(near_end.position_from_clock(11), None);
    let paused = PlaybackInfo::new_at(track_item(1, vec![]), 1000, false, 10_000);
    assert_eq!(paused.position_from_clock(0), Some(1000));
    assert_eq!(paused.position_from_clock(u128::MAX), Some(1000));
}
