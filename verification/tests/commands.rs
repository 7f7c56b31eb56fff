use spoticord::commands::{
    duration, jam_reply, not_configured_embed, not_playing_reply, now_playing_embed, parse_index,
    queue_added_message, queue_embed, queue_listing_reply, repeat_updated_reply, result_buttons,
    results_embed, search_step, selected_result, shuffle_reply, volume_updated_reply, Colors, SearchCommand,
    SearchStep,
};
use spoticord::player::RepeatMode;
use spoticord::utils::qr_png;
use spoticord::webapi::TrackResult;

fn track(i: u32) -> TrackResult {
    TrackResult {
        name: format!("Song {i}"),
        artists: "Artist".to_string(),
        album: "Album".to_string(),
        uri: format!("spotify:track:{i}"),
        duration_ms: 61_000 + i,
    }
}

#[test]
fn parse_index_reads_button_ids() {
    assert_eq!(parse_index("trk-0"), Some(0));
    assert_eq!(parse_index("trk-3"), Some(3));
    assert_eq!(parse_index("trk-007"), Some(7));
    assert_eq!(parse_index("trk-+4"), Some(4));
    assert_eq!(parse_index("trk-"), None);
    assert_eq!(parse_index("trk-+"), None);
    assert_eq!(parse_index("trk--1"), None);
    assert_eq!(parse_index("trk-1a"), None);
    assert_eq!(parse_index("trk-99999999999999999999999"), None);
    assert_eq!(parse_index("xyz-1"), None);
    assert_eq!(parse_index("trk"), None);
    assert_eq!(parse_index(&format!("trk-{}", usize::MAX)), Some(usize::MAX));
}

#[test]
fn button_ids_round_trip() {
    let results: Vec<TrackResult> = (0..12).map(track).collect();
    let buttons = result_buttons(&results, "▶️");
    assert_eq!(buttons.len(), 12);
    for (i, b) in buttons.iter().enumerate() {
        assert_eq!(b.custom_id, format!("trk-{i}"));
        assert_eq!(b.label, format!("▶️ {}", i + 1));
        assert_eq!(parse_index(&b.custom_id), Some(i));
        assert_eq!(selected_result(&b.custom_id, &results), Some(i));
    }
    assert_eq!(selected_result("trk-12", &results), None);
    assert_eq!(selected_result("nope", &results), None);
}

#[test]
fn durations_are_formatted_from_milliseconds() {
    assert_eq!(duration(0), "0:00");
    assert_eq!(duration(999), "0:00");
    assert_eq!(duration(61_000), "1:01");
    assert_eq!(duration(215_000), "3:35");
    assert_eq!(duration(5_999), "0:05");
    assert_eq!(duration(600_000), "10:00");
    assert_eq!(duration(3_723_000), "62:03");
}

#[test]
fn results_embed_lists_every_result() {
    let e = results_embed("T", "Sub", &vec![track(1), track(2)]);
    assert_eq!(e.title, "T");
    assert_eq!(e.color, Colors::Info);
    assert_eq!(
        e.description,
        "Sub\n\n**1.** Song 1 — Artist · `1:01`\n**2.** Song 2 — Artist · `1:01`\n"
    );
}

#[test]
fn queue_embed_shows_at_most_15_tracks() {
    let tracks: Vec<TrackResult> = (0..20).map(track).collect();
    let e = queue_embed(&tracks);
    assert_eq!(e.title, "🎶 Up next");
    assert_eq!(e.description.lines().count(), 15);
    assert!(e.description.starts_with("**1.** Song 0 — Artist · `1:01`\n"));
    assert!(e.description.ends_with("**15.** Song 14 — Artist · `1:01`\n"));
    let short = queue_embed(&vec![track(5)]);
    assert_eq!(short.description, "**1.** Song 5 — Artist · `1:01`\n");
}

#[test]
fn now_playing_and_not_configured() {
    let e = now_playing_embed(&track(3));
    assert_eq!(e.title, "▶️ Now playing");
    assert_eq!(e.description, "**Song 3** — Artist\nAlbum: Album");
    let n = not_configured_embed();
    assert_eq!(n.title, "Spotify search isn't set up");
    assert_eq!(n.color, Colors::Error);
    assert!(n.description.starts_with("`/play` and `/queue` need your own Spotify app.\nSet `SPOTIFY_CLIENT_ID`"));
}

#[test]
fn replies_of_the_simple_commands() {
    let r = not_playing_reply("Cannot play", true);
    assert!(r.ephemeral);
    assert_eq!(r.embed.title, "Cannot play");
    assert_eq!(r.embed.description, "I'm currently not playing any music in this server.\nUse `/join` first.");
    let r = not_playing_reply("Cannot change volume", false);
    assert_eq!(r.embed.description, "I'm currently not playing any music in this server.");
    let r = volume_updated_reply(42);
    assert_eq!((r.embed.title.as_str(), r.embed.description.as_str()), ("Volume updated", "Playback volume set to **42%**"));
    let r = shuffle_reply(true);
    assert_eq!((r.embed.title.as_str(), r.embed.description.as_str()), ("Shuffle enabled", "Playback is now shuffled."));
    let r = shuffle_reply(false);
    assert_eq!((r.embed.title.as_str(), r.embed.description.as_str()), ("Shuffle disabled", "Playback is no longer shuffled."));
    let r = repeat_updated_reply(RepeatMode::Track);
    assert_eq!(r.embed.description, "Repeat mode set to **One**.");
    assert!(!r.ephemeral);
}

#[test]
fn jam_replies() {
    let link = "https://open.spotify.com/socialsession/x";
    let r = jam_reply(&Ok(link.to_string()));
    assert_eq!(r.reply.embed.title, "🎉 Spotify Jam");
    assert_eq!(r.reply.embed.description, "Anyone with this link can join and control the music:\n\nhttps://open.spotify.com/socialsession/x");
    assert!(!r.reply.ephemeral);
    let png = r.qr_code.expect("the link fits in a QR code");
    assert_eq!(&png[..8], &[0x89, b'P', b'N', b'G', 0x0D, 0x0A, 0x1A, 0x0A]);
    assert_eq!(Some(png), qr_png(link).ok());
    let r = jam_reply(&Err("no".to_string()));
    assert_eq!((r.reply.embed.title.as_str(), r.reply.embed.description.as_str()), ("Could not start a Jam", "no"));
    assert!(r.reply.ephemeral);
    assert_eq!(r.reply.embed.color, Colors::Error);
    assert!(r.qr_code.is_none());
}

#[test]
fn search_steps() {
    match search_step(SearchCommand::Play, "q", &Err("boom".to_string())) {
        SearchStep::Stop(r) => {
            assert_eq!((r.embed.title.as_str(), r.embed.description.as_str()), ("Search failed", "boom"));
            assert!(r.ephemeral);
        }
        _ => panic!("expected a stop"),
    }
    match search_step(SearchCommand::Queue, "zzz", &Ok(vec![])) {
        SearchStep::Stop(r) => {
            assert_eq!(r.embed.title, "No results");
            assert_eq!(r.embed.description, "Nothing on Spotify matched **zzz**.");
            assert_eq!(r.embed.color, Colors::Warning);
        }
        _ => panic!("expected a stop"),
    }
    match search_step(SearchCommand::Play, "song", &Ok(vec![track(1)])) {
        SearchStep::Choose { embed, buttons } => {
            assert_eq!(embed.title, "🔎 Search results");
            assert_eq!(embed.description, "Results for **song** — pick a track to play:\n\n**1.** Song 1 — Artist · `1:01`\n");
            assert_eq!(buttons[0].label, "▶️ 1");
        }
        _ => panic!("expected a choice"),
    }
    match search_step(SearchCommand::Queue, "song", &Ok(vec![track(1), track(2)])) {
        SearchStep::Choose { embed, buttons } => {
            assert_eq!(embed.title, "🔎 Add to queue");
            assert!(embed.description.starts_with("Results for **song** — tap to add to the queue:\n\n"));
            assert_eq!(buttons.len(), 2);
            assert_eq!(buttons[1].label, "➕ 2");
        }
        _ => panic!("expected a choice"),
    }
}

#[test]
fn queue_listing_and_follow_ups() {
    let r = queue_listing_reply(&Ok(vec![]));
    assert_eq!((r.embed.title.as_str(), r.embed.description.as_str()), ("🎶 Up next", "The queue is empty."));
    let r = queue_listing_reply(&Ok(vec![track(1)]));
    assert_eq!(r.embed.description, "**1.** Song 1 — Artist · `1:01`\n");
    let r = queue_listing_reply(&Err("down".to_string()));
    assert_eq!((r.embed.title.as_str(), r.embed.description.as_str()), ("Could not read the queue", "down"));
    assert!(r.ephemeral);
    assert_eq!(queue_added_message(&track(1), &Ok(())), "➕ Added **Song 1** — Artist to the queue");
    assert_eq!(queue_added_message(&track(1), &Err("x".to_string())), "Could not add to the queue: x");
}
