use spoticord::config::{
    cache_dir, device_name, discord_intents, discord_token, spotify_client_id, spotify_client_secret,
    spotify_redirect_uri, DISCONNECT_TIME, MOTD,
};
use spoticord::utils::{get_time, millis_of_reading, now, qr_png, secs_of_reading, render_qr, time_to_string, QrPngError};
use serenity::all::GatewayIntents;
use spoticord::auth::{oauth_redirect_uri, oauth_scopes, OAUTH_PORT};

#[test]
fn config_defaults_apply_when_unset() {
    assert_eq!(device_name(None), "Spoticord");
    assert_eq!(cache_dir(None), "/data");
    assert_eq!(spotify_redirect_uri(None), "http://127.0.0.1:8898/callback");
    assert_eq!(spotify_client_id(None), None);
    assert_eq!(spotify_client_secret(None), None);
}

#[test]
fn config_values_are_taken_when_set() {
    assert_eq!(device_name(Some("Living room".to_string())), "Living room");
    assert_eq!(cache_dir(Some("/tmp/cache".to_string())), "/tmp/cache");
    assert_eq!(spotify_redirect_uri(Some("http://localhost:1234/cb".to_string())), "http://localhost:1234/cb");
    assert_eq!(discord_token(Some("abc".to_string())), "abc");
    assert_eq!(spotify_client_id(Some("id".to_string())), Some("id".to_string()));
    assert_eq!(spotify_client_secret(Some("s".to_string())), Some("s".to_string()));
}

#[test]
fn config_empty_app_credentials_count_as_unset() {
    assert_eq!(spotify_client_id(Some(String::new())), None);
    assert_eq!(spotify_client_secret(Some(String::new())), None);
    // An empty device name is still a value, not the default.
    assert_eq!(device_name(Some(String::new())), "");
}

#[test]
fn config_intents_are_guilds_and_voice_states() {
    let bits = discord_intents();
    assert_eq!(bits, 129);
    assert_eq!(
        GatewayIntents::from_bits_truncate(bits),
        GatewayIntents::GUILDS | GatewayIntents::GUILD_VOICE_STATES
    );
    assert_eq!(MOTD, "some good 'ol music");
    assert_eq!(DISCONNECT_TIME, 300);
}

#[test]
fn time_to_string_uses_the_largest_unit() {
    assert_eq!(time_to_string(0), "0s");
    assert_eq!(time_to_string(59), "59s");
    assert_eq!(time_to_string(60), "1m0s");
    assert_eq!(time_to_string(125), "2m5s");
    assert_eq!(time_to_string(3599), "59m59s");
    assert_eq!(time_to_string(3600), "1h0m0s");
    assert_eq!(time_to_string(3661), "1h1m1s");
    assert_eq!(time_to_string(90061), "25h1m1s");
    assert_eq!(time_to_string(u32::MAX), "1193046h28m15s");
}

#[test]
fn clock_reads_after_2020() {
    assert!(get_time() > 1_577_836_800_000);
    assert!(now() > 1_577_836_800);
    let a = get_time();
    let b = get_time();
    assert!(b >= a);
}

#[test]
fn render_qr_paints_modules_inside_the_quiet_zone() {
    // A single dark module: 9 modules per side with the quiet zone, 72 pixels.
    let pixels = render_qr(1, &vec![true]);
    assert_eq!(pixels.len(), 72 * 72);
    for y in 0..72usize {
        for x in 0..72usize {
            let inside = (32..40).contains(&x) && (32..40).contains(&y);
            assert_eq!(pixels[y * 72 + x], if inside { 0 } else { 255 }, "pixel {x},{y}");
        }
    }
    let light = render_qr(1, &vec![false]);
    assert!(light.iter().all(|&p| p == 255));
}

#[test]
fn render_qr_lays_out_rows() {
    // 2x2 modules: dark at (x=1, y=0) only.
    let pixels = render_qr(2, &vec![false, true, false, false]);
    let side = 80;
    assert_eq!(pixels.len(), side * side);
    assert_eq!(pixels[32 * side + 40], 0);
    assert_eq!(pixels[32 * side + 47], 0);
    assert_eq!(pixels[39 * side + 40], 0);
    assert_eq!(pixels[32 * side + 39], 255);
    assert_eq!(pixels[40 * side + 40], 255);
}

#[test]
fn qr_png_produces_a_png_of_the_rendered_code() {
    let png = qr_png("https://open.spotify.com/socialsession/abc").unwrap();
    assert_eq!(&png[..8], &[0x89, b'P', b'N', b'G', b'\r', b'\n', 0x1a, b'\n']);
    let img = image::load_from_memory(&png).unwrap().to_luma8();
    assert_eq!(img.width(), img.height());
    let width = (img.width() / 8) as usize - 8;
    assert!((21..=177).contains(&width));
    // The quiet zone is white and the top-left finder pattern is dark.
    assert_eq!(img.get_pixel(0, 0).0[0], 255);
    assert_eq!(img.get_pixel(31, 31).0[0], 255);
    assert_eq!(img.get_pixel(32, 32).0[0], 0);
}

#[test]
fn qr_png_refuses_data_too_long_for_a_qr_code() {
    let long = "x".repeat(5000);
    assert_eq!(qr_png(&long), Err(QrPngError::Encode));
}

#[test]
fn oauth_settings() {
    assert_eq!(OAUTH_PORT, 8898);
    assert_eq!(oauth_redirect_uri(), "http://127.0.0.1:8898/login");
    assert_eq!(
        oauth_scopes(),
        vec![
            "streaming",
            "user-read-playback-state",
            "user-modify-playback-state",
            "user-read-currently-playing",
            "user-read-private",
            "user-read-email",
        ]
    );
}

#[test]
fn clock_readings_convert_to_millis_and_secs() {
    assert_eq!(millis_of_reading(None), 0);
    assert_eq!(secs_of_reading(None), 0);
    assert_eq!(millis_of_reading(Some((1_700_000_000, 987_654_321))), 1_700_000_000_987);
    assert_eq!(secs_of_reading(Some((1_700_000_000, 987_654_321))), 1_700_000_000);
    assert_eq!(millis_of_reading(Some((0, 999_999))), 0);
    assert_eq!(millis_of_reading(Some((u64::MAX, 999_999_999))), u64::MAX as u128 * 1000 + 999);
    let ms = get_time();
    let s = now();
    assert!(s >= (ms / 1000) as u64 && s <= (ms / 1000) as u64 + 1);
}
