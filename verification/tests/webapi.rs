use spoticord::player::JsonText;
use spoticord::webapi::{
    play_body, play_url,
    check_body, queue_from_body, search_from_body, token_from_body,
    add_to_queue_url, authorize_url, basic_authorization, bearer_authorization,
    exchange_code_body, parse_track, queue_results, queue_url, redirect_not_found_response,
    port_from_parsed, redirect_ok_response, redirect_outcome, redirect_port, refresh_body, search_results, search_url,
    token_from_response, token_is_fresh, CachedToken, RedirectOutcome,
    TokenResponse, TokenStep, TrackJson, WebApi, WebApiError,
};

fn text(s: &str) -> JsonText {
    JsonText::Text(s.to_string())
}

fn track(name: &str, uri: &str, artists: &[&str]) -> TrackJson {
    TrackJson {
        name: text(name),
        uri: text(uri),
        artists: Some(artists.iter().map(|a| text(a)).collect()),
        album_name: text("Album"),
        duration_ms: Some(61_000),
    }
}

#[test]
fn url_encoding_keeps_only_unreserved_bytes() {
    let base = "https://api.spotify.com/v1/search?type=track&limit=5&q=";
    assert_eq!(search_url("abc-XYZ_0.9~"), format!("{base}abc-XYZ_0.9~"));
    assert_eq!(search_url("a b&c=d"), format!("{base}a%20b%26c%3Dd"));
    assert_eq!(search_url("é"), format!("{base}%C3%A9"));
    assert_eq!(search_url(""), base);
}

#[test]
fn url_decoding() {
    assert_eq!(outcome("GET /cb?code=plain HTTP/1.1"), "code:plain");
    assert_eq!(outcome("GET /cb?code=a%20b HTTP/1.1"), "code:a b");
    assert_eq!(outcome("GET /cb?code=%C3%A9 HTTP/1.1"), "code:é");
    assert_eq!(outcome("GET /cb?code=+ HTTP/1.1"), "code:+");
    assert_eq!(outcome("GET /cb?code=%FF HTTP/1.1"), "bad");
}

#[test]
fn base64_standard_encoding() {
    assert_eq!(basic_authorization("id", "secret"), "Basic aWQ6c2VjcmV0");
    assert_eq!(basic_authorization("", ""), "Basic Og==");
    assert_eq!(basic_authorization("a", "bc"), "Basic YTpiYw==");
    assert_eq!(bearer_authorization("tok"), "Bearer tok");
}

#[test]
fn request_urls_and_bodies() {
    assert_eq!(search_url("daft punk"), "https://api.spotify.com/v1/search?type=track&limit=5&q=daft%20punk");
    assert_eq!(
        add_to_queue_url("spotify:track:abc"),
        "https://api.spotify.com/v1/me/player/queue?uri=spotify%3Atrack%3Aabc"
    );
    assert_eq!(queue_url(), "https://api.spotify.com/v1/me/player/queue");
    assert_eq!(
        authorize_url("cid", "http://127.0.0.1:8898/callback"),
        "https://accounts.spotify.com/authorize?client_id=cid&response_type=code&redirect_uri=http%3A%2F%2F127.0.0.1%3A8898%2Fcallback&scope=user-modify-playback-state%20user-read-playback-state"
    );
    assert_eq!(
        exchange_code_body("c/d", "http://x"),
        "grant_type=authorization_code&code=c%2Fd&redirect_uri=http%3A%2F%2Fx"
    );
    assert_eq!(refresh_body("r t"), "grant_type=refresh_token&refresh_token=r%20t");
}

#[test]
fn port_from_parsed_takes_only_an_explicit_port() {
    assert_eq!(port_from_parsed(Some(Some(8898))), Ok(8898));
    assert_eq!(port_from_parsed(Some(None)), Err(WebApiError::MissingRedirectPort));
    assert_eq!(port_from_parsed(None), Err(WebApiError::MissingRedirectPort));
}

#[test]
fn redirect_port_needs_an_explicit_port() {
    assert_eq!(redirect_port("http://127.0.0.1:8898/callback"), Ok(8898));
    assert_eq!(redirect_port("http://127.0.0.1/callback"), Err(WebApiError::MissingRedirectPort));
    assert_eq!(redirect_port("not a url"), Err(WebApiError::MissingRedirectPort));
}

#[test]
fn token_responses() {
    let ok = TokenResponse { access_token: text("a"), expires_in: Some(100), refresh_token: text("r") };
    let t = token_from_response(ok, None, 1000).unwrap();
    assert_eq!((t.access_token.as_str(), t.refresh_token.as_str(), t.expires_at), ("a", "r", 1100));
    // Refresh responses omit the refresh token: the old one is kept; expiry defaults to an hour.
    let refresh = TokenResponse { access_token: text("a2"), expires_in: None, refresh_token: JsonText::Missing };
    let t = token_from_response(refresh, Some("old".to_string()), 50).unwrap();
    assert_eq!((t.access_token.as_str(), t.refresh_token.as_str(), t.expires_at), ("a2", "old", 3650));
    let no_access = TokenResponse { access_token: JsonText::Other, expires_in: None, refresh_token: text("r") };
    assert_eq!(token_from_response(no_access, None, 0).err(), Some(WebApiError::NoAccessToken));
    let no_refresh = TokenResponse { access_token: text("a"), expires_in: None, refresh_token: JsonText::Other };
    assert_eq!(token_from_response(no_refresh, None, 0).err(), Some(WebApiError::NoRefreshToken));
}

#[test]
fn tokens_are_fresh_until_a_minute_before_expiry() {
    assert!(token_is_fresh(1000, 1061));
    assert!(!token_is_fresh(1000, 1060));
    assert!(!token_is_fresh(1000, 10));
}

#[test]
fn web_api_refreshes_stale_tokens() {
    let token = CachedToken { access_token: "acc".to_string(), refresh_token: "ref".to_string(), expires_at: 1000 };
    let mut api = WebApi::new("id".to_string(), "secret".to_string(), token);
    match api.access_token(500) {
        TokenStep::Ready(t) => assert_eq!(t, "acc"),
        _ => panic!("token should be fresh"),
    }
    match api.access_token(950) {
        TokenStep::Refresh { body, authorization } => {
            assert_eq!(body, "grant_type=refresh_token&refresh_token=ref");
            assert_eq!(authorization, "Basic aWQ6c2VjcmV0");
        }
        _ => panic!("token should be refreshed"),
    }
    let bad = TokenResponse { access_token: JsonText::Missing, expires_in: None, refresh_token: JsonText::Missing };
    assert_eq!(api.apply_refresh(bad, 950), Err(WebApiError::NoAccessToken));
    assert_eq!(api.token().access_token, "acc");
    let good = TokenResponse { access_token: text("new"), expires_in: Some(3600), refresh_token: JsonText::Missing };
    assert_eq!(api.apply_refresh(good, 950), Ok(()));
    assert_eq!(api.token().access_token, "new");
    assert_eq!(api.token().refresh_token, "ref");
    assert_eq!(api.token().expires_at, 4550);
    assert!(matches!(api.access_token(960), TokenStep::Ready(_)));
}

#[test]
fn tracks_are_read_from_web_api_objects() {
    let t = parse_track(&track("Song", "spotify:track:1", &["A", "B"])).unwrap();
    assert_eq!(t.name, "Song");
    assert_eq!(t.uri, "spotify:track:1");
    assert_eq!(t.artists, "A, B");
    assert_eq!(t.album, "Album");
    assert_eq!(t.duration_ms, 61_000);
}

#[test]
fn track_defaults_and_rejections() {
    let sparse = TrackJson {
        name: text("S"),
        uri: text("u"),
        artists: Some(vec![JsonText::Other, text("Only"), JsonText::Missing]),
        album_name: JsonText::Missing,
        duration_ms: None,
    };
    let t = parse_track(&sparse).unwrap();
    assert_eq!((t.artists.as_str(), t.album.as_str(), t.duration_ms), ("Only", "", 0));
    // Durations are cut to 32 bits.
    let long = TrackJson { duration_ms: Some((1u64 << 32) + 5), ..track("S", "u", &[]) };
    assert_eq!(parse_track(&long).unwrap().duration_ms, 5);
    assert_eq!(parse_track(&long).unwrap().artists, "");
    assert!(parse_track(&TrackJson { name: JsonText::Missing, ..track("S", "u", &[]) }).is_none());
    assert!(parse_track(&TrackJson { uri: JsonText::Other, ..track("S", "u", &[]) }).is_none());
    assert!(parse_track(&TrackJson { artists: None, ..track("S", "u", &[]) }).is_none());
}

#[test]
fn search_and_queue_responses() {
    let items = vec![track("A", "u1", &["x"]), TrackJson { uri: JsonText::Missing, ..track("B", "u2", &[]) }, track("C", "u3", &["y"])];
    let found = search_results(&Some(items)).unwrap();
    assert_eq!(found.iter().map(|t| t.name.as_str()).collect::<Vec<_>>(), vec!["A", "C"]);
    assert_eq!(search_results(&None).err(), Some(WebApiError::UnexpectedSearchResponse));
    assert_eq!(queue_results(&None).err(), Some(WebApiError::UnexpectedQueueResponse));
    assert!(queue_results(&Some(vec![])).unwrap().is_empty());
}

fn outcome(req: &str) -> String {
    match redirect_outcome(req) {
        RedirectOutcome::NotRedirect => "not-redirect".to_string(),
        RedirectOutcome::BadEncoding => "bad".to_string(),
        RedirectOutcome::Denied(e) => format!("denied:{e}"),
        RedirectOutcome::Code(c) => format!("code:{c}"),
        RedirectOutcome::NoCode => "none".to_string(),
    }
}

#[test]
fn redirect_requests() {
    assert_eq!(outcome("GET /callback?code=abc123&state=x HTTP/1.1\r\nHost: localhost\r\n\r\n"), "code:abc123");
    assert_eq!(outcome("GET /callback?error=access_denied HTTP/1.1\r\n\r\n"), "denied:access_denied");
    assert_eq!(outcome("GET /favicon.ico HTTP/1.1\r\n\r\n"), "not-redirect");
    assert_eq!(outcome(""), "not-redirect");
    assert_eq!(outcome("GET"), "not-redirect");
    assert_eq!(outcome("GET /callback?state=1 HTTP/1.1\r\n"), "none");
    assert_eq!(outcome("GET /cb?code=a%20b HTTP/1.1"), "code:a b");
    assert_eq!(outcome("GET /cb?code=1&code=2 HTTP/1.1"), "code:2");
    assert_eq!(outcome("GET /cb?code=1&error=no HTTP/1.1"), "denied:no");
    assert_eq!(outcome("GET /cb?code=%FF HTTP/1.1"), "bad");
    assert_eq!(outcome("GET /cb?other=%FF&code=ok HTTP/1.1"), "code:ok");
    assert_eq!(outcome("  GET \t /cb?code=z   HTTP/1.1"), "code:z");
    assert_eq!(outcome("GET /cb?a=b?c=d&code==x HTTP/1.1"), "code:=x");
}

#[test]
fn redirect_responses() {
    let ok = redirect_ok_response();
    let body = "<html><body><h2>Spotify authorization complete.</h2>You can close this tab.</body></html>";
    assert_eq!(
        ok,
        format!("HTTP/1.1 200 OK\r\nContent-Type: text/html\r\nContent-Length: {}\r\nConnection: close\r\n\r\n{body}", body.len())
    );
    assert_eq!(redirect_not_found_response(), "HTTP/1.1 404 Not Found\r\nContent-Length: 0\r\nConnection: close\r\n\r\n");
}

#[test]
fn search_and_queue_bodies() {
    let body = br#"{"tracks":{"items":[
        {"name":"A","uri":"spotify:track:a","artists":[{"name":"X"},{"name":"Y"},{"id":1}],"album":{"name":"Al"},"duration_ms":61000},
        {"name":"B","artists":[]},
        {"name":"C","uri":"spotify:track:c","artists":[],"duration_ms":-5}
    ]}}"#;
    let found = search_from_body(body).unwrap();
    assert_eq!(found.len(), 2);
    assert_eq!(
        (found[0].name.as_str(), found[0].artists.as_str(), found[0].album.as_str(), found[0].uri.as_str(), found[0].duration_ms),
        ("A", "X, Y", "Al", "spotify:track:a", 61000)
    );
    assert_eq!((found[1].name.as_str(), found[1].album.as_str(), found[1].duration_ms), ("C", "", 0));
    assert_eq!(search_from_body(br#"{"tracks":{}}"#).err(), Some(WebApiError::UnexpectedSearchResponse));
    assert_eq!(search_from_body(b"").err(), Some(WebApiError::UnexpectedSearchResponse));
    assert!(matches!(search_from_body(b"{not json"), Err(WebApiError::BadJson(_))));
    let queue = queue_from_body(br#"{"currently_playing":null,"queue":[{"name":"Q","uri":"u","artists":[{"name":"Z"}]}]}"#).unwrap();
    assert_eq!((queue[0].name.as_str(), queue[0].artists.as_str()), ("Q", "Z"));
    assert_eq!(queue_from_body(b"[]").err(), Some(WebApiError::UnexpectedQueueResponse));
    assert_eq!(check_body(b""), Ok(()));
    assert_eq!(check_body(b"{}"), Ok(()));
    assert!(matches!(check_body(b"oops"), Err(WebApiError::BadJson(_))));
}

#[test]
fn token_bodies() {
    let t = token_from_body(br#"{"access_token":"a","expires_in":100,"refresh_token":"r"}"#, None, 1000).unwrap();
    assert_eq!((t.access_token.as_str(), t.refresh_token.as_str(), t.expires_at), ("a", "r", 1100));
    let t = token_from_body(br#"{"access_token":"b"}"#, Some("old".to_string()), 0).unwrap();
    assert_eq!((t.refresh_token.as_str(), t.expires_at), ("old", 3600));
    assert_eq!(token_from_body(br#"{"access_token":"b"}"#, None, 0).err(), Some(WebApiError::NoRefreshToken));
    assert_eq!(token_from_body(br#"{"error":"x"}"#, None, 0).err(), Some(WebApiError::NoAccessToken));
    assert_eq!(
        token_from_body(br#"{"access_token":"a","expires_in":10}"#, Some("r".to_string()), u64::MAX - 5).err(),
        Some(WebApiError::ExpiresInTooLarge)
    );
    assert!(matches!(token_from_body(b"", None, 0), Err(WebApiError::BadJson(_))));
}

#[test]
fn refresh_bodies_update_the_token() {
    let token = CachedToken { access_token: "old".to_string(), refresh_token: "keep".to_string(), expires_at: 1000 };
    let mut api = WebApi::new("id".to_string(), "secret".to_string(), token);
    assert!(matches!(api.apply_refresh_body(b"<html>", 950), Err(WebApiError::BadJson(_))));
    assert_eq!(api.token().access_token, "old");
    assert_eq!(api.apply_refresh_body(br#"{"access_token":"new","expires_in":60}"#, 950), Ok(()));
    assert_eq!((api.token().access_token.as_str(), api.token().refresh_token.as_str(), api.token().expires_at), ("new", "keep", 1010));
}

#[test]
fn play_requests() {
    assert_eq!(play_url(), "https://api.spotify.com/v1/me/player/play");
    assert_eq!(play_body("spotify:track:abc"), r#"{"uris":["spotify:track:abc"]}"#);
    assert_eq!(play_body("a\"b\\c\n\u{1f}"), r#"{"uris":["a\"b\\c\u000a\u001f"]}"#);
    let parsed: serde_json::Value = serde_json::from_str(&play_body("x\"\\\ty")).unwrap();
    assert_eq!(parsed["uris"][0], "x\"\\\ty");
}
