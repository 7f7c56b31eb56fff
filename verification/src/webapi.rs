//! The Spotify Web API client's own logic: request urls and bodies, the
//! access-token life cycle, and reading tracks out of Spotify's responses.
//! The HTTP exchange itself and the token cache file belong to the caller.
use vstd::prelude::*;
use base64::Engine;
use url::Url;
use vstd::string::StringSliceAdditionalSpecFns;
use crate::text::{
    chars_of, push_str, push_chars, into_string, decimal, push_decimal, find_first, split_once, split_on,
    views, words, first_line, find_char, slice_chars, chars_eq, split_chars, split_words, first_line_of,
    lemma_find_first,
};
use crate::player::{JsonText, TextView};
use crate::info::opt_view;
use crate::json::{
    Json, JsonView, json_view, opt_json, item_views, lemma_item_views, field, text_at, u64_at, json_field,
    json_text, json_u64, json_parsed, body_json, parse_body, api_body,
};

verus! {

/// Whether a byte is left as is by url encoding: ASCII letters, digits and `-._~`.
pub open spec fn unreserved(b: u8) -> bool {
    (48 <= b <= 57) || (65 <= b <= 90) || (97 <= b <= 122) || b == 45 || b == 46 || b == 95 || b == 126
}

/// An upper-case hexadecimal digit.
pub open spec fn hex_upper(d: u8) -> char {
    if d < 10 {
        (48 + d) as char
    } else {
        (55 + d) as char
    }
}

/// Percent-encoding of a byte string: unreserved bytes as themselves, every
/// other byte as `%` and two upper-case hex digits.
pub open spec fn percent_encode(bytes: Seq<u8>) -> Seq<char>
    decreases bytes.len(),
{
    if bytes.len() == 0 {
        Seq::empty()
    } else {
        let b = bytes.last();
        percent_encode(bytes.drop_last()) + if unreserved(b) {
            seq![b as char]
        } else {
            seq!['%', hex_upper(b / 16), hex_upper(b % 16)]
        }
    }
}

/// `urlencoding::encode`: percent-encodes the UTF-8 bytes of `s`.
#[verifier::external_body]
pub(crate) fn url_encode(s: &str) -> (r: String)
    ensures
        r@ == percent_encode(s.spec_bytes()),
{
    urlencoding::encode(s).into_owned()
}

/// The result of `urlencoding::decode` on a string: `None` when the decoded
/// bytes are not UTF-8.
pub uninterp spec fn url_decoded(s: Seq<char>) -> Option<Seq<char>>;

/// `urlencoding::decode`. Its result is named by [`url_decoded`]; the source
/// also shows that a string without `%` decodes to itself.
#[verifier::external_body]
pub(crate) fn url_decode(s: &str) -> (r: Option<String>)
    ensures
        opt_view(r) == url_decoded(s@),
        !s@.contains('%') ==> opt_view(r) == Some(s@),
{
    match urlencoding::decode(s) {
        Ok(d) => Some(d.into_owned()),
        Err(_) => None,
    }
}

/// A digit of the standard base64 alphabet: `A`–`Z`, `a`–`z`, `0`–`9`, `+`, `/`.
pub open spec fn base64_digit(d: nat) -> char {
    if d < 26 {
        (65 + d) as char
    } else if d < 52 {
        (97 + (d - 26)) as char
    } else if d < 62 {
        (48 + (d - 52)) as char
    } else if d == 62 {
        '+'
    } else {
        '/'
    }
}

/// The standard base64 encoding of a byte string: each group of three bytes
/// as four digits of six bits, a last group of one or two bytes padded with `=`.
pub open spec fn base64_standard(b: Seq<u8>) -> Seq<char>
    decreases b.len(),
{
    if b.len() == 0 {
        Seq::empty()
    } else if b.len() == 1 {
        seq![base64_digit((b[0] / 4) as nat), base64_digit(((b[0] % 4) * 16) as nat), '=', '=']
    } else if b.len() == 2 {
        seq![
            base64_digit((b[0] / 4) as nat),
            base64_digit(((b[0] % 4) * 16 + b[1] / 16) as nat),
            base64_digit(((b[1] % 16) * 4) as nat),
            '=',
        ]
    } else {
        seq![
            base64_digit((b[0] / 4) as nat),
            base64_digit(((b[0] % 4) * 16 + b[1] / 16) as nat),
            base64_digit(((b[1] % 16) * 4 + b[2] / 64) as nat),
            base64_digit((b[2] % 64) as nat),
        ] + base64_standard(b.skip(3))
    }
}

/// `base64::engine::general_purpose::STANDARD.encode`: the padded encoding
/// with the standard alphabet, as [`base64_standard`] states it.
#[verifier::external_body]
pub(crate) fn base64_encode(bytes: &[u8]) -> (r: String)
    requires
        bytes@.len() <= usize::MAX / 2,
    ensures
        r@ == base64_standard(bytes@),
{
    base64::engine::general_purpose::STANDARD.encode(bytes)
}

/// An error of the Web API client.
#[derive(Debug, Clone, PartialEq, Eq)]
pub enum WebApiError {
    /// The search response had no `tracks.items` array.
    UnexpectedSearchResponse,
    /// The queue response had no `queue` array.
    UnexpectedQueueResponse,
    /// The token response had no string `access_token`.
    NoAccessToken,
    /// The token response had no `refresh_token`, and none was held before.
    NoRefreshToken,
    /// The redirect uri has no explicit port to listen on.
    MissingRedirectPort,
    /// The user refused the authorization; the error Spotify reported.
    AuthorizationDenied(String),
    /// A `code` or `error` value of the redirect was not valid percent-encoded UTF-8.
    BadRedirectEncoding,
    /// A response body was not JSON; the parser's message.
    BadJson(String),
    /// The token response gave a lifetime that takes the expiry past the largest time.
    ExpiresInTooLarge,
}

/// What `Url::parse` makes of a text, read as the url's explicit port:
/// `None` where the text is refused, `Some(None)` where the url has no port of
/// its own (none written, or the scheme's default).
pub uninterp spec fn url_explicit_port(s: Seq<char>) -> Option<Option<u16>>;

/// `Url::parse`, then `Url::port` on the parsed url; named by [`url_explicit_port`].
#[verifier::external_body]
fn parse_url_port(s: &str) -> (r: Option<Option<u16>>)
    ensures
        r == url_explicit_port(s@),
{
    match Url::parse(s) {
        Ok(u) => Some(u.port()),
        Err(_) => None,
    }
}

/// The port to listen on, given what parsing the redirect uri gave: its
/// explicit port, or `MissingRedirectPort` where it was refused or has none.
pub fn port_from_parsed(parsed: Option<Option<u16>>) -> (r: Result<u16, WebApiError>)
    ensures
        r == match parsed {
            Some(Some(port)) => Ok::<u16, WebApiError>(port),
            _ => Err(WebApiError::MissingRedirectPort),
        },
{
    match parsed {
        Some(Some(port)) => Ok(port),
        _ => Err(WebApiError::MissingRedirectPort),
    }
}

/// The port the one-time authorization listens on: the explicit port of the
/// redirect uri.
pub fn redirect_port(redirect_uri: &str) -> (r: Result<u16, WebApiError>)
    ensures
        r == match url_explicit_port(redirect_uri@) {
            Some(Some(port)) => Ok::<u16, WebApiError>(port),
            _ => Err(WebApiError::MissingRedirectPort),
        },
{
    port_from_parsed(parse_url_port(redirect_uri))
}

pub open spec fn api_base() -> Seq<char> {
    "https://api.spotify.com/v1"@
}

/// The scopes the one-time authorization asks for.
pub open spec fn scopes() -> Seq<char> {
    "user-modify-playback-state user-read-playback-state"@
}

fn push_encoded(out: &mut Vec<char>, s: &str)
    ensures
        final(out)@ == old(out)@ + percent_encode(s.spec_bytes()),
{
    let e = url_encode(s);
    push_str(out, e.as_str());
}

/// The search request for the top 5 tracks matching `query`.
pub fn search_url(query: &str) -> (s: String)
    ensures
        s@ == api_base() + "/search?type=track&limit=5&q="@ + percent_encode(query.spec_bytes()),
{
    let mut out: Vec<char> = Vec::new();
    push_str(&mut out, "https://api.spotify.com/v1");
    push_str(&mut out, "/search?type=track&limit=5&q=");
    push_encoded(&mut out, query);
    into_string(out)
}

/// The request that adds the track `uri` to the play queue.
pub fn add_to_queue_url(uri: &str) -> (s: String)
    ensures
        s@ == api_base() + "/me/player/queue?uri="@ + percent_encode(uri.spec_bytes()),
{
    let mut out: Vec<char> = Vec::new();
    push_str(&mut out, "https://api.spotify.com/v1");
    push_str(&mut out, "/me/player/queue?uri=");
    push_encoded(&mut out, uri);
    into_string(out)
}

/// The request that reads the play queue.
pub fn queue_url() -> (s: String)
    ensures
        s@ == api_base() + "/me/player/queue"@,
{
    let mut out: Vec<char> = Vec::new();
    push_str(&mut out, "https://api.spotify.com/v1");
    push_str(&mut out, "/me/player/queue");
    into_string(out)
}

/// The request that starts playing given tracks on the active device.
pub fn play_url() -> (s: String)
    ensures
        s@ == api_base() + "/me/player/play"@,
{
    let mut out: Vec<char> = Vec::new();
    push_str(&mut out, "https://api.spotify.com/v1");
    push_str(&mut out, "/me/player/play");
    into_string(out)
}

/// A hexadecimal digit, lower case.
pub open spec fn hex_lower(d: nat) -> char {
    if d < 10 {
        (48 + d) as char
    } else {
        (87 + d) as char
    }
}

/// One character inside a JSON string literal: `"` and `\` behind a
/// backslash, control characters as `\u00XX`, any other as itself.
pub open spec fn json_escaped(c: char) -> Seq<char> {
    if c == '"' || c == '\\' {
        seq!['\\', c]
    } else if (c as u32) < 32 {
        seq!['\\', 'u', '0', '0', hex_lower(((c as u32) / 16) as nat), hex_lower(((c as u32) % 16) as nat)]
    } else {
        seq![c]
    }
}

/// The characters of `s`, each escaped for a JSON string literal.
pub open spec fn json_escape(s: Seq<char>) -> Seq<char>
    decreases s.len(),
{
    if s.len() == 0 {
        Seq::empty()
    } else {
        json_escape(s.drop_last()) + json_escaped(s.last())
    }
}

fn push_json_escaped(out: &mut Vec<char>, c: char)
    ensures
        final(out)@ == old(out)@ + json_escaped(c),
{
    if c == '"' || c == '\\' {
        out.push('\\');
        out.push(c);
    } else if (c as u32) < 32 {
        let code: u32 = c as u32;
        let hi: u8 = (code / 16) as u8 + 48;
        let lo_d: u8 = (code % 16) as u8;
        let lo: u8 = if lo_d < 10 { lo_d + 48 } else { lo_d + 87 };
        out.push('\\');
        out.push('u');
        out.push('0');
        out.push('0');
        out.push(hi as char);
        out.push(lo as char);
    } else {
        out.push(c);
    }
    assert(final(out)@ =~= old(out)@ + json_escaped(c)) by {
        assert(json_escaped(c) =~= final(out)@.subrange(old(out)@.len() as int, final(out)@.len() as int));
    }
}

/// The JSON body that plays exactly the track `uri`.
pub fn play_body(uri: &str) -> (s: String)
    ensures
        s@ == "{\"uris\":[\""@ + json_escape(uri@) + "\"]}"@,
{
    let chars = chars_of(uri);
    let mut out: Vec<char> = Vec::new();
    push_str(&mut out, "{\"uris\":[\"");
    let ghost start = out@;
    let mut i: usize = 0;
    while i < chars.len()
        invariant
            i <= chars.len(),
            chars@ == uri@,
            out@ == start + json_escape(chars@.subrange(0, i as int)),
        decreases chars.len() - i,
    {
        let ghost prev = chars@.subrange(0, i as int);
        assert(chars@.subrange(0, i + 1).drop_last() =~= prev);
        push_json_escaped(&mut out, chars[i]);
        i = i + 1;
        assert(out@ =~= start + json_escape(chars@.subrange(0, i as int)));
    }
    assert(chars@.subrange(0, chars.len() as int) =~= uri@);
    push_str(&mut out, "\"]}");
    into_string(out)
}

/// The consent page of the one-time authorization.
pub fn authorize_url(client_id: &str, redirect_uri: &str) -> (s: String)
    ensures
        s@ == "https://accounts.spotify.com/authorize"@ + "?client_id="@ + percent_encode(client_id.spec_bytes())
            + "&response_type=code&redirect_uri="@ + percent_encode(redirect_uri.spec_bytes())
            + "&scope="@ + percent_encode(vstd::utf8::encode_utf8(scopes())),
{
    let mut out: Vec<char> = Vec::new();
    push_str(&mut out, "https://accounts.spotify.com/authorize");
    push_str(&mut out, "?client_id=");
    push_encoded(&mut out, client_id);
    push_str(&mut out, "&response_type=code&redirect_uri=");
    push_encoded(&mut out, redirect_uri);
    push_str(&mut out, "&scope=");
    push_encoded(&mut out, "user-modify-playback-state user-read-playback-state");
    into_string(out)
}


/// A user token of the Web API, with the Unix time (seconds) at which the
/// access token expires.
pub struct CachedToken {
    pub access_token: String,
    pub refresh_token: String,
    pub expires_at: u64,
}

/// The fields of Spotify's token response that the client reads.
/// `expires_in` is the field's value when it is a non-negative integer.
pub struct TokenResponse {
    pub access_token: JsonText,
    pub expires_in: Option<u64>,
    pub refresh_token: JsonText,
}

/// The value of a [`TokenResponse`].
pub struct TokenView {
    pub access_token: TextView,
    pub expires_in: Option<u64>,
    pub refresh_token: TextView,
}

impl View for TokenResponse {
    type V = TokenView;

    open spec fn view(&self) -> TokenView {
        TokenView {
            access_token: self.access_token@,
            expires_in: self.expires_in,
            refresh_token: self.refresh_token@,
        }
    }
}

/// The lifetime of a new access token: the reported one, one hour by default.
pub open spec fn expires_in_or_default(r: TokenView) -> u64 {
    match r.expires_in {
        Some(e) => e,
        None => 3600,
    }
}

/// The token a response grants at Unix time `now`: `None` when it has no
/// access token, or no refresh token and none was held before.
pub open spec fn granted_token(r: TokenView, existing_refresh: Option<Seq<char>>, now: u64) -> Option<
    (Seq<char>, Seq<char>, int),
> {
    match r.access_token {
        TextView::Text(a) => {
            let refresh = match r.refresh_token {
                TextView::Text(t) => Some(t),
                _ => existing_refresh,
            };
            match refresh {
                Some(t) => Some((a, t, now + expires_in_or_default(r))),
                None => None,
            }
        },
        _ => None,
    }
}

/// Reads a token response received at Unix time `now` (seconds). A refresh
/// response usually omits the refresh token: `existing_refresh` is kept then.
pub fn token_from_response(response: TokenResponse, existing_refresh: Option<String>, now: u64) -> (r: Result<
    CachedToken,
    WebApiError,
>)
    requires
        now + expires_in_or_default(response@) <= u64::MAX,
    ensures
        match granted_token(response@, opt_view(existing_refresh), now) {
            Some((a, t, e)) => r matches Ok(tok) && tok.access_token@ == a && tok.refresh_token@ == t
                && tok.expires_at == e,
            None => r matches Err(err) && (if response@.access_token is Text {
                err == WebApiError::NoRefreshToken
            } else {
                err == WebApiError::NoAccessToken
            }),
        },
{
    let ghost r0 = response;
    let expires_in = match response.expires_in {
        Some(e) => e,
        None => 3600,
    };
    let access_token = match response.access_token {
        JsonText::Text(a) => a,
        _ => return Err(WebApiError::NoAccessToken),
    };
    let refresh_token = match response.refresh_token {
        JsonText::Text(t) => t,
        _ => match existing_refresh {
            Some(t) => t,
            None => return Err(WebApiError::NoRefreshToken),
        },
    };
    Ok(CachedToken { access_token, refresh_token, expires_at: now + expires_in })
}

/// Whether a token expiring at `expires_at` is still good for at least a
/// minute at Unix time `now`.
pub fn token_is_fresh(now: u64, expires_at: u64) -> (fresh: bool)
    requires
        now <= u64::MAX - 60,
    ensures
        fresh == (now + 60 < expires_at),
{
    now + 60 < expires_at
}

/// The form body that trades an authorization code for a token.
pub fn exchange_code_body(code: &str, redirect_uri: &str) -> (s: String)
    ensures
        s@ == "grant_type=authorization_code&code="@ + percent_encode(code.spec_bytes()) + "&redirect_uri="@
            + percent_encode(redirect_uri.spec_bytes()),
{
    let mut out: Vec<char> = Vec::new();
    push_str(&mut out, "grant_type=authorization_code&code=");
    push_encoded(&mut out, code);
    push_str(&mut out, "&redirect_uri=");
    push_encoded(&mut out, redirect_uri);
    into_string(out)
}

/// The form body that refreshes a token.
pub fn refresh_body(refresh_token: &str) -> (s: String)
    ensures
        s@ == "grant_type=refresh_token&refresh_token="@ + percent_encode(refresh_token.spec_bytes()),
{
    let mut out: Vec<char> = Vec::new();
    push_str(&mut out, "grant_type=refresh_token&refresh_token=");
    push_encoded(&mut out, refresh_token);
    into_string(out)
}

/// The HTTP Basic client authentication of the token endpoint.
pub fn basic_authorization(client_id: &str, client_secret: &str) -> (s: String)
    requires
        vstd::utf8::encode_utf8(client_id@ + seq![':'] + client_secret@).len() <= usize::MAX / 2,
    ensures
        s@ == "Basic "@ + base64_standard(vstd::utf8::encode_utf8(client_id@ + seq![':'] + client_secret@)),
{
    let mut pair: Vec<char> = Vec::new();
    push_str(&mut pair, client_id);
    pair.push(':');
    push_str(&mut pair, client_secret);
    assert(pair@ =~= client_id@ + seq![':'] + client_secret@);
    let pair = into_string(pair);
    let bytes = pair.as_str().as_bytes();
    assert(bytes@ == vstd::utf8::encode_utf8(client_id@ + seq![':'] + client_secret@));
    let encoded = base64_encode(bytes);
    let mut out: Vec<char> = Vec::new();
    push_str(&mut out, "Basic ");
    push_str(&mut out, encoded.as_str());
    into_string(out)
}

/// The bearer authorization of a Web API request.
pub fn bearer_authorization(access_token: &str) -> (s: String)
    ensures
        s@ == "Bearer "@ + access_token@,
{
    let mut out: Vec<char> = Vec::new();
    push_str(&mut out, "Bearer ");
    push_str(&mut out, access_token);
    into_string(out)
}


/// A single track returned by a search or found in the play queue.
#[derive(Clone, Debug)]
pub struct TrackResult {
    pub name: String,
    pub artists: String,
    pub album: String,
    pub uri: String,
    pub duration_ms: u32,
}

/// The value of a [`TrackResult`].
pub struct TrackView {
    pub name: Seq<char>,
    pub artists: Seq<char>,
    pub album: Seq<char>,
    pub uri: Seq<char>,
    pub duration_ms: u32,
}

impl View for TrackResult {
    type V = TrackView;

    open spec fn view(&self) -> TrackView {
        TrackView {
            name: self.name@,
            artists: self.artists@,
            album: self.album@,
            uri: self.uri@,
            duration_ms: self.duration_ms,
        }
    }
}

impl TrackResult {
    /// A copy of this track.
    pub fn duplicate(&self) -> (r: TrackResult)
        ensures
            r@ == self@,
    {
        TrackResult {
            name: self.name.clone(),
            artists: self.artists.clone(),
            album: self.album.clone(),
            uri: self.uri.clone(),
            duration_ms: self.duration_ms,
        }
    }
}

/// The fields of a Web API track object that the client reads: `artists`
/// holds, for each element of the `artists` array, its `name` field (`None`
/// when there is no such array); `album_name` is the `name` of the `album`
/// object; `duration_ms` the field's value when it is a non-negative integer.
pub struct TrackJson {
    pub name: JsonText,
    pub uri: JsonText,
    pub artists: Option<Vec<JsonText>>,
    pub album_name: JsonText,
    pub duration_ms: Option<u64>,
}

/// The value of a [`TrackJson`].
pub struct TrackJsonView {
    pub name: TextView,
    pub uri: TextView,
    pub artists: Option<Seq<TextView>>,
    pub album_name: TextView,
    pub duration_ms: Option<u64>,
}

/// The values of a list of texts.
pub open spec fn text_views(v: Seq<JsonText>) -> Seq<TextView> {
    v.map_values(|t: JsonText| t@)
}

impl View for TrackJson {
    type V = TrackJsonView;

    open spec fn view(&self) -> TrackJsonView {
        TrackJsonView {
            name: self.name@,
            uri: self.uri@,
            artists: match self.artists {
                Some(a) => Some(text_views(a@)),
                None => None,
            },
            album_name: self.album_name@,
            duration_ms: self.duration_ms,
        }
    }
}

/// The values of a list of track objects.
pub open spec fn track_json_views(v: Seq<TrackJson>) -> Seq<TrackJsonView> {
    v.map_values(|t: TrackJson| t@)
}

/// The values of an optional list of track objects.
pub open spec fn opt_track_json_views(v: Option<Vec<TrackJson>>) -> Option<Seq<TrackJsonView>> {
    match v {
        Some(l) => Some(track_json_views(l@)),
        None => None,
    }
}

/// The string values among `names`, in order.
pub open spec fn text_values(names: Seq<TextView>) -> Seq<Seq<char>>
    decreases names.len(),
{
    if names.len() == 0 {
        Seq::empty()
    } else {
        match names.last() {
            TextView::Text(t) => text_values(names.drop_last()).push(t),
            _ => text_values(names.drop_last()),
        }
    }
}

/// The parts joined with `, `.
pub open spec fn join_comma(parts: Seq<Seq<char>>) -> Seq<char>
    decreases parts.len(),
{
    if parts.len() == 0 {
        Seq::empty()
    } else if parts.len() == 1 {
        parts[0]
    } else {
        join_comma(parts.drop_last()) + ", "@ + parts.last()
    }
}

/// A track object read as a [`TrackResult`]: it needs a string name and uri
/// and an artists array; the artists are the string names joined with `, `,
/// the album defaults to empty, the duration to 0 (and is cut to 32 bits).
pub open spec fn parse_track_spec(item: TrackJsonView) -> Option<TrackView> {
    match (item.name, item.uri, item.artists) {
        (TextView::Text(name), TextView::Text(uri), Some(artists)) => Some(
            TrackView {
                name: name,
                artists: join_comma(text_values(artists)),
                album: match item.album_name {
                    TextView::Text(a) => a,
                    _ => Seq::empty(),
                },
                uri: uri,
                duration_ms: match item.duration_ms {
                    Some(d) => d as u32,
                    None => 0,
                },
            },
        ),
        _ => None,
    }
}

fn copy_text(t: &String) -> (r: String)
    ensures
        r@ == t@,
{
    t.clone()
}

fn join_artist_names(names: &Vec<JsonText>) -> (s: String)
    ensures
        s@ == join_comma(text_values(text_views(names@))),
{
    let ghost tv = text_views(names@);
    let mut out: Vec<char> = Vec::new();
    let mut count: usize = 0;
    let mut i: usize = 0;
    while i < names.len()
        invariant
            i <= names.len(),
            tv == text_views(names@),
            count == text_values(tv.subrange(0, i as int)).len(),
            count <= i,
            out@ == join_comma(text_values(tv.subrange(0, i as int))),
        decreases names.len() - i,
    {
        let ghost prev = tv.subrange(0, i as int);
        let ghost next = tv.subrange(0, i + 1);
        assert(next.drop_last() =~= prev);
        assert(next.last() == names@[i as int]@);
        match &names[i] {
            JsonText::Text(t) => {
                let ghost parts = text_values(prev);
                assert(text_values(next) == parts.push(t@));
                assert(parts.push(t@).drop_last() =~= parts);
                if count > 0 {
                    push_str(&mut out, ", ");
                } else {
                    assert(out@ =~= Seq::<char>::empty());
                }
                push_str(&mut out, t.as_str());
                count = count + 1;
            },
            _ => {},
        }
        i = i + 1;
    }
    assert(tv.subrange(0, names.len() as int) =~= tv);
    into_string(out)
}

/// Reads a Web API track object.
pub fn parse_track(item: &TrackJson) -> (r: Option<TrackResult>)
    ensures
        match parse_track_spec(item@) {
            Some(t) => r matches Some(track) && track@ == t,
            None => r is None,
        },
{
    let name = match &item.name {
        JsonText::Text(n) => copy_text(n),
        _ => return None,
    };
    let uri = match &item.uri {
        JsonText::Text(u) => copy_text(u),
        _ => return None,
    };
    let artists = match &item.artists {
        Some(a) => join_artist_names(a),
        None => return None,
    };
    let album = match &item.album_name {
        JsonText::Text(a) => copy_text(a),
        _ => String::new(),
    };
    let duration_ms: u32 = match item.duration_ms {
        Some(d) => d as u32,
        None => 0,
    };
    Some(TrackResult { name, artists, album, uri, duration_ms })
}

/// The readable tracks among `items`, in order.
pub open spec fn parse_tracks_spec(items: Seq<TrackJsonView>) -> Seq<TrackView>
    decreases items.len(),
{
    if items.len() == 0 {
        Seq::empty()
    } else {
        match parse_track_spec(items.last()) {
            Some(t) => parse_tracks_spec(items.drop_last()).push(t),
            None => parse_tracks_spec(items.drop_last()),
        }
    }
}

/// The views of a list of tracks.
pub open spec fn track_views(v: Seq<TrackResult>) -> Seq<TrackView> {
    v.map_values(|t: TrackResult| t@)
}

/// Reads every track object of a list, skipping those that cannot be read.
pub fn parse_tracks(items: &Vec<TrackJson>) -> (v: Vec<TrackResult>)
    ensures
        track_views(v@) == parse_tracks_spec(track_json_views(items@)),
{
    let mut v: Vec<TrackResult> = Vec::new();
    let mut i: usize = 0;
    while i < items.len()
        invariant
            i <= items.len(),
            track_views(v@) == parse_tracks_spec(track_json_views(items@.subrange(0, i as int))),
        decreases items.len() - i,
    {
        let ghost prev = track_json_views(items@.subrange(0, i as int));
        let ghost next = track_json_views(items@.subrange(0, i + 1));
        assert(next.drop_last() =~= prev);
        assert(next.last() == items@[i as int]@);
        let ghost before = v@;
        match parse_track(&items[i]) {
            Some(t) => {
                v.push(t);
                assert(track_views(v@) =~= track_views(before).push(v@.last()@));
            },
            None => {},
        }
        i = i + 1;
    }
    assert(items@.subrange(0, items.len() as int) =~= items@);
    v
}

/// The tracks of a search response, given its `tracks.items` array (`None`
/// when the response has none).
pub fn search_results(items: &Option<Vec<TrackJson>>) -> (r: Result<Vec<TrackResult>, WebApiError>)
    ensures
        match items {
            Some(list) => r matches Ok(v) && track_views(v@) == parse_tracks_spec(track_json_views(list@)),
            None => r == Err::<Vec<TrackResult>, WebApiError>(WebApiError::UnexpectedSearchResponse),
        },
{
    match items {
        Some(list) => Ok(parse_tracks(list)),
        None => Err(WebApiError::UnexpectedSearchResponse),
    }
}

/// The upcoming tracks of a queue response, given its `queue` array (`None`
/// when the response has none).
pub fn queue_results(items: &Option<Vec<TrackJson>>) -> (r: Result<Vec<TrackResult>, WebApiError>)
    ensures
        match items {
            Some(list) => r matches Ok(v) && track_views(v@) == parse_tracks_spec(track_json_views(list@)),
            None => r == Err::<Vec<TrackResult>, WebApiError>(WebApiError::UnexpectedQueueResponse),
        },
{
    match items {
        Some(list) => Ok(parse_tracks(list)),
        None => Err(WebApiError::UnexpectedQueueResponse),
    }
}


/// A track object of a response document.
pub open spec fn track_json_at(item: JsonView) -> TrackJsonView {
    TrackJsonView {
        name: text_at(field(Some(item), "name"@)),
        uri: text_at(field(Some(item), "uri"@)),
        artists: match field(Some(item), "artists"@) {
            Some(JsonView::Array(a)) => Some(a.map_values(|x: JsonView| text_at(field(Some(x), "name"@)))),
            _ => None,
        },
        album_name: text_at(field(field(Some(item), "album"@), "name"@)),
        duration_ms: u64_at(field(Some(item), "duration_ms"@)),
    }
}

/// The track objects of an array (`None` for anything else).
pub open spec fn track_list_at(v: Option<JsonView>) -> Option<Seq<TrackJsonView>> {
    match v {
        Some(JsonView::Array(items)) => Some(items.map_values(|x: JsonView| track_json_at(x))),
        _ => None,
    }
}

/// Reads the fields of a track object.
pub fn track_json_of(item: &Json) -> (t: TrackJson)
    ensures
        t@ == track_json_at(json_view(*item)),
{
    let artists = match json_field(Some(item), "artists") {
        Some(Json::Array(a)) => {
            proof {
                lemma_item_views(a@);
            }
            let ghost av = item_views(a@);
            let mut names: Vec<JsonText> = Vec::new();
            let mut i: usize = 0;
            while i < a.len()
                invariant
                    i <= a.len(),
                    av == item_views(a@),
                    av.len() == a@.len(),
                    forall|j: int| 0 <= j < a@.len() ==> #[trigger] av[j] == json_view(a@[j]),
                    text_views(names@) == av.subrange(0, i as int).map_values(
                        |x: JsonView| text_at(field(Some(x), "name"@)),
                    ),
                decreases a.len() - i,
            {
                let ghost before = names@;
                let n = json_text(json_field(Some(&a[i]), "name"));
                assert(n@ == text_at(field(Some(av[i as int]), "name"@)));
                names.push(n);
                assert(names@ == before.push(n));
                assert(text_views(names@) =~= text_views(before).push(n@));
                i = i + 1;
                assert(text_views(names@) =~= av.subrange(0, i as int).map_values(
                    |x: JsonView| text_at(field(Some(x), "name"@)),
                ));
            }
            assert(av.subrange(0, a.len() as int) =~= av);
            Some(names)
        },
        _ => None,
    };
    let album = json_field(Some(item), "album");
    TrackJson {
        name: json_text(json_field(Some(item), "name")),
        uri: json_text(json_field(Some(item), "uri")),
        artists,
        album_name: json_text(json_field(album, "name")),
        duration_ms: json_u64(json_field(Some(item), "duration_ms")),
    }
}

/// Reads every track object of an array; `None` when `v` is not an array.
pub fn track_list_of(v: Option<&Json>) -> (r: Option<Vec<TrackJson>>)
    ensures
        opt_track_json_views(r) == track_list_at(opt_json(v)),
{
    match v {
        Some(Json::Array(items)) => {
            proof {
                lemma_item_views(items@);
            }
            let ghost iv = item_views(items@);
            let mut out: Vec<TrackJson> = Vec::new();
            let mut i: usize = 0;
            while i < items.len()
                invariant
                    i <= items.len(),
                    iv == item_views(items@),
                    iv.len() == items@.len(),
                    forall|j: int| 0 <= j < items@.len() ==> #[trigger] iv[j] == json_view(items@[j]),
                    track_json_views(out@) == iv.subrange(0, i as int).map_values(|x: JsonView| track_json_at(x)),
                decreases items.len() - i,
            {
                let ghost before = out@;
                let t = track_json_of(&items[i]);
                assert(t@ == track_json_at(iv[i as int]));
                out.push(t);
                assert(track_json_views(out@) =~= track_json_views(before).push(t@));
                i = i + 1;
                assert(track_json_views(out@) =~= iv.subrange(0, i as int).map_values(
                    |x: JsonView| track_json_at(x),
                ));
            }
            assert(iv.subrange(0, items.len() as int) =~= iv);
            Some(out)
        },
        _ => None,
    }
}

/// The tracks of the body of a search response: the readable objects of its
/// `tracks.items` array.
pub fn search_from_body(body: &[u8]) -> (r: Result<Vec<TrackResult>, WebApiError>)
    ensures
        match body_json(body@) {
            Err(e) => r matches Err(WebApiError::BadJson(m)) && m@ == e,
            Ok(v) => match track_list_at(field(field(Some(v), "tracks"@), "items"@)) {
                Some(items) => r matches Ok(t) && track_views(t@) == parse_tracks_spec(items),
                None => r == Err::<Vec<TrackResult>, WebApiError>(WebApiError::UnexpectedSearchResponse),
            },
        },
{
    match api_body(body) {
        Ok(json) => {
            let tracks = json_field(Some(&json), "tracks");
            search_results(&track_list_of(json_field(tracks, "items")))
        },
        Err(e) => Err(WebApiError::BadJson(e)),
    }
}

/// The upcoming tracks of the body of a queue response: the readable objects
/// of its `queue` array.
pub fn queue_from_body(body: &[u8]) -> (r: Result<Vec<TrackResult>, WebApiError>)
    ensures
        match body_json(body@) {
            Err(e) => r matches Err(WebApiError::BadJson(m)) && m@ == e,
            Ok(v) => match track_list_at(field(Some(v), "queue"@)) {
                Some(items) => r matches Ok(t) && track_views(t@) == parse_tracks_spec(items),
                None => r == Err::<Vec<TrackResult>, WebApiError>(WebApiError::UnexpectedQueueResponse),
            },
        },
{
    match api_body(body) {
        Ok(json) => queue_results(&track_list_of(json_field(Some(&json), "queue"))),
        Err(e) => Err(WebApiError::BadJson(e)),
    }
}

/// Checks that a Web API answer that carries nothing the client reads is
/// empty or JSON.
pub fn check_body(body: &[u8]) -> (r: Result<(), WebApiError>)
    ensures
        match body_json(body@) {
            Err(e) => r matches Err(WebApiError::BadJson(m)) && m@ == e,
            Ok(_) => r is Ok,
        },
{
    match api_body(body) {
        Ok(_) => Ok(()),
        Err(e) => Err(WebApiError::BadJson(e)),
    }
}

/// The token fields of a response document.
pub open spec fn token_at(v: JsonView) -> TokenView {
    TokenView {
        access_token: text_at(field(Some(v), "access_token"@)),
        expires_in: u64_at(field(Some(v), "expires_in"@)),
        refresh_token: text_at(field(Some(v), "refresh_token"@)),
    }
}

/// Reads the token fields of a parsed response.
pub fn token_response_of(json: &Json) -> (r: TokenResponse)
    ensures
        r@ == token_at(json_view(*json)),
{
    TokenResponse {
        access_token: json_text(json_field(Some(json), "access_token")),
        expires_in: json_u64(json_field(Some(json), "expires_in")),
        refresh_token: json_text(json_field(Some(json), "refresh_token")),
    }
}

fn fits_expiry(response: &TokenResponse, now: u64) -> (b: bool)
    ensures
        b == (now + expires_in_or_default(response@) <= u64::MAX),
{
    match response.expires_in {
        Some(e) => e <= u64::MAX - now,
        None => 3600 <= u64::MAX - now,
    }
}

/// Reads the body of a token response received at Unix time `now` (seconds);
/// `existing_refresh` is kept when the answer carries no refresh token.
pub fn token_from_body(body: &[u8], existing_refresh: Option<String>, now: u64) -> (r: Result<
    CachedToken,
    WebApiError,
>)
    ensures
        match json_parsed(body@) {
            Err(e) => r matches Err(WebApiError::BadJson(m)) && m@ == e,
            Ok(v) => if now + expires_in_or_default(token_at(v)) > u64::MAX {
                r == Err::<CachedToken, WebApiError>(WebApiError::ExpiresInTooLarge)
            } else {
                match granted_token(token_at(v), opt_view(existing_refresh), now) {
                    Some((a, t, e)) => r matches Ok(tok) && tok.access_token@ == a && tok.refresh_token@ == t
                        && tok.expires_at == e,
                    None => r matches Err(err) && (if token_at(v).access_token is Text {
                        err == WebApiError::NoRefreshToken
                    } else {
                        err == WebApiError::NoAccessToken
                    }),
                }
            },
        },
{
    match parse_body(body) {
        Ok(json) => {
            let response = token_response_of(&json);
            if !fits_expiry(&response, now) {
                return Err(WebApiError::ExpiresInTooLarge);
            }
            token_from_response(response, existing_refresh, now)
        },
        Err(e) => Err(WebApiError::BadJson(e)),
    }
}

/// What to do to obtain an access token.
pub enum TokenStep {
    /// The held token is good for at least another minute: use it.
    Ready(String),
    /// Refresh first: post `body` to the token endpoint with `authorization`.
    Refresh { body: String, authorization: String },
}

/// The authenticated Web API client's state: the Spotify app's credentials and
/// the current user token.
pub struct WebApi {
    client_id: String,
    client_secret: String,
    token: CachedToken,
}

impl WebApi {
    pub closed spec fn spec_client_id(&self) -> Seq<char> {
        self.client_id@
    }

    pub closed spec fn spec_client_secret(&self) -> Seq<char> {
        self.client_secret@
    }

    pub closed spec fn spec_access_token(&self) -> Seq<char> {
        self.token.access_token@
    }

    pub closed spec fn spec_refresh_token(&self) -> Seq<char> {
        self.token.refresh_token@
    }

    pub closed spec fn spec_expires_at(&self) -> u64 {
        self.token.expires_at
    }

    /// A client for your Spotify app holding `token`.
    pub fn new(client_id: String, client_secret: String, token: CachedToken) -> (w: Self)
        ensures
            w.spec_client_id() == client_id@,
            w.spec_client_secret() == client_secret@,
            w.spec_access_token() == token.access_token@,
            w.spec_refresh_token() == token.refresh_token@,
            w.spec_expires_at() == token.expires_at,
    {
        WebApi { client_id, client_secret, token }
    }

    /// The token to save to the cache.
    pub fn token(&self) -> (t: &CachedToken)
        ensures
            t.access_token@ == self.spec_access_token(),
            t.refresh_token@ == self.spec_refresh_token(),
            t.expires_at == self.spec_expires_at(),
    {
        &self.token
    }

    /// How to obtain a valid access token at Unix time `now` (seconds): the held
    /// one when it is fresh, otherwise a refresh request.
    pub fn access_token(&self, now: u64) -> (step: TokenStep)
        requires
            now <= u64::MAX - 60,
            vstd::utf8::encode_utf8(self.spec_client_id() + seq![':'] + self.spec_client_secret()).len()
                <= usize::MAX / 2,
        ensures
            match step {
                TokenStep::Ready(t) => now + 60 < self.spec_expires_at() && t@ == self.spec_access_token(),
                TokenStep::Refresh { body, authorization } => {
                    &&& !(now + 60 < self.spec_expires_at())
                    &&& body@ == "grant_type=refresh_token&refresh_token="@ + percent_encode(
                        vstd::utf8::encode_utf8(self.spec_refresh_token()),
                    )
                    &&& authorization@ == "Basic "@ + base64_standard(
                        vstd::utf8::encode_utf8(self.spec_client_id() + seq![':'] + self.spec_client_secret()),
                    )
                },
            },
    {
        if token_is_fresh(now, self.token.expires_at) {
            TokenStep::Ready(self.token.access_token.clone())
        } else {
            TokenStep::Refresh {
                body: refresh_body(self.token.refresh_token.as_str()),
                authorization: basic_authorization(self.client_id.as_str(), self.client_secret.as_str()),
            }
        }
    }

    /// Takes in the body of the answer to a refresh request received at
    /// `now`: parses it and applies it as [`WebApi::apply_refresh`] does. On
    /// any error the held token is unchanged.
    pub fn apply_refresh_body(&mut self, body: &[u8], now: u64) -> (r: Result<(), WebApiError>)
        ensures
            final(self).spec_client_id() == old(self).spec_client_id(),
            final(self).spec_client_secret() == old(self).spec_client_secret(),
            match json_parsed(body@) {
                Err(e) => r matches Err(WebApiError::BadJson(m)) && m@ == e && same_token(*final(self), *old(self)),
                Ok(v) => if now + expires_in_or_default(token_at(v)) > u64::MAX {
                    r == Err::<(), WebApiError>(WebApiError::ExpiresInTooLarge) && same_token(*final(self), *old(self))
                } else {
                    match granted_token(token_at(v), Some(old(self).spec_refresh_token()), now) {
                        Some((a, t, e)) => r is Ok && final(self).spec_access_token() == a
                            && final(self).spec_refresh_token() == t && final(self).spec_expires_at() == e,
                        None => r is Err && same_token(*final(self), *old(self)),
                    }
                },
            },
    {
        match parse_body(body) {
            Ok(json) => {
                let response = token_response_of(&json);
                if !fits_expiry(&response, now) {
                    return Err(WebApiError::ExpiresInTooLarge);
                }
                self.apply_refresh(response, now)
            },
            Err(e) => Err(WebApiError::BadJson(e)),
        }
    }

    /// Takes in the answer to a refresh request received at `now`; the held
    /// refresh token is kept when the answer carries none. On error the held
    /// token is unchanged.
    pub fn apply_refresh(&mut self, response: TokenResponse, now: u64) -> (r: Result<(), WebApiError>)
        requires
            now + expires_in_or_default(response@) <= u64::MAX,
        ensures
            final(self).spec_client_id() == old(self).spec_client_id(),
            final(self).spec_client_secret() == old(self).spec_client_secret(),
            match granted_token(response@, Some(old(self).spec_refresh_token()), now) {
                Some((a, t, e)) => r is Ok && final(self).spec_access_token() == a
                    && final(self).spec_refresh_token() == t && final(self).spec_expires_at() == e,
                None => r is Err && final(self).spec_access_token() == old(self).spec_access_token()
                    && final(self).spec_refresh_token() == old(self).spec_refresh_token()
                    && final(self).spec_expires_at() == old(self).spec_expires_at(),
            },
    {
        let existing = self.token.refresh_token.clone();
        match token_from_response(response, Some(existing), now) {
            Ok(t) => {
                self.token = t;
                Ok(())
            },
            Err(e) => Err(e),
        }
    }
}


/// Two clients hold the same token.
pub open spec fn same_token(a: WebApi, b: WebApi) -> bool {
    &&& a.spec_access_token() == b.spec_access_token()
    &&& a.spec_refresh_token() == b.spec_refresh_token()
    &&& a.spec_expires_at() == b.spec_expires_at()
}

/// What the `code` and `error` parameters of a redirect query amount to:
/// `Failed` when one of them is not valid percent-encoded UTF-8, otherwise the
/// decoded value of the last of each.
pub enum ScanView {
    Failed,
    Found { code: Option<Seq<char>>, error: Option<Seq<char>> },
}

/// Reads the `key=value` pairs of a redirect query, in order.
pub open spec fn scan_pairs(pairs: Seq<Seq<char>>) -> ScanView
    decreases pairs.len(),
{
    if pairs.len() == 0 {
        ScanView::Found { code: None, error: None }
    } else {
        match scan_pairs(pairs.drop_last()) {
            ScanView::Failed => ScanView::Failed,
            ScanView::Found { code, error } => match split_once(pairs.last(), '=') {
                Some((k, v)) => if k == "code"@ {
                    match url_decoded(v) {
                        Some(d) => ScanView::Found { code: Some(d), error },
                        None => ScanView::Failed,
                    }
                } else if k == "error"@ {
                    match url_decoded(v) {
                        Some(d) => ScanView::Found { code, error: Some(d) },
                        None => ScanView::Failed,
                    }
                } else {
                    ScanView::Found { code, error }
                },
                None => ScanView::Found { code, error },
            },
        }
    }
}

/// The request target of an HTTP request: the second word of its first line
/// (empty when there is none).
pub open spec fn request_path(request: Seq<char>) -> Seq<char> {
    match first_line(request) {
        Some(l) => if words(l).len() >= 2 {
            words(l)[1]
        } else {
            Seq::empty()
        },
        None => Seq::empty(),
    }
}

/// What a request on the authorization redirect port amounts to.
pub enum RedirectOutcome {
    /// Not the redirect (its target has no query): answer 404 and keep waiting.
    NotRedirect,
    /// A `code` or `error` value could not be decoded: give up without answering.
    BadEncoding,
    /// The user refused: answer the completion page, then fail with this error.
    Denied(String),
    /// The authorization code: answer the completion page and use it.
    Code(String),
    /// Neither code nor error: answer the completion page and keep waiting.
    NoCode,
}

fn copy_chars(v: &Vec<char>) -> (r: Vec<char>)
    ensures
        r@ == v@,
{
    slice_chars(v, 0, v.len())
}

/// Reads one request received on the authorization redirect port.
pub fn redirect_outcome(request: &str) -> (r: RedirectOutcome)
    ensures
        match split_once(request_path(request@), '?') {
            None => r is NotRedirect,
            Some((_, query)) => match scan_pairs(split_on(query, '&')) {
                ScanView::Failed => r is BadEncoding,
                ScanView::Found { code, error } => match error {
                    Some(e) => r matches RedirectOutcome::Denied(x) && x@ == e,
                    None => match code {
                        Some(c) => r matches RedirectOutcome::Code(x) && x@ == c,
                        None => r is NoCode,
                    },
                },
            },
        },
{
    let chars = chars_of(request);
    let path: Vec<char> = match first_line_of(&chars) {
        Some(line) => {
            let w = split_words(&line);
            if w.len() >= 2 {
                assert(w@[1]@ == views(w@)[1]);
                copy_chars(&w[1])
            } else {
                Vec::new()
            }
        },
        None => Vec::new(),
    };
    assert(path@ == request_path(request@));
    let query = match find_char(&path, '?') {
        Some(i) => {
            proof {
                lemma_find_first(path@, '?');
            }
            let q = slice_chars(&path, i + 1, path.len());
            assert(q@ =~= path@.skip(i + 1));
            assert(split_once(request_path(request@), '?') == Some((path@.take(i as int), q@)));
            q
        },
        None => {
            assert(split_once(request_path(request@), '?') is None);
            return RedirectOutcome::NotRedirect;
        },
    };
    let ghost query_view = query@;
    assert(split_once(request_path(request@), '?') matches Some((_, qv)) && qv == query_view);
    let pairs = split_chars(&query, '&');
    let mut code: Option<String> = None;
    let mut error: Option<String> = None;
    let mut i: usize = 0;
    while i < pairs.len()
        invariant
            i <= pairs.len(),
            views(pairs@) == split_on(query@, '&'),
            split_once(request_path(request@), '?') matches Some((_, qv)) && qv == query@,
            scan_pairs(views(pairs@).subrange(0, i as int)) == (ScanView::Found {
                code: opt_view(code),
                error: opt_view(error),
            }),
        decreases pairs.len() - i,
    {
        let ghost prev = views(pairs@).subrange(0, i as int);
        let ghost next = views(pairs@).subrange(0, i + 1);
        assert(next.drop_last() =~= prev);
        assert(next.last() == pairs@[i as int]@);
        let pair = &pairs[i];
        match find_char(pair, '=') {
            Some(k) => {
                proof {
                    lemma_find_first(pair@, '=');
                }
                let key = slice_chars(pair, 0, k);
                let value = slice_chars(pair, k + 1, pair.len());
                assert(key@ =~= pair@.take(k as int));
                assert(value@ =~= pair@.skip(k + 1));
                if chars_eq(&key, "code") {
                    let text = into_string(value);
                    match url_decode(text.as_str()) {
                        Some(d) => {
                            code = Some(d);
                        },
                        None => {
                            proof {
                                lemma_scan_failed_stays(views(pairs@), (i + 1) as int);
                            }
                            return RedirectOutcome::BadEncoding;
                        },
                    }
                } else if chars_eq(&key, "error") {
                    let text = into_string(value);
                    match url_decode(text.as_str()) {
                        Some(d) => {
                            error = Some(d);
                        },
                        None => {
                            proof {
                                lemma_scan_failed_stays(views(pairs@), (i + 1) as int);
                            }
                            return RedirectOutcome::BadEncoding;
                        },
                    }
                }
            },
            None => {},
        }
        i = i + 1;
    }
    assert(views(pairs@).subrange(0, pairs.len() as int) =~= views(pairs@));
    match error {
        Some(e) => RedirectOutcome::Denied(e),
        None => match code {
            Some(c) => RedirectOutcome::Code(c),
            None => RedirectOutcome::NoCode,
        },
    }
}

/// Once reading a prefix of the pairs has failed, reading more pairs fails too.
pub proof fn lemma_scan_failed_stays(pairs: Seq<Seq<char>>, n: int)
    requires
        0 <= n <= pairs.len(),
        scan_pairs(pairs.subrange(0, n)) is Failed,
    ensures
        scan_pairs(pairs) is Failed,
    decreases pairs.len() - n,
{
    if n < pairs.len() {
        let next = pairs.subrange(0, n + 1);
        assert(next.drop_last() =~= pairs.subrange(0, n));
        lemma_scan_failed_stays(pairs, n + 1);
    } else {
        assert(pairs.subrange(0, n) =~= pairs);
    }
}

/// The body of the page shown once the authorization completed.
pub open spec fn completion_body() -> Seq<char> {
    "<html><body><h2>Spotify authorization complete.</h2>You can close this tab.</body></html>"@
}

/// The answer to the redirect request: a 200 response carrying the completion page.
pub fn redirect_ok_response() -> (s: String)
    ensures
        s@ == "HTTP/1.1 200 OK\r\nContent-Type: text/html\r\nContent-Length: "@ + decimal(
            (vstd::utf8::encode_utf8(completion_body()).len() as usize) as nat,
        ) + "\r\nConnection: close\r\n\r\n"@ + completion_body(),
{
    let body = "<html><body><h2>Spotify authorization complete.</h2>You can close this tab.</body></html>";
    let mut out: Vec<char> = Vec::new();
    push_str(&mut out, "HTTP/1.1 200 OK\r\nContent-Type: text/html\r\nContent-Length: ");
    push_decimal(&mut out, body.len() as u64);
    push_str(&mut out, "\r\nConnection: close\r\n\r\n");
    push_str(&mut out, body);
    assert(out@ =~= "HTTP/1.1 200 OK\r\nContent-Type: text/html\r\nContent-Length: "@ + decimal(
        (vstd::utf8::encode_utf8(completion_body()).len() as usize) as nat,
    ) + "\r\nConnection: close\r\n\r\n"@ + completion_body());
    into_string(out)
}

/// The answer to a request that is not the redirect.
pub fn redirect_not_found_response() -> (s: String)
    ensures
        s@ == "HTTP/1.1 404 Not Found\r\nContent-Length: 0\r\nConnection: close\r\n\r\n"@,
{
    into_string(chars_of("HTTP/1.1 404 Not Found\r\nContent-Length: 0\r\nConnection: close\r\n\r\n"))
}

} // verus!
