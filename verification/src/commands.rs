//! What the music commands answer: the embeds, buttons and replies of
//! `/play`, `/queue`, `/jam`, `/volume`, `/shuffle`, `/repeat` and
//! `/dashboard`, and the decisions taken between their steps.
use vstd::prelude::*;
use crate::text::{
    decimal, digit_char, digits_value, all_digits, is_digit, digit_value, lemma_decimal_digits, chars_of,
    push_str, push_chars, push_decimal, into_string,
};
use crate::webapi::{TrackResult, TrackView, track_views};
use crate::player::{RepeatMode, mode_label};
use crate::utils::{qr_png, qr_png_image};

verus! {

/// The accent colour of an embed.
#[derive(Debug, Clone, Copy, PartialEq, Eq, Structural)]
pub enum Colors {
    Info,
    Success,
    Warning,
    Error,
}

/// A message embed: title, description and colour.
pub struct Embed {
    pub title: String,
    pub description: String,
    pub color: Colors,
}

/// A reply to a command: one embed, shown only to the caller when ephemeral.
pub struct Reply {
    pub embed: Embed,
    pub ephemeral: bool,
}

/// A button under a message: the id it reports when pressed and its label.
pub struct Button {
    pub custom_id: String,
    pub label: String,
}

fn embed(title: &str, description: Vec<char>, color: Colors) -> (e: Embed)
    ensures
        e.title@ == title@,
        e.description@ == description@,
        e.color == color,
{
    Embed { title: into_string(chars_of(title)), description: into_string(description), color }
}

/// Two decimal digits of a number below 100, with a leading zero below 10.
pub open spec fn two_digits(n: nat) -> Seq<char> {
    seq![digit_char(n / 10), digit_char(n % 10)]
}

/// A track duration (milliseconds) as `m:ss`: the whole minutes, a colon
/// and the remaining whole seconds as two digits.
pub open spec fn duration_text(ms: u32) -> Seq<char> {
    decimal(((ms / 1000) / 60) as nat) + seq![':'] + two_digits(((ms / 1000) % 60) as nat)
}

fn duration_chars(ms: u32) -> (v: Vec<char>)
    ensures
        v@ == duration_text(ms),
{
    let secs: u32 = ms / 1000;
    let mut out: Vec<char> = Vec::new();
    push_decimal(&mut out, (secs / 60) as u64);
    out.push(':');
    let rest: u32 = secs % 60;
    let tens: u8 = 48u8 + (rest / 10) as u8;
    let ones: u8 = 48u8 + (rest % 10) as u8;
    out.push(tens as char);
    out.push(ones as char);
    assert(out@ =~= duration_text(ms));
    out
}

/// Formats a track duration given in milliseconds as `m:ss`.
pub fn duration(ms: u32) -> (s: String)
    ensures
        s@ == duration_text(ms),
{
    into_string(duration_chars(ms))
}

/// The id of the button for the result at `index`.
pub open spec fn button_id(index: nat) -> Seq<char> {
    "trk-"@ + decimal(index)
}

/// The decimal number spelt by `s`, with an optional leading `+`, when it
/// fits in a `usize` (std's `usize::from_str`).
pub open spec fn parse_usize_spec(s: Seq<char>) -> Option<nat> {
    let d = if s.len() > 0 && s[0] == '+' {
        s.drop_first()
    } else {
        s
    };
    if d.len() > 0 && all_digits(d) && digits_value(d) <= usize::MAX {
        Some(digits_value(d))
    } else {
        None
    }
}

/// The result index a button id selects: the number after a `trk-` prefix.
pub open spec fn parse_index_spec(s: Seq<char>) -> Option<nat> {
    if s.len() >= 4 && s.take(4) == "trk-"@ {
        parse_usize_spec(s.skip(4))
    } else {
        None
    }
}

proof fn lemma_digits_prefix(s: Seq<char>, k: int)
    requires
        all_digits(s),
        0 <= k <= s.len(),
    ensures
        digits_value(s.take(k)) <= digits_value(s),
    decreases s.len(),
{
    if k < s.len() {
        let p = s.drop_last();
        assert(all_digits(p)) by {
            assert forall|i: int| 0 <= i < p.len() implies is_digit(#[trigger] p[i]) by {
                assert(p[i] == s[i]);
            }
        }
        lemma_digits_prefix(p, k);
        assert(p.take(k) =~= s.take(k));
    } else {
        assert(s.take(k) =~= s);
    }
}

/// Reads a decimal `usize` the way std's `usize::from_str` does.
pub fn parse_usize(s: &Vec<char>) -> (r: Option<usize>)
    ensures
        match parse_usize_spec(s@) {
            Some(n) => r == Some(n as usize),
            None => r is None,
        },
{
    let start: usize = if s.len() > 0 && s[0] == '+' { 1 } else { 0 };
    let ghost d = if s@.len() > 0 && s@[0] == '+' { s@.drop_first() } else { s@ };
    assert(d =~= s@.skip(start as int));
    if start >= s.len() {
        return None;
    }
    let mut value: usize = 0;
    let mut i: usize = start;
    while i < s.len()
        invariant
            start <= i <= s.len(),
            d == s@.skip(start as int),
            d == (if s@.len() > 0 && s@[0] == '+' { s@.drop_first() } else { s@ }),
            all_digits(s@.subrange(start as int, i as int)),
            value == digits_value(s@.subrange(start as int, i as int)),
        decreases s.len() - i,
    {
        let c = s[i];
        let ghost prev = s@.subrange(start as int, i as int);
        let ghost next = s@.subrange(start as int, i + 1);
        assert(next.drop_last() =~= prev);
        if !('0' <= c && c <= '9') {
            assert(!all_digits(d)) by {
                assert(d[i - start] == c);
            }
            return None;
        }
        let digit = (c as u32 - 48) as usize;
        assert(digit == digit_value(c));
        if value > (usize::MAX - digit) / 10 {
            proof {
                assert(digits_value(next) == value * 10 + digit);
                assert(value * 10 + digit > usize::MAX) by (nonlinear_arith)
                    requires
                        value > (usize::MAX - digit) / 10,
                        digit <= 9,
                ;
                if all_digits(d) {
                    lemma_digits_prefix(d, i + 1 - start);
                    assert(d.take(i + 1 - start) =~= next);
                }
            }
            return None;
        }
        assert(value * 10 + digit <= usize::MAX) by (nonlinear_arith)
            requires
                value <= (usize::MAX - digit) / 10,
                digit <= 9,
        ;
        value = value * 10 + digit;
        i = i + 1;
        assert(all_digits(next)) by {
            assert forall|j: int| 0 <= j < next.len() implies is_digit(#[trigger] next[j]) by {
                if j < prev.len() {
                    assert(next[j] == prev[j]);
                }
            }
        }
    }
    assert(s@.subrange(start as int, s.len() as int) =~= d);
    Some(value)
}

/// Parses the selected result index out of a `trk-{index}` button id.
pub fn parse_index(custom_id: &str) -> (r: Option<usize>)
    ensures
        match parse_index_spec(custom_id@) {
            Some(n) => r == Some(n as usize),
            None => r is None,
        },
{
    let chars = chars_of(custom_id);
    let prefix = chars_of("trk-");
    if chars.len() < 4 {
        return None;
    }
    let mut k: usize = 0;
    while k < 4
        invariant
            k <= 4 <= chars.len(),
            prefix@ == "trk-"@,
            chars@ == custom_id@,
            chars@.subrange(0, k as int) == prefix@.subrange(0, k as int),
        decreases 4 - k,
    {
        proof {
            reveal_strlit("trk-");
        }
        if chars[k] != prefix[k] {
            assert(chars@.take(4)[k as int] != ("trk-"@)[k as int]);
            return None;
        }
        k = k + 1;
        assert(chars@.subrange(0, k as int) =~= chars@.subrange(0, k - 1).push(chars@[k - 1]));
        assert(prefix@.subrange(0, k as int) =~= prefix@.subrange(0, k - 1).push(prefix@[k - 1]));
    }
    proof {
        reveal_strlit("trk-");
        assert(prefix@.subrange(0, 4) =~= prefix@);
        assert(chars@.take(4) =~= chars@.subrange(0, 4));
    }
    let mut rest: Vec<char> = Vec::new();
    let mut j: usize = 4;
    while j < chars.len()
        invariant
            4 <= j <= chars.len(),
            rest@ == chars@.subrange(4, j as int),
        decreases chars.len() - j,
    {
        rest.push(chars[j]);
        j = j + 1;
        assert(rest@ =~= chars@.subrange(4, j as int));
    }
    assert(rest@ =~= chars@.skip(4));
    parse_usize(&rest)
}

/// The index a result button reports is read back as that index.
pub proof fn lemma_button_id_round_trip(index: nat)
    requires
        index <= usize::MAX,
    ensures
        parse_index_spec(button_id(index)) == Some(index),
{
    reveal_strlit("trk-");
    lemma_decimal_digits(index);
    let s = button_id(index);
    assert(s.take(4) =~= "trk-"@);
    assert(s.skip(4) =~= decimal(index));
    assert(is_digit(decimal(index)[0]));
}


/// The line of a result list for the track at `index` (numbered from 1).
pub open spec fn result_line(index: nat, t: TrackView) -> Seq<char> {
    "**"@ + decimal(index + 1) + ".** "@ + t.name + " — "@ + t.artists + " · `"@ + duration_text(
        t.duration_ms,
    ) + "`\n"@
}

/// The lines of a result list.
pub open spec fn result_lines(ts: Seq<TrackView>) -> Seq<char>
    decreases ts.len(),
{
    if ts.len() == 0 {
        Seq::empty()
    } else {
        result_lines(ts.drop_last()) + result_line((ts.len() - 1) as nat, ts.last())
    }
}

fn push_result_lines(out: &mut Vec<char>, tracks: &Vec<TrackResult>, limit: usize)
    requires
        limit <= tracks.len(),
    ensures
        final(out)@ == old(out)@ + result_lines(track_views(tracks@).take(limit as int)),
{
    let ghost start = out@;
    let mut i: usize = 0;
    while i < limit
        invariant
            i <= limit <= tracks.len(),
            out@ == start + result_lines(track_views(tracks@).take(i as int)),
        decreases limit - i,
    {
        let ghost prev = track_views(tracks@).take(i as int);
        let ghost next = track_views(tracks@).take(i + 1);
        assert(next.drop_last() =~= prev);
        assert(next.last() == tracks@[i as int]@);
        let t = &tracks[i];
        push_str(out, "**");
        push_decimal(out, (i + 1) as u64);
        push_str(out, ".** ");
        push_str(out, t.name.as_str());
        push_str(out, " — ");
        push_str(out, t.artists.as_str());
        push_str(out, " · `");
        let d = duration_chars(t.duration_ms);
        push_chars(out, &d);
        push_str(out, "`\n");
        i = i + 1;
        assert(out@ =~= start + result_lines(next));
    }
}

/// An embed listing search results under a subtitle.
pub fn results_embed(title: &str, subtitle: &str, results: &Vec<TrackResult>) -> (e: Embed)
    ensures
        e.title@ == title@,
        e.description@ == subtitle@ + "\n\n"@ + result_lines(track_views(results@)),
        e.color == Colors::Info,
{
    let mut d: Vec<char> = Vec::new();
    push_str(&mut d, subtitle);
    push_str(&mut d, "\n\n");
    push_result_lines(&mut d, results, results.len());
    assert(track_views(results@).take(results.len() as int) =~= track_views(results@));
    embed(title, d, Colors::Info)
}

/// The label of the button for the result at `index`.
pub open spec fn button_label(emoji: Seq<char>, index: nat) -> Seq<char> {
    emoji + " "@ + decimal(index + 1)
}

/// One numbered button per result, each labelled with `emoji` and its position.
pub fn result_buttons(results: &Vec<TrackResult>, emoji: &str) -> (v: Vec<Button>)
    ensures
        v@.len() == results@.len(),
        forall|i: int|
            0 <= i < v@.len() ==> (#[trigger] v@[i]).custom_id@ == button_id(i as nat) && v@[i].label@
                == button_label(emoji@, i as nat),
{
    let mut v: Vec<Button> = Vec::new();
    let mut i: usize = 0;
    while i < results.len()
        invariant
            i <= results.len(),
            v@.len() == i,
            forall|j: int|
                0 <= j < i ==> (#[trigger] v@[j]).custom_id@ == button_id(j as nat) && v@[j].label@
                    == button_label(emoji@, j as nat),
        decreases results.len() - i,
    {
        let mut id: Vec<char> = Vec::new();
        push_str(&mut id, "trk-");
        push_decimal(&mut id, i as u64);
        let mut label: Vec<char> = Vec::new();
        push_str(&mut label, emoji);
        push_str(&mut label, " ");
        push_decimal(&mut label, (i + 1) as u64);
        v.push(Button { custom_id: into_string(id), label: into_string(label) });
        i = i + 1;
    }
    v
}

/// The confirmation shown once a track was picked.
pub fn now_playing_embed(track: &TrackResult) -> (e: Embed)
    ensures
        e.title@ == "▶️ Now playing"@,
        e.description@ == "**"@ + track.name@ + "** — "@ + track.artists@ + "\nAlbum: "@ + track.album@,
        e.color == Colors::Info,
{
    let mut d: Vec<char> = Vec::new();
    push_str(&mut d, "**");
    push_str(&mut d, track.name.as_str());
    push_str(&mut d, "** — ");
    push_str(&mut d, track.artists.as_str());
    push_str(&mut d, "\nAlbum: ");
    push_str(&mut d, track.album.as_str());
    embed("▶️ Now playing", d, Colors::Info)
}

/// How many upcoming tracks the queue listing shows.
pub open spec fn queue_shown(n: nat) -> nat {
    if n < 15 {
        n
    } else {
        15
    }
}

/// The queue listing shows every track of a queue of at most 15, in order,
/// and the first 15 of a longer one.
pub proof fn lemma_queue_listing(tracks: Seq<TrackView>)
    ensures
        tracks.len() <= 15 ==> tracks.take(queue_shown(tracks.len()) as int) == tracks,
        tracks.len() > 15 ==> tracks.take(queue_shown(tracks.len()) as int) == tracks.take(15),
        queue_shown(tracks.len()) <= 15,
{
    if tracks.len() <= 15 {
        assert(tracks.take(tracks.len() as int) =~= tracks);
    }
}

/// An embed listing the first 15 upcoming tracks.
pub fn queue_embed(tracks: &Vec<TrackResult>) -> (e: Embed)
    ensures
        e.title@ == "🎶 Up next"@,
        e.description@ == result_lines(track_views(tracks@).take(queue_shown(tracks@.len()) as int)),
        e.color == Colors::Info,
{
    let limit: usize = if tracks.len() < 15 { tracks.len() } else { 15 };
    let mut d: Vec<char> = Vec::new();
    push_result_lines(&mut d, tracks, limit);
    assert(d@ =~= result_lines(track_views(tracks@).take(limit as int)));
    embed("🎶 Up next", d, Colors::Info)
}

pub open spec fn not_configured_text() -> Seq<char> {
    "`/play` and `/queue` need your own Spotify app.\nSet `SPOTIFY_CLIENT_ID` and `SPOTIFY_CLIENT_SECRET` in the bot's environment, then restart it once to authorize."@
}

/// The embed shown when search and queue are not set up.
pub fn not_configured_embed() -> (e: Embed)
    ensures
        e.title@ == "Spotify search isn't set up"@,
        e.description@ == not_configured_text(),
        e.color == Colors::Error,
{
    embed(
        "Spotify search isn't set up",
        chars_of(
            "`/play` and `/queue` need your own Spotify app.\nSet `SPOTIFY_CLIENT_ID` and `SPOTIFY_CLIENT_SECRET` in the bot's environment, then restart it once to authorize.",
        ),
        Colors::Error,
    )
}

pub open spec fn not_playing_text(suggest_join: bool) -> Seq<char> {
    if suggest_join {
        "I'm currently not playing any music in this server."@ + "\nUse `/join` first."@
    } else {
        "I'm currently not playing any music in this server."@
    }
}

/// The private reply of a command run where no session is playing.
pub fn not_playing_reply(title: &str, suggest_join: bool) -> (r: Reply)
    ensures
        r.embed.title@ == title@,
        r.embed.description@ == not_playing_text(suggest_join),
        r.embed.color == Colors::Error,
        r.ephemeral,
{
    let mut d: Vec<char> = Vec::new();
    push_str(&mut d, "I'm currently not playing any music in this server.");
    if suggest_join {
        push_str(&mut d, "\nUse `/join` first.");
    }
    Reply { embed: embed(title, d, Colors::Error), ephemeral: true }
}

/// The reply of `/jam`, with the PNG image of a QR code of the link to attach
/// to it when there is one.
pub struct JamReply {
    pub reply: Reply,
    pub qr_code: Option<Vec<u8>>,
}

/// The bytes held by an optional byte vector.
pub open spec fn opt_bytes(o: Option<Vec<u8>>) -> Option<Seq<u8>> {
    match o {
        Some(v) => Some(v@),
        None => None,
    }
}

/// The reply of `/jam`: the link with a scannable QR code of it, or privately
/// why there is none. The QR code is left out only where it cannot be made.
pub fn jam_reply(result: &Result<String, String>) -> (r: JamReply)
    ensures
        match result {
            Ok(url) => {
                &&& r.reply.embed.title@ == "🎉 Spotify Jam"@
                &&& r.reply.embed.description@ == "Anyone with this link can join and control the music:\n\n"@ + url@
                &&& r.reply.embed.color == Colors::Info
                &&& !r.reply.ephemeral
                &&& opt_bytes(r.qr_code) == qr_png_image(vstd::utf8::encode_utf8(url@))
            },
            Err(why) => {
                &&& r.reply.embed.title@ == "Could not start a Jam"@
                &&& r.reply.embed.description@ == why@
                &&& r.reply.embed.color == Colors::Error
                &&& r.reply.ephemeral
                &&& r.qr_code is None
            },
        },
{
    match result {
        Ok(url) => {
            let mut d: Vec<char> = Vec::new();
            push_str(&mut d, "Anyone with this link can join and control the music:\n\n");
            push_str(&mut d, url.as_str());
            let reply = Reply { embed: embed("🎉 Spotify Jam", d, Colors::Info), ephemeral: false };
            let qr_code = match qr_png(url.as_str()) {
                Ok(png) => Some(png),
                Err(_) => None,
            };
            JamReply { reply, qr_code }
        },
        Err(why) => JamReply {
            reply: Reply { embed: embed("Could not start a Jam", chars_of(why.as_str()), Colors::Error), ephemeral: true },
            qr_code: None,
        },
    }
}

/// The reply of `/volume` once the volume (in percent) is set.
pub fn volume_updated_reply(volume: u8) -> (r: Reply)
    ensures
        r.embed.title@ == "Volume updated"@,
        r.embed.description@ == "Playback volume set to **"@ + decimal(volume as nat) + "%**"@,
        r.embed.color == Colors::Info,
        !r.ephemeral,
{
    let mut d: Vec<char> = Vec::new();
    push_str(&mut d, "Playback volume set to **");
    push_decimal(&mut d, volume as u64);
    push_str(&mut d, "%**");
    Reply { embed: embed("Volume updated", d, Colors::Info), ephemeral: false }
}

/// The reply of `/shuffle` once shuffle is switched.
pub fn shuffle_reply(enabled: bool) -> (r: Reply)
    ensures
        r.embed.title@ == (if enabled { "Shuffle enabled"@ } else { "Shuffle disabled"@ }),
        r.embed.description@ == (if enabled {
            "Playback is now shuffled."@
        } else {
            "Playback is no longer shuffled."@
        }),
        r.embed.color == Colors::Info,
        !r.ephemeral,
{
    if enabled {
        Reply {
            embed: embed("Shuffle enabled", chars_of("Playback is now shuffled."), Colors::Info),
            ephemeral: false,
        }
    } else {
        Reply {
            embed: embed("Shuffle disabled", chars_of("Playback is no longer shuffled."), Colors::Info),
            ephemeral: false,
        }
    }
}

/// The reply of `/repeat` once the mode is set.
pub fn repeat_updated_reply(mode: RepeatMode) -> (r: Reply)
    ensures
        r.embed.title@ == "Repeat updated"@,
        r.embed.description@ == "Repeat mode set to **"@ + mode_label(mode) + "**."@,
        r.embed.color == Colors::Info,
        !r.ephemeral,
{
    let mut d: Vec<char> = Vec::new();
    push_str(&mut d, "Repeat mode set to **");
    push_str(&mut d, mode.label());
    push_str(&mut d, "**.");
    Reply { embed: embed("Repeat updated", d, Colors::Info), ephemeral: false }
}

/// What a search-driven command does once the search answered.
pub enum SearchStep {
    /// Answer privately and stop.
    Stop(Reply),
    /// Show the results with one button each and wait for a press.
    Choose { embed: Embed, buttons: Vec<Button> },
}

/// Which search-driven command is running.
#[derive(Debug, Clone, Copy, PartialEq, Eq, Structural)]
pub enum SearchCommand {
    /// `/play`: a press plays the track.
    Play,
    /// `/queue <query>`: presses add tracks to the queue.
    Queue,
}

pub open spec fn search_title(c: SearchCommand) -> Seq<char> {
    match c {
        SearchCommand::Play => "🔎 Search results"@,
        SearchCommand::Queue => "🔎 Add to queue"@,
    }
}

pub open spec fn search_prompt(c: SearchCommand) -> Seq<char> {
    match c {
        SearchCommand::Play => " — pick a track to play:"@,
        SearchCommand::Queue => " — tap to add to the queue:"@,
    }
}

pub open spec fn search_emoji(c: SearchCommand) -> Seq<char> {
    match c {
        SearchCommand::Play => "▶️"@,
        SearchCommand::Queue => "➕"@,
    }
}

/// Decides what `/play` or `/queue` shows after searching for `query`: why the
/// search failed, that nothing matched, or the results with their buttons.
pub fn search_step(command: SearchCommand, query: &str, outcome: &Result<Vec<TrackResult>, String>) -> (step:
    SearchStep)
    ensures
        match outcome {
            Err(why) => step matches SearchStep::Stop(r) && r.embed.title@ == "Search failed"@
                && r.embed.description@ == why@ && r.embed.color == Colors::Error && r.ephemeral,
            Ok(results) => if results@.len() == 0 {
                step matches SearchStep::Stop(r) && r.embed.title@ == "No results"@ && r.embed.description@
                    == "Nothing on Spotify matched **"@ + query@ + "**."@ && r.embed.color == Colors::Warning
                    && r.ephemeral
            } else {
                step matches SearchStep::Choose { embed, buttons } && embed.title@ == search_title(command)
                    && embed.description@ == "Results for **"@ + query@ + "**"@ + search_prompt(command)
                    + "\n\n"@ + result_lines(track_views(results@)) && embed.color == Colors::Info
                    && buttons@.len() == results@.len() && forall|i: int|
                    0 <= i < buttons@.len() ==> (#[trigger] buttons@[i]).custom_id@ == button_id(i as nat)
                        && buttons@[i].label@ == button_label(search_emoji(command), i as nat)
            },
        },
{
    match outcome {
        Err(why) => SearchStep::Stop(
            Reply { embed: embed("Search failed", chars_of(why.as_str()), Colors::Error), ephemeral: true },
        ),
        Ok(results) => {
            if results.len() == 0 {
                let mut d: Vec<char> = Vec::new();
                push_str(&mut d, "Nothing on Spotify matched **");
                push_str(&mut d, query);
                push_str(&mut d, "**.");
                return SearchStep::Stop(Reply { embed: embed("No results", d, Colors::Warning), ephemeral: true });
            }
            let mut sub: Vec<char> = Vec::new();
            push_str(&mut sub, "Results for **");
            push_str(&mut sub, query);
            push_str(&mut sub, "**");
            let (title, emoji) = match command {
                SearchCommand::Play => {
                    push_str(&mut sub, " — pick a track to play:");
                    ("🔎 Search results", "▶️")
                },
                SearchCommand::Queue => {
                    push_str(&mut sub, " — tap to add to the queue:");
                    ("🔎 Add to queue", "➕")
                },
            };
            let subtitle = into_string(sub);
            let embed = results_embed(title, subtitle.as_str(), results);
            let buttons = result_buttons(results, emoji);
            SearchStep::Choose { embed, buttons }
        },
    }
}

/// The result a button press selects: its index, when the id is a result
/// button id within the list.
pub fn selected_result(custom_id: &str, results: &Vec<TrackResult>) -> (r: Option<usize>)
    ensures
        match parse_index_spec(custom_id@) {
            Some(i) => if i < results@.len() {
                r == Some(i as usize)
            } else {
                r is None
            },
            None => r is None,
        },
{
    match parse_index(custom_id) {
        Some(i) => if i < results.len() {
            Some(i)
        } else {
            None
        },
        None => None,
    }
}

/// The reply of `/queue` without a query: the upcoming tracks, that the
/// queue is empty, or privately why it could not be read.
pub fn queue_listing_reply(result: &Result<Vec<TrackResult>, String>) -> (r: Reply)
    ensures
        match result {
            Err(why) => r.embed.title@ == "Could not read the queue"@ && r.embed.description@ == why@
                && r.embed.color == Colors::Error && r.ephemeral,
            Ok(tracks) => !r.ephemeral && r.embed.title@ == "🎶 Up next"@ && r.embed.color == Colors::Info
                && r.embed.description@ == if tracks@.len() == 0 {
                "The queue is empty."@
            } else {
                result_lines(track_views(tracks@).take(queue_shown(tracks@.len()) as int))
            },
        },
{
    match result {
        Err(why) => Reply {
            embed: embed("Could not read the queue", chars_of(why.as_str()), Colors::Error),
            ephemeral: true,
        },
        Ok(tracks) => {
            if tracks.len() == 0 {
                Reply { embed: embed("🎶 Up next", chars_of("The queue is empty."), Colors::Info), ephemeral: false }
            } else {
                Reply { embed: queue_embed(tracks), ephemeral: false }
            }
        },
    }
}

/// The private follow-up after trying to add `track` to the queue.
pub fn queue_added_message(track: &TrackResult, result: &Result<(), String>) -> (s: String)
    ensures
        match result {
            Ok(()) => s@ == "➕ Added **"@ + track.name@ + "** — "@ + track.artists@ + " to the queue"@,
            Err(why) => s@ == "Could not add to the queue: "@ + why@,
        },
{
    let mut out: Vec<char> = Vec::new();
    match result {
        Ok(()) => {
            push_str(&mut out, "➕ Added **");
            push_str(&mut out, track.name.as_str());
            push_str(&mut out, "** — ");
            push_str(&mut out, track.artists.as_str());
            push_str(&mut out, " to the queue");
        },
        Err(why) => {
            push_str(&mut out, "Could not add to the queue: ");
            push_str(&mut out, why.as_str());
        },
    }
    into_string(out)
}

} // verus!
