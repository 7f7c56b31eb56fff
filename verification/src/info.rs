//! The playback information of the track that is currently loaded.
use vstd::prelude::*;
use crate::text::{decimal, push_decimal, push_str, into_string, chars_of};
use crate::utils::{get_time, valid_reading, reading_millis};

verus! {

/// A Spotify resource identifier, as the player reports it for an audio item.
pub enum TrackUri {
    Album { id: u128 },
    Artist { id: u128 },
    Episode { id: u128 },
    Playlist { user: Option<String>, id: u128 },
    Show { id: u128 },
    Track { id: u128 },
    Local { artist: String, album_title: String, track_title: String, duration_secs: u64 },
    Unknown { kind: String, id: String },
}

/// The mathematical value of a [`TrackUri`].
pub enum UriView {
    Album { id: u128 },
    Artist { id: u128 },
    Episode { id: u128 },
    Playlist { user: Option<Seq<char>>, id: u128 },
    Show { id: u128 },
    Track { id: u128 },
    Local { artist: Seq<char>, album_title: Seq<char>, track_title: Seq<char>, duration_secs: u64 },
    Unknown { kind: Seq<char>, id: Seq<char> },
}

pub open spec fn opt_view(o: Option<String>) -> Option<Seq<char>> {
    match o {
        Some(s) => Some(s@),
        None => None,
    }
}

impl View for TrackUri {
    type V = UriView;

    open spec fn view(&self) -> UriView {
        match self {
            TrackUri::Album { id } => UriView::Album { id: *id },
            TrackUri::Artist { id } => UriView::Artist { id: *id },
            TrackUri::Episode { id } => UriView::Episode { id: *id },
            TrackUri::Playlist { user, id } => UriView::Playlist { user: opt_view(*user), id: *id },
            TrackUri::Show { id } => UriView::Show { id: *id },
            TrackUri::Track { id } => UriView::Track { id: *id },
            TrackUri::Local { artist, album_title, track_title, duration_secs } => UriView::Local {
                artist: artist@,
                album_title: album_title@,
                track_title: track_title@,
                duration_secs: *duration_secs,
            },
            TrackUri::Unknown { kind, id } => UriView::Unknown { kind: kind@, id: id@ },
        }
    }
}

/// The base62 digit alphabet Spotify uses for resource ids.
pub open spec fn base62_digit(d: nat) -> char {
    if d < 10 {
        (48 + d) as char
    } else if d < 36 {
        (97 + (d - 10)) as char
    } else {
        (65 + (d - 36)) as char
    }
}

/// The `k` least significant base62 digits of `n`, most significant first.
pub open spec fn base62(n: nat, k: nat) -> Seq<char>
    decreases k,
{
    if k == 0 {
        Seq::empty()
    } else {
        base62(n / 62, (k - 1) as nat).push(base62_digit(n % 62))
    }
}

/// The id part of a resource identifier: 22 base62 digits for a Spotify id,
/// `artist:album:track:seconds` for a local file, the raw id otherwise.
pub open spec fn uri_id(u: UriView) -> Seq<char> {
    match u {
        UriView::Album { id } => base62(id as nat, 22),
        UriView::Artist { id } => base62(id as nat, 22),
        UriView::Episode { id } => base62(id as nat, 22),
        UriView::Playlist { id, .. } => base62(id as nat, 22),
        UriView::Show { id } => base62(id as nat, 22),
        UriView::Track { id } => base62(id as nat, 22),
        UriView::Local { artist, album_title, track_title, duration_secs } => artist + seq![':']
            + album_title + seq![':'] + track_title + seq![':'] + decimal(duration_secs as nat),
        UriView::Unknown { id, .. } => id,
    }
}

/// The numeric Spotify id of a resource, 0 for local files and unknown kinds.
pub open spec fn uri_number(u: UriView) -> u128 {
    match u {
        UriView::Album { id } => id,
        UriView::Artist { id } => id,
        UriView::Episode { id } => id,
        UriView::Playlist { id, .. } => id,
        UriView::Show { id } => id,
        UriView::Track { id } => id,
        _ => 0,
    }
}

fn base62_char(d: u128) -> (c: char)
    requires
        d < 62,
    ensures
        c == base62_digit(d as nat),
{
    if d < 10 {
        let b: u8 = 48u8 + d as u8;
        b as char
    } else if d < 36 {
        let b: u8 = 97u8 + (d - 10) as u8;
        b as char
    } else {
        let b: u8 = 65u8 + (d - 36) as u8;
        b as char
    }
}

fn push_base62(out: &mut Vec<char>, n: u128, k: u32)
    ensures
        final(out)@ == old(out)@ + base62(n as nat, k as nat),
    decreases k,
{
    if k > 0 {
        push_base62(out, n / 62, k - 1);
        let c = base62_char(n % 62);
        out.push(c);
        assert(old(out)@ + base62(n as nat, k as nat) =~= old(out)@ + base62(
            (n / 62) as nat,
            (k - 1) as nat,
        ) + seq![c]);
    } else {
        assert(old(out)@ + base62(n as nat, k as nat) =~= old(out)@);
    }
}

fn copy_string(s: &String) -> (r: String)
    ensures
        r == *s,
{
    s.clone()
}

fn copy_opt_string(s: &Option<String>) -> (r: Option<String>)
    ensures
        r == *s,
{
    match s {
        Some(s) => Some(s.clone()),
        None => None,
    }
}

impl TrackUri {
    /// The id of this resource as text (Spotify's `SpotifyUri::to_id`).
    pub fn to_id(&self) -> (s: String)
        ensures
            s@ == uri_id(self@),
    {
        let mut out: Vec<char> = Vec::new();
        match self {
            TrackUri::Album { id } | TrackUri::Artist { id } | TrackUri::Episode { id }
            | TrackUri::Playlist { id, .. } | TrackUri::Show { id } | TrackUri::Track { id } => {
                push_base62(&mut out, *id, 22);
                assert(out@ =~= base62(*id as nat, 22));
            },
            TrackUri::Local { artist, album_title, track_title, duration_secs } => {
                push_str(&mut out, artist.as_str());
                out.push(':');
                push_str(&mut out, album_title.as_str());
                out.push(':');
                push_str(&mut out, track_title.as_str());
                out.push(':');
                push_decimal(&mut out, *duration_secs);
                assert(out@ =~= uri_id(self@));
            },
            TrackUri::Unknown { id, .. } => {
                push_str(&mut out, id.as_str());
                assert(out@ =~= uri_id(self@));
            },
        }
        into_string(out)
    }

    /// A copy of this identifier.
    pub fn duplicate(&self) -> (r: TrackUri)
        ensures
            r == *self,
    {
        match self {
            TrackUri::Album { id } => TrackUri::Album { id: *id },
            TrackUri::Artist { id } => TrackUri::Artist { id: *id },
            TrackUri::Episode { id } => TrackUri::Episode { id: *id },
            TrackUri::Playlist { user, id } => TrackUri::Playlist { user: copy_opt_string(user), id: *id },
            TrackUri::Show { id } => TrackUri::Show { id: *id },
            TrackUri::Track { id } => TrackUri::Track { id: *id },
            TrackUri::Local { artist, album_title, track_title, duration_secs } => TrackUri::Local {
                artist: copy_string(artist),
                album_title: copy_string(album_title),
                track_title: copy_string(track_title),
                duration_secs: *duration_secs,
            },
            TrackUri::Unknown { kind, id } => TrackUri::Unknown { kind: copy_string(kind), id: copy_string(id) },
        }
    }

    /// Whether two identifiers name the same resource.
    pub fn same_as(&self, other: &TrackUri) -> (r: bool)
        ensures
            r == (self@ == other@),
    {
        match (self, other) {
            (TrackUri::Album { id: a }, TrackUri::Album { id: b }) => *a == *b,
            (TrackUri::Artist { id: a }, TrackUri::Artist { id: b }) => *a == *b,
            (TrackUri::Episode { id: a }, TrackUri::Episode { id: b }) => *a == *b,
            (TrackUri::Playlist { user: u1, id: a }, TrackUri::Playlist { user: u2, id: b }) => {
                *a == *b && opt_string_eq(u1, u2)
            },
            (TrackUri::Show { id: a }, TrackUri::Show { id: b }) => *a == *b,
            (TrackUri::Track { id: a }, TrackUri::Track { id: b }) => *a == *b,
            (
                TrackUri::Local { artist: a1, album_title: b1, track_title: c1, duration_secs: d1 },
                TrackUri::Local { artist: a2, album_title: b2, track_title: c2, duration_secs: d2 },
            ) => *d1 == *d2 && string_eq(a1, a2) && string_eq(b1, b2) && string_eq(c1, c2),
            (TrackUri::Unknown { kind: k1, id: i1 }, TrackUri::Unknown { kind: k2, id: i2 }) => {
                string_eq(k1, k2) && string_eq(i1, i2)
            },
            _ => false,
        }
    }
}

fn string_eq(a: &String, b: &String) -> (r: bool)
    ensures
        r == (a@ == b@),
{
    a.eq(b)
}

fn opt_string_eq(a: &Option<String>, b: &Option<String>) -> (r: bool)
    ensures
        r == (opt_view(*a) == opt_view(*b)),
{
    match (a, b) {
        (Some(x), Some(y)) => string_eq(x, y),
        (None, None) => true,
        _ => false,
    }
}


/// An artist credited on a track, with the role code the player reports.
pub struct ArtistWithRole {
    pub id: TrackUri,
    pub name: String,
    pub role: i32,
}

impl ArtistWithRole {
    pub fn duplicate(&self) -> (r: ArtistWithRole)
        ensures
            r == *self,
    {
        ArtistWithRole { id: self.id.duplicate(), name: copy_string(&self.name), role: self.role }
    }
}

/// A cover image of an audio item.
pub struct CoverImage {
    pub url: String,
}

/// The fields that only some kinds of audio item carry.
pub enum UniqueFields {
    Track { artists: Vec<ArtistWithRole>, album: String },
    Local { album: Option<String> },
    Episode { show_name: String },
}

/// What the player knows of the audio item it is playing.
pub struct AudioItem {
    pub track_id: TrackUri,
    pub name: String,
    pub covers: Vec<CoverImage>,
    pub duration_ms: u32,
    pub unique_fields: UniqueFields,
}

/// The value of [`UniqueFields`], with sequences in place of vectors.
pub enum UniqueView {
    Track { artists: Seq<ArtistWithRole>, album: String },
    Local { album: Option<String> },
    Episode { show_name: String },
}

/// The value of an [`AudioItem`].
pub struct AudioItemView {
    pub track_id: TrackUri,
    pub name: String,
    pub covers: Seq<CoverImage>,
    pub duration_ms: u32,
    pub unique_fields: UniqueView,
}

impl View for UniqueFields {
    type V = UniqueView;

    open spec fn view(&self) -> UniqueView {
        match self {
            UniqueFields::Track { artists, album } => UniqueView::Track { artists: artists@, album: *album },
            UniqueFields::Local { album } => UniqueView::Local { album: *album },
            UniqueFields::Episode { show_name } => UniqueView::Episode { show_name: *show_name },
        }
    }
}

impl View for AudioItem {
    type V = AudioItemView;

    open spec fn view(&self) -> AudioItemView {
        AudioItemView {
            track_id: self.track_id,
            name: self.name,
            covers: self.covers@,
            duration_ms: self.duration_ms,
            unique_fields: self.unique_fields@,
        }
    }
}

fn copy_artists(v: &Vec<ArtistWithRole>) -> (r: Vec<ArtistWithRole>)
    ensures
        r@ == v@,
{
    let mut r: Vec<ArtistWithRole> = Vec::new();
    let mut i: usize = 0;
    while i < v.len()
        invariant
            i <= v.len(),
            r@ == v@.subrange(0, i as int),
        decreases v.len() - i,
    {
        r.push(v[i].duplicate());
        i = i + 1;
        assert(r@ =~= v@.subrange(0, i as int));
    }
    assert(v@.subrange(0, v.len() as int) =~= v@);
    r
}

fn copy_covers(v: &Vec<CoverImage>) -> (r: Vec<CoverImage>)
    ensures
        r@ == v@,
{
    let mut r: Vec<CoverImage> = Vec::new();
    let mut i: usize = 0;
    while i < v.len()
        invariant
            i <= v.len(),
            r@ == v@.subrange(0, i as int),
        decreases v.len() - i,
    {
        r.push(CoverImage { url: copy_string(&v[i].url) });
        i = i + 1;
        assert(r@ =~= v@.subrange(0, i as int));
    }
    assert(v@.subrange(0, v.len() as int) =~= v@);
    r
}

impl UniqueFields {
    pub fn duplicate(&self) -> (r: UniqueFields)
        ensures
            r@ == self@,
    {
        match self {
            UniqueFields::Track { artists, album } => UniqueFields::Track {
                artists: copy_artists(artists),
                album: copy_string(album),
            },
            UniqueFields::Local { album } => UniqueFields::Local { album: copy_opt_string(album) },
            UniqueFields::Episode { show_name } => UniqueFields::Episode { show_name: copy_string(show_name) },
        }
    }
}

impl AudioItem {
    pub fn duplicate(&self) -> (r: AudioItem)
        ensures
            r@ == self@,
    {
        AudioItem {
            track_id: self.track_id.duplicate(),
            name: copy_string(&self.name),
            covers: copy_covers(&self.covers),
            duration_ms: self.duration_ms,
            unique_fields: self.unique_fields.duplicate(),
        }
    }
}

/// Whether an artist with this id occurs in `s`.
pub open spec fn has_artist_id(s: Seq<ArtistWithRole>, id: UriView) -> bool {
    exists|j: int| 0 <= j < s.len() && (#[trigger] s[j]).id@ == id
}

/// `s` with every artist dropped whose id already occurred earlier.
pub open spec fn dedup_artists(s: Seq<ArtistWithRole>) -> Seq<ArtistWithRole>
    decreases s.len(),
{
    if s.len() == 0 {
        s
    } else if has_artist_id(s.drop_last(), s.last().id@) {
        dedup_artists(s.drop_last())
    } else {
        dedup_artists(s.drop_last()).push(s.last())
    }
}

/// No two artists of the deduplicated list share an id, and every id of the
/// input list is kept.
pub proof fn lemma_dedup_artists(s: Seq<ArtistWithRole>)
    ensures
        forall|i: int, j: int|
            0 <= i < j < dedup_artists(s).len() ==> (#[trigger] dedup_artists(s)[i]).id@
                != (#[trigger] dedup_artists(s)[j]).id@,
        forall|i: int| 0 <= i < s.len() ==> has_artist_id(dedup_artists(s), (#[trigger] s[i]).id@),
        forall|i: int|
            0 <= i < dedup_artists(s).len() ==> has_artist_id(s, (#[trigger] dedup_artists(s)[i]).id@),
    decreases s.len(),
{
    if s.len() > 0 {
        let p = s.drop_last();
        lemma_dedup_artists(p);
        let d = dedup_artists(p);
        if has_artist_id(p, s.last().id@) {
            assert forall|i: int| 0 <= i < s.len() implies has_artist_id(d, (#[trigger] s[i]).id@) by {
                if i < p.len() {
                    assert(s[i] == p[i]);
                } else {
                    let j = choose|j: int| 0 <= j < p.len() && (#[trigger] p[j]).id@ == s.last().id@;
                    assert(has_artist_id(d, p[j].id@));
                }
            }
            assert forall|i: int| 0 <= i < d.len() implies has_artist_id(s, (#[trigger] d[i]).id@) by {
                let j = choose|j: int| 0 <= j < p.len() && (#[trigger] p[j]).id@ == d[i].id@;
                assert(s[j] == p[j]);
            }
        } else {
            let r = d.push(s.last());
            assert(!has_artist_id(d, s.last().id@)) by {
                if has_artist_id(d, s.last().id@) {
                    let j = choose|j: int| 0 <= j < d.len() && (#[trigger] d[j]).id@ == s.last().id@;
                    let k = choose|k: int| 0 <= k < p.len() && (#[trigger] p[k]).id@ == d[j].id@;
                    assert(p[k].id@ == s.last().id@);
                }
            }
            assert forall|i: int, j: int| 0 <= i < j < r.len() implies (#[trigger] r[i]).id@ != (
            #[trigger] r[j]).id@ by {
                if j < d.len() {
                    assert(r[i] == d[i] && r[j] == d[j]);
                } else {
                    assert(r[i] == d[i]);
                    assert(r[j] == s.last());
                }
            }
            assert forall|i: int| 0 <= i < s.len() implies has_artist_id(r, (#[trigger] s[i]).id@) by {
                if i < p.len() {
                    assert(s[i] == p[i]);
                    let j = choose|j: int| 0 <= j < d.len() && (#[trigger] d[j]).id@ == p[i].id@;
                    assert(r[j] == d[j]);
                } else {
                    assert(r[d.len() as int] == s.last());
                }
            }
            assert forall|i: int| 0 <= i < r.len() implies has_artist_id(s, (#[trigger] r[i]).id@) by {
                if i < d.len() {
                    assert(r[i] == d[i]);
                    let j = choose|j: int| 0 <= j < p.len() && (#[trigger] p[j]).id@ == d[i].id@;
                    assert(s[j] == p[j]);
                } else {
                    assert(s[s.len() - 1] == s.last());
                }
            }
        }
    }
}

/// The artists of `artists` in order, each id kept only at its first occurrence.
pub fn dedup_by_id(artists: &Vec<ArtistWithRole>) -> (r: Vec<ArtistWithRole>)
    ensures
        r@ == dedup_artists(artists@),
{
    let mut out: Vec<ArtistWithRole> = Vec::new();
    let mut i: usize = 0;
    while i < artists.len()
        invariant
            i <= artists.len(),
            out@ == dedup_artists(artists@.subrange(0, i as int)),
        decreases artists.len() - i,
    {
        let mut seen = false;
        let mut j: usize = 0;
        while j < i
            invariant
                j <= i < artists.len(),
                seen == exists|k: int| 0 <= k < j && (#[trigger] artists@[k]).id@ == artists@[i as int].id@,
            decreases i - j,
        {
            if artists[j].id.same_as(&artists[i].id) {
                seen = true;
            }
            j = j + 1;
        }
        let ghost pre = artists@.subrange(0, i as int);
        let ghost next = artists@.subrange(0, i + 1);
        assert(next.drop_last() =~= pre);
        assert(next.last() == artists@[i as int]);
        assert(seen == has_artist_id(pre, artists@[i as int].id@)) by {
            if seen {
                let k = choose|k: int| 0 <= k < i && (#[trigger] artists@[k]).id@ == artists@[i as int].id@;
                assert(pre[k] == artists@[k]);
            }
            if has_artist_id(pre, artists@[i as int].id@) {
                let k = choose|k: int| 0 <= k < pre.len() && (#[trigger] pre[k]).id@ == artists@[i as int].id@;
                assert(artists@[k] == pre[k]);
            }
        }
        if !seen {
            out.push(artists[i].duplicate());
        }
        i = i + 1;
    }
    assert(artists@.subrange(0, artists.len() as int) =~= artists@);
    out
}


/// The public link of an audio item: its episode or track page, or the site
/// itself for a local file.
pub open spec fn item_url(item: AudioItemView) -> Seq<char> {
    match item.unique_fields {
        UniqueView::Episode { .. } => "https://open.spotify.com/episode/"@ + uri_id(item.track_id@),
        UniqueView::Track { .. } => "https://open.spotify.com/track/"@ + uri_id(item.track_id@),
        UniqueView::Local { .. } => "https://open.spotify.com"@,
    }
}

/// The playback position `now` milliseconds after an update that recorded
/// `position` at `updated_at`.
pub open spec fn position_at(position: u32, updated_at: u128, playing: bool, now: u128) -> int {
    if playing {
        position + ((now - updated_at) as u32)
    } else {
        position as int
    }
}

/// The position a clock reading `now` gives: see
/// [`PlaybackInfo::position_from_clock`].
pub open spec fn position_reading(position: u32, updated_at: u128, playing: bool, now: u128) -> Option<u32> {
    if !playing {
        Some(position)
    } else if now >= updated_at && position + ((now - updated_at) as u32) <= u32::MAX {
        Some(position_at(position, updated_at, playing, now) as u32)
    } else {
        None
    }
}

/// Read at the instant it was recorded, a report gives back the reported
/// position, playing or not.
pub proof fn lemma_read_at_report(position: u32, updated_at: u128, playing: bool)
    ensures
        position_reading(position, updated_at, playing, updated_at) == Some(position),
{
}

/// While paused, every reading gives the reported position.
pub proof fn lemma_paused_position_stays(position: u32, updated_at: u128, now: u128)
    ensures
        position_reading(position, updated_at, false, now) == Some(position),
{
}

/// While playing, a reading `t` milliseconds after the report gives the
/// reported position plus `t`, so two readings differ by exactly the time
/// between them; a reading before the report gives nothing.
pub proof fn lemma_position_advances(position: u32, updated_at: u128, t1: u128, t2: u128)
    requires
        updated_at <= t1 <= t2,
        position + (t2 - updated_at) <= u32::MAX,
    ensures
        position_reading(position, updated_at, true, t1) matches Some(a) && a == position + (t1 - updated_at),
        position_reading(position, updated_at, true, t2) matches Some(b) && b == position + (t2 - updated_at),
        position_reading(position, updated_at, true, t2)->0 - position_reading(position, updated_at, true, t1)->0
            == t2 - t1,
        updated_at > 0 ==> position_reading(position, updated_at, true, (updated_at - 1) as u128) is None,
{
}

/// The track that is loaded, with the playback position last reported for it.
pub struct PlaybackInfo {
    audio_item: AudioItem,
    updated_at: u128,
    position: u32,
    playing: bool,
}

impl PlaybackInfo {
    pub closed spec fn item(&self) -> AudioItemView {
        self.audio_item@
    }

    pub closed spec fn updated_at(&self) -> u128 {
        self.updated_at
    }

    pub closed spec fn position(&self) -> u32 {
        self.position
    }

    pub closed spec fn is_playing(&self) -> bool {
        self.playing
    }

    /// Playback information recorded at Unix time `now` (milliseconds).
    pub fn new_at(audio_item: AudioItem, position: u32, playing: bool, now: u128) -> (r: Self)
        ensures
            r.item() == audio_item@,
            r.position() == position,
            r.is_playing() == playing,
            r.updated_at() == now,
            position_reading(r.position(), r.updated_at(), r.is_playing(), now) == Some(position),
    {
        PlaybackInfo { audio_item, updated_at: now, position, playing }
    }

    /// Playback information recorded now.
    pub fn new(audio_item: AudioItem, position: u32, playing: bool) -> (r: Self)
        ensures
            r.item() == audio_item@,
            r.position() == position,
            r.is_playing() == playing,
            exists|rd: Option<(u64, u32)>| valid_reading(rd) && r.updated_at() == #[trigger] reading_millis(rd),
    {
        Self::new_at(audio_item, position, playing, get_time())
    }

    /// A copy of this information.
    pub fn duplicate(&self) -> (r: Self)
        ensures
            r.item() == self.item(),
            r.position() == self.position(),
            r.is_playing() == self.is_playing(),
            r.updated_at() == self.updated_at(),
    {
        PlaybackInfo {
            audio_item: self.audio_item.duplicate(),
            updated_at: self.updated_at,
            position: self.position,
            playing: self.playing,
        }
    }

    /// The numeric Spotify id of the item, 0 for local files and unknown kinds.
    pub fn track_id(&self) -> (id: u128)
        ensures
            id == uri_number(self.item().track_id@),
    {
        match &self.audio_item.track_id {
            TrackUri::Album { id } | TrackUri::Artist { id } | TrackUri::Episode { id }
            | TrackUri::Playlist { id, .. } | TrackUri::Show { id } | TrackUri::Track { id } => *id,
            TrackUri::Local { .. } | TrackUri::Unknown { .. } => 0,
        }
    }

    /// The id of the item as text.
    pub fn track_id_string(&self) -> (s: String)
        ensures
            s@ == uri_id(self.item().track_id@),
    {
        self.audio_item.track_id.to_id()
    }

    pub fn name(&self) -> (s: String)
        ensures
            s == self.item().name,
    {
        copy_string(&self.audio_item.name)
    }

    /// The credited artists of a track, each at most once, in order; `None`
    /// for episodes and local files.
    pub fn artists(&self) -> (r: Option<Vec<ArtistWithRole>>)
        ensures
            match self.item().unique_fields {
                UniqueView::Track { artists, .. } => r matches Some(v) && v@ == dedup_artists(artists),
                _ => r is None,
            },
    {
        match &self.audio_item.unique_fields {
            UniqueFields::Track { artists, .. } => Some(dedup_by_id(artists)),
            UniqueFields::Episode { .. } | UniqueFields::Local { .. } => None,
        }
    }

    pub fn show_name(&self) -> (r: Option<String>)
        ensures
            match self.item().unique_fields {
                UniqueView::Episode { show_name } => r == Some(show_name),
                _ => r is None,
            },
    {
        match &self.audio_item.unique_fields {
            UniqueFields::Episode { show_name } => Some(copy_string(show_name)),
            UniqueFields::Track { .. } | UniqueFields::Local { .. } => None,
        }
    }

    pub fn album_name(&self) -> (r: Option<String>)
        ensures
            match self.item().unique_fields {
                UniqueView::Episode { .. } => r is None,
                UniqueView::Track { album, .. } => r == Some(album),
                UniqueView::Local { album } => r == album,
            },
    {
        match &self.audio_item.unique_fields {
            UniqueFields::Episode { .. } => None,
            UniqueFields::Track { album, .. } => Some(copy_string(album)),
            UniqueFields::Local { album } => copy_opt_string(album),
        }
    }

    /// The url of the first cover image.
    pub fn thumbnail(&self) -> (s: String)
        requires
            self.item().covers.len() > 0,
        ensures
            s == self.item().covers[0].url,
    {
        copy_string(&self.audio_item.covers[0].url)
    }

    pub fn duration(&self) -> (d: u32)
        ensures
            d == self.item().duration_ms,
    {
        self.audio_item.duration_ms
    }

    pub fn url(&self) -> (s: String)
        ensures
            s@ == item_url(self.item()),
    {
        let mut out: Vec<char> = Vec::new();
        match &self.audio_item.unique_fields {
            UniqueFields::Episode { .. } => {
                push_str(&mut out, "https://open.spotify.com/episode/");
                let id = self.track_id_string();
                push_str(&mut out, id.as_str());
            },
            UniqueFields::Track { .. } => {
                push_str(&mut out, "https://open.spotify.com/track/");
                let id = self.track_id_string();
                push_str(&mut out, id.as_str());
            },
            UniqueFields::Local { .. } => {
                push_str(&mut out, "https://open.spotify.com");
            },
        }
        assert(out@ =~= item_url(self.item()));
        into_string(out)
    }

    /// The position at Unix time `now` (milliseconds), counting the time that
    /// passed since the last update while playing.
    pub fn current_position_at(&self, now: u128) -> (p: u32)
        requires
            self.is_playing() ==> now >= self.updated_at() && self.position() + ((now
                - self.updated_at()) as u32) <= u32::MAX,
        ensures
            p == position_at(self.position(), self.updated_at(), self.is_playing(), now),
    {
        if self.playing {
            let diff = now - self.updated_at;
            self.position + diff as u32
        } else {
            self.position
        }
    }

    /// The position given a clock reading `now` (Unix milliseconds): the
    /// recorded one while paused; while playing, the recorded one plus the time
    /// since the last update, or `None` when `now` lies before that update or
    /// the sum does not fit in a `u32`.
    pub fn position_from_clock(&self, now: u128) -> (r: Option<u32>)
        ensures
            r == position_reading(self.position(), self.updated_at(), self.is_playing(), now),
    {
        if !self.playing {
            return Some(self.position);
        }
        if now < self.updated_at {
            return None;
        }
        let diff = now - self.updated_at;
        let step = diff as u32;
        if step > u32::MAX - self.position {
            return None;
        }
        Some(self.current_position_at(now))
    }

    /// The position now, read off the clock as [`PlaybackInfo::position_from_clock`] says.
    pub fn current_position(&self) -> (r: Option<u32>)
        ensures
            !self.is_playing() ==> r == Some(self.position()),
            exists|rd: Option<(u64, u32)>|
                valid_reading(rd) && r == position_reading(
                    self.position(),
                    self.updated_at(),
                    self.is_playing(),
                    #[trigger] reading_millis(rd),
                ),
    {
        let now = get_time();
        let r = self.position_from_clock(now);
        assert(r == position_reading(self.position(), self.updated_at(), self.is_playing(), now));
        r
    }

    pub fn playing(&self) -> (b: bool)
        ensures
            b == self.is_playing(),
    {
        self.playing
    }

    /// Records a reported position and play state at Unix time `now`.
    pub fn update_playback_at(&mut self, position: u32, playing: bool, now: u128)
        ensures
            final(self).item() == old(self).item(),
            final(self).position() == position,
            final(self).is_playing() == playing,
            final(self).updated_at() == now,
            position_reading(final(self).position(), final(self).updated_at(), final(self).is_playing(), now)
                == Some(position),
    {
        self.position = position;
        self.playing = playing;
        self.updated_at = now;
    }

    /// Records a reported position and play state now.
    pub fn update_playback(&mut self, position: u32, playing: bool)
        ensures
            final(self).item() == old(self).item(),
            final(self).position() == position,
            final(self).is_playing() == playing,
            exists|rd: Option<(u64, u32)>|
                valid_reading(rd) && final(self).updated_at() == #[trigger] reading_millis(rd),
    {
        let now = get_time();
        self.update_playback_at(position, playing, now);
    }

    /// Replaces the audio item, keeping the playback position and state.
    pub fn update_track(&mut self, audio_item: AudioItem)
        ensures
            final(self).item() == audio_item@,
            final(self).position() == old(self).position(),
            final(self).is_playing() == old(self).is_playing(),
            final(self).updated_at() == old(self).updated_at(),
    {
        self.audio_item = audio_item;
    }

    pub fn is_episode(&self) -> (b: bool)
        ensures
            b == (self.item().unique_fields is Episode),
    {
        match &self.audio_item.unique_fields {
            UniqueFields::Episode { .. } => true,
            _ => false,
        }
    }

    pub fn is_track(&self) -> (b: bool)
        ensures
            b == (self.item().unique_fields is Track),
    {
        match &self.audio_item.unique_fields {
            UniqueFields::Track { .. } => true,
            _ => false,
        }
    }
}

/// Two records of playback information that agree in every field.
pub open spec fn same_info(a: PlaybackInfo, b: PlaybackInfo) -> bool {
    &&& a.item() == b.item()
    &&& a.position() == b.position()
    &&& a.is_playing() == b.is_playing()
    &&& a.updated_at() == b.updated_at()
}

/// Two optional records that are both absent or agree in every field.
pub open spec fn same_opt_info(a: Option<PlaybackInfo>, b: Option<PlaybackInfo>) -> bool {
    match (a, b) {
        (Some(x), Some(y)) => same_info(x, y),
        (None, None) => true,
        _ => false,
    }
}

/// An item is never both an episode and a track.
pub proof fn lemma_episode_not_track(info: PlaybackInfo)
    ensures
        !((info.item().unique_fields is Episode) && (info.item().unique_fields is Track)),
{
}

} // verus!
