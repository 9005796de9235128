//! SoundCloud: reading a public playlist through the web player's own API,
//! with a `client_id` taken from the player's scripts.

use vstd::prelude::*;
use vstd::string::*;

use crate::json::{get, items, json_get, json_items, json_text, json_unsigned, text_or, text_or_default, unsigned, Json};
use crate::spotify::HttpReply;
use crate::text::{chars_of, decimal, decimal_string, join, join2, join3, joined, owned, same_text, seq_strings, string_from_range, trim, trimmed, StrSeq};
use crate::urls::{first_match, lemma_first_match_occurs, locate, percent_encode, percent_encoded};

verus! {

broadcast use vstd::string::group_string_axioms;

// ---------------------------------------------------------------------------
// The public client id

/// What precedes the address of each of the web player's scripts.
pub open spec fn script_marker() -> Seq<char> {
    "src=\"https://a-v2.sndcdn.com/assets/"@
}

/// The addresses of the web player's scripts in the home page, in order: what
/// follows each `src="` that opens a script of the player, up to the next `"`.
pub open spec fn scripts_in(s: Seq<char>) -> StrSeq
    decreases s.len(),
{
    match first_match(s, script_marker(), 0) {
        None => Seq::empty(),
        Some(k) => {
            proof {
                reveal_strlit("src=\"https://a-v2.sndcdn.com/assets/");
                lemma_first_match_occurs(s, script_marker(), 0);
            }
            let r = s.skip(k + 5);
            match first_match(r, "\""@, 0) {
                None => Seq::empty(),
                Some(e) => {
                    proof {
                        lemma_first_match_occurs(r, "\""@, 0);
                    }
                    seq![r.take(e)] + scripts_in(r.skip(e))
                },
            }
        },
    }
}

fn skip_from(v: &Vec<char>, from: usize) -> (r: Vec<char>)
    requires
        from <= v.len(),
    ensures
        r@ == v@.skip(from as int),
{
    let mut r: Vec<char> = Vec::new();
    let mut i = from;
    while i < v.len()
        invariant
            from <= i <= v.len(),
            r@ == v@.subrange(from as int, i as int),
        decreases v.len() - i,
    {
        r.push(v[i]);
        assert(r@ =~= v@.subrange(from as int, i + 1));
        i = i + 1;
    }
    r
}

/// The addresses of the web player's scripts found in the home page.
pub fn script_urls(html: &str) -> (r: Vec<String>)
    ensures
        seq_strings(r@) == scripts_in(html@),
{
    let marker = chars_of("src=\"https://a-v2.sndcdn.com/assets/");
    let quote = chars_of("\"");
    proof {
        reveal_strlit("src=\"https://a-v2.sndcdn.com/assets/");
        reveal_strlit("\"");
    }
    let mut rest = chars_of(html);
    let mut r: Vec<String> = Vec::new();
    assert(seq_strings(r@) + scripts_in(rest@) =~= scripts_in(html@));
    while rest.len() > 0
        invariant
            marker@ == script_marker(),
            marker@.len() == 36,
            quote@ == "\""@,
            seq_strings(r@) + scripts_in(rest@) == scripts_in(html@),
        decreases rest.len(),
    {
        let start = match locate(&rest, &marker, 0) {
            Some(k) => k,
            None => {
                assert(scripts_in(rest@) =~= Seq::<Seq<char>>::empty());
                assert(seq_strings(r@) + Seq::<Seq<char>>::empty() =~= seq_strings(r@));
                return r;
            },
        };
        proof {
            lemma_first_match_occurs(rest@, marker@, 0);
        }
        let after = skip_from(&rest, start + 5);
        let end = match locate(&after, &quote, 0) {
            Some(e) => e,
            None => {
                assert(scripts_in(rest@) =~= Seq::<Seq<char>>::empty());
                assert(seq_strings(r@) + Seq::<Seq<char>>::empty() =~= seq_strings(r@));
                return r;
            },
        };
        proof {
            lemma_first_match_occurs(after@, quote@, 0);
        }
        let url = string_from_range(&after, 0, end);
        let ghost before = seq_strings(r@);
        let ghost old_rest = rest@;
        r.push(url);
        rest = skip_from(&after, end);
        assert(seq_strings(r@) =~= before.push(after@.take(end as int)));
        assert(scripts_in(old_rest) == seq![after@.take(end as int)] + scripts_in(rest@));
        assert(seq_strings(r@) + scripts_in(rest@) =~= before + scripts_in(old_rest));
    }
    assert(scripts_in(rest@) =~= Seq::<Seq<char>>::empty()) by {
        assert(first_match(rest@, script_marker(), 0) is None) by {
            if first_match(rest@, script_marker(), 0) is Some {
                lemma_first_match_occurs(rest@, script_marker(), 0);
            }
        }
    }
    assert(seq_strings(r@) + Seq::<Seq<char>>::empty() =~= seq_strings(r@));
    r
}

/// The client id a script sets: what follows its first `client_id:"` up to the next `"`.
pub open spec fn client_id_of(js: Seq<char>) -> Option<Seq<char>> {
    match first_match(js, "client_id:\""@, 0) {
        None => None,
        Some(k) => {
            let after = js.skip(k + "client_id:\""@.len());
            match first_match(after, "\""@, 0) {
                Some(e) => Some(after.take(e)),
                None => None,
            }
        },
    }
}

/// The client id set in one of the web player's scripts, if it sets one.
pub fn client_id_in(js: &str) -> (r: Option<String>)
    ensures
        match r {
            Some(id) => client_id_of(js@) == Some(id@),
            None => client_id_of(js@) is None,
        },
{
    let v = chars_of(js);
    let marker = chars_of("client_id:\"");
    let quote = chars_of("\"");
    proof {
        reveal_strlit("client_id:\"");
        reveal_strlit("\"");
    }
    let k = match locate(&v, &marker, 0) {
        Some(k) => k,
        None => return None,
    };
    proof {
        lemma_first_match_occurs(v@, marker@, 0);
        assert(k + marker@.len() <= v@.len());
        assert(k + marker.len() <= v.len());
    }
    let after = skip_from(&v, k + marker.len());
    let e = match locate(&after, &quote, 0) {
        Some(e) => e,
        None => return None,
    };
    proof {
        lemma_first_match_occurs(after@, quote@, 0);
    }
    let id = string_from_range(&after, 0, e);
    assert(id@ =~= after@.take(e as int));
    Some(id)
}

// ---------------------------------------------------------------------------
// Playlists and tracks

/// One track of a SoundCloud playlist.
#[derive(Debug, Clone)]
pub struct SoundCloudTrack {
    pub title: String,
    pub artist: String,
    pub duration_secs: u64,
}

pub struct SoundCloudTrackView {
    pub title: Seq<char>,
    pub artist: Seq<char>,
    pub duration_secs: u64,
}

impl View for SoundCloudTrack {
    type V = SoundCloudTrackView;

    open spec fn view(&self) -> SoundCloudTrackView {
        SoundCloudTrackView { title: self.title@, artist: self.artist@, duration_secs: self.duration_secs }
    }
}

pub open spec fn sc_tracks_view(v: Seq<SoundCloudTrack>) -> Seq<SoundCloudTrackView> {
    v.map_values(|t: SoundCloudTrack| t@)
}

/// A playlist read from SoundCloud.
#[derive(Debug)]
pub struct FetchResult {
    pub name: String,
    pub tracks: Vec<SoundCloudTrack>,
}

/// The track a track resource stands for: its title (or "Unknown track"), its
/// uploader's name, and its duration in whole seconds.
pub open spec fn track_of(t: Json) -> SoundCloudTrackView {
    SoundCloudTrackView {
        title: text_or(json_text(json_get(Some(t), "title"@)), "Unknown track"@),
        artist: text_or(json_text(json_get(json_get(Some(t), "user"@), "username"@)), Seq::empty()),
        duration_secs: (match json_unsigned(json_get(Some(t), "duration"@)) {
            Some(ms) => ms,
            None => 0,
        }) / 1000,
    }
}

/// A track resource read as a track.
pub fn parse_track(track: &Json) -> (t: SoundCloudTrack)
    ensures
        t@ == track_of(*track),
{
    let r = Some(track);
    let title = text_or_default(get(r, "title"), "Unknown track");
    let artist = text_or_default(get(get(r, "user"), "username"), "");
    proof {
        reveal_strlit("");
    }
    let ms = match unsigned(get(r, "duration")) {
        Some(ms) => ms,
        None => 0,
    };
    assert(artist@ == text_or(json_text(json_get(json_get(Some(*track), "user"@), "username"@)), Seq::empty()));
    SoundCloudTrack { title, artist, duration_secs: ms / 1000 }
}

/// The tracks of a playlist's track list, and the ids of the stubs (entries
/// with no title, only an id) to fetch in full.
pub open spec fn split_tracks(list: Seq<Json>) -> (Seq<SoundCloudTrackView>, Seq<u64>)
    decreases list.len(),
{
    if list.len() == 0 {
        (Seq::empty(), Seq::empty())
    } else {
        let (ts, ids) = split_tracks(list.drop_last());
        let it = list.last();
        if json_get(Some(it), "title"@) is Some {
            (ts.push(track_of(it)), ids)
        } else {
            match json_unsigned(json_get(Some(it), "id"@)) {
                Some(id) => (ts, ids.push(id)),
                None => (ts, ids),
            }
        }
    }
}

/// What a resolved link says: not a playlist, or the playlist's name (or
/// "SoundCloud Playlist"), its full tracks and its stubs' ids.
pub open spec fn resolved_playlist(response: Json) -> Result<(Seq<char>, Seq<SoundCloudTrackView>, Seq<u64>), Seq<char>> {
    if json_text(json_get(Some(response), "kind"@)) != Some("playlist"@) {
        Err("that link doesn't point to a playlist"@)
    } else {
        let list = match json_items(json_get(Some(response), "tracks"@)) {
            Some(l) => l,
            None => Seq::empty(),
        };
        let (ts, ids) = split_tracks(list);
        Ok((text_or(json_text(json_get(Some(response), "title"@)), "SoundCloud Playlist"@), ts, ids))
    }
}

/// The playlist a resolved link stands for (see `resolved_playlist`).
pub fn playlist_from(response: &Json) -> (r: Result<(String, Vec<SoundCloudTrack>, Vec<u64>), String>)
    ensures
        match (r, resolved_playlist(*response)) {
            (Ok((n, ts, ids)), Ok((m, us, jds))) => n@ == m && sc_tracks_view(ts@) == us && ids@ == jds,
            (Err(e), Err(f)) => e@ == f,
            _ => false,
        },
{
    let kind_ok = match crate::json::text(get(Some(response), "kind")) {
        Some(k) => same_text(k.as_str(), "playlist"),
        None => false,
    };
    proof {
        reveal_strlit("playlist");
    }
    if !kind_ok {
        return Err(owned("that link doesn't point to a playlist"));
    }
    let name = text_or_default(get(Some(response), "title"), "SoundCloud Playlist");
    let mut tracks: Vec<SoundCloudTrack> = Vec::new();
    let mut ids: Vec<u64> = Vec::new();
    let empty: Vec<Json> = Vec::new();
    let list = match items(get(Some(response), "tracks")) {
        Some(l) => l,
        None => &empty,
    };
    assert(list@.take(0) =~= Seq::<Json>::empty());
    assert(sc_tracks_view(tracks@) =~= Seq::<SoundCloudTrackView>::empty());
    for i in 0..list.len()
        invariant
            ({
                let (ts, js) = split_tracks(list@.take(i as int));
                sc_tracks_view(tracks@) == ts && ids@ == js
            }),
    {
        assert(list@.take(i + 1).drop_last() =~= list@.take(i as int));
        assert(list@.take(i + 1).last() == list@[i as int]);
        let it = &list[i];
        if get(Some(it), "title").is_some() {
            let t = parse_track(it);
            let ghost before = sc_tracks_view(tracks@);
            tracks.push(t);
            assert(sc_tracks_view(tracks@) =~= before.push(t@));
        } else if let Some(id) = unsigned(get(Some(it), "id")) {
            ids.push(id);
        }
    }
    assert(list@.take(list.len() as int) =~= list@);
    Ok((name, tracks, ids))
}

/// How many stubs one request fetches at most.
pub const STUB_BATCH: usize = 50;

/// Where the batch of stubs after the one starting at `start` starts, among
/// `n` stubs: fifty further on, or at the end.
pub open spec fn next_batch_start(start: int, n: int) -> int {
    if start + STUB_BATCH < n {
        start + STUB_BATCH
    } else {
        n
    }
}

/// The ids of the batch of stubs that starts at `start`: at most fifty.
pub open spec fn batch_ids(stubs: Seq<u64>, start: int) -> Seq<u64> {
    stubs.subrange(start, next_batch_start(start, stubs.len() as int))
}

/// The address that fetches the tracks with ids `ids`.
pub open spec fn batch_url(client_id: Seq<char>, ids: Seq<u64>) -> Seq<char> {
    "https://api-v2.soundcloud.com/tracks?ids="@ + joined(ids.map_values(|i: u64| decimal(i as nat)), ","@)
        + "&client_id="@ + client_id
}

/// The address that resolves a playlist link (trimmed and percent-encoded).
pub open spec fn resolve_url(client_id: Seq<char>, link: Seq<char>) -> Seq<char> {
    "https://api-v2.soundcloud.com/resolve?url="@ + percent_encoded(vstd::utf8::encode_utf8(trimmed(link)))
        + "&client_id="@ + client_id
}

/// The tracks of a batch answer: every element read as a track when the answer
/// is a list, none otherwise.
pub open spec fn batch_tracks_of(response: Json) -> Seq<SoundCloudTrackView> {
    match json_items(Some(response)) {
        Some(list) => list.map_values(|t: Json| track_of(t)),
        None => Seq::empty(),
    }
}

// ---------------------------------------------------------------------------
// Reading a playlist

/// A request the playlist reading asks the shell to make.
#[derive(Debug)]
pub enum SoundCloudCall {
    /// GET `url` as text, then call `on_home` or `on_script`.
    GetText { url: String },
    /// GET `url` as JSON, then call `on_resolve` or `on_batch`.
    GetJson { url: String },
}

/// How a text GET ended.
#[derive(Debug)]
pub enum TextReply {
    Body(String),
    Failed(String),
    BadBody(String),
}

/// What the reading does next.
#[derive(Debug)]
pub enum SoundCloudStep {
    Call(SoundCloudCall),
    Done(Result<FetchResult, String>),
}

/// The view of a step: the address to GET (as text or as JSON), or the name
/// and tracks read, or the error.
pub open spec fn sc_step_view(st: SoundCloudStep) -> Result<(bool, Seq<char>), Result<(Seq<char>, Seq<SoundCloudTrackView>), Seq<char>>> {
    match st {
        SoundCloudStep::Call(SoundCloudCall::GetText { url }) => Ok((false, url@)),
        SoundCloudStep::Call(SoundCloudCall::GetJson { url }) => Ok((true, url@)),
        SoundCloudStep::Done(Ok(r)) => Err(Ok((r.name@, sc_tracks_view(r.tracks@)))),
        SoundCloudStep::Done(Err(e)) => Err(Err(e@)),
    }
}

/// Reading a public SoundCloud playlist.
#[derive(Debug)]
pub struct SoundCloudFetch {
    pub link: String,
    pub scripts: Vec<String>,
    /// The script asked for.
    pub script_index: usize,
    pub client_id: String,
    pub name: String,
    pub tracks: Vec<SoundCloudTrack>,
    pub stubs: Vec<u64>,
    /// Where the next batch of stubs starts.
    pub batch_start: usize,
}

/// The error when no script of the web player sets a client id.
pub open spec fn no_client_id() -> Seq<char> {
    "could not find a public client_id on soundcloud.com (their site may have changed)"@
}

impl SoundCloudFetch {
    fn ask_script(&self, i: usize) -> (st: SoundCloudStep)
        ensures
            i < self.scripts.len() ==> sc_step_view(st) == Ok::<(bool, Seq<char>), Result<(Seq<char>, Seq<SoundCloudTrackView>), Seq<char>>>((false, self.scripts@[i as int]@)),
            i >= self.scripts.len() ==> sc_step_view(st) == Err::<(bool, Seq<char>), Result<(Seq<char>, Seq<SoundCloudTrackView>), Seq<char>>>(Err(no_client_id())),
    {
        if i < self.scripts.len() {
            SoundCloudStep::Call(SoundCloudCall::GetText { url: self.scripts[i].clone() })
        } else {
            SoundCloudStep::Done(Err(owned("could not find a public client_id on soundcloud.com (their site may have changed)")))
        }
    }

    /// Takes the home page: its first script is asked for next.
    pub fn on_home(&mut self, reply: TextReply) -> (st: SoundCloudStep)
        ensures
            match reply {
                TextReply::Body(html) => seq_strings(final(self).scripts@) == scripts_in(html@) && final(self).script_index == 0
                    && (scripts_in(html@).len() > 0 ==> sc_step_view(st) == Ok::<(bool, Seq<char>), Result<(Seq<char>, Seq<SoundCloudTrackView>), Seq<char>>>((false, scripts_in(html@)[0])))
                    && (scripts_in(html@).len() == 0 ==> sc_step_view(st) == Err::<(bool, Seq<char>), Result<(Seq<char>, Seq<SoundCloudTrackView>), Seq<char>>>(Err(no_client_id()))),
                TextReply::Failed(e) => sc_step_view(st) == Err::<(bool, Seq<char>), Result<(Seq<char>, Seq<SoundCloudTrackView>), Seq<char>>>(Err("could not reach soundcloud.com: "@ + e@)),
                TextReply::BadBody(e) => sc_step_view(st) == Err::<(bool, Seq<char>), Result<(Seq<char>, Seq<SoundCloudTrackView>), Seq<char>>>(Err("bad response: "@ + e@)),
            },
            final(self).link == old(self).link,
            final(self).client_id == old(self).client_id,
    {
        match reply {
            TextReply::Body(html) => {
                self.scripts = script_urls(html.as_str());
                self.script_index = 0;
                self.ask_script(0)
            },
            TextReply::Failed(e) => SoundCloudStep::Done(Err(join2("could not reach soundcloud.com: ", e.as_str()))),
            TextReply::BadBody(e) => SoundCloudStep::Done(Err(join2("bad response: ", e.as_str()))),
        }
    }

    /// Takes a script: when it sets a client id, the link is resolved with it;
    /// otherwise (or when the script could not be read) the next script is
    /// asked for.
    pub fn on_script(&mut self, reply: TextReply) -> (st: SoundCloudStep)
        requires
            old(self).script_index < usize::MAX,
        ensures
            match reply {
                TextReply::Body(js) => match client_id_of(js@) {
                    Some(id) => final(self).client_id@ == id && sc_step_view(st) == Ok::<(bool, Seq<char>), Result<(Seq<char>, Seq<SoundCloudTrackView>), Seq<char>>>((true, resolve_url(id, old(self).link@))),
                    None => final(self).script_index == old(self).script_index + 1 && final(self).client_id == old(self).client_id,
                },
                _ => final(self).script_index == old(self).script_index + 1 && final(self).client_id == old(self).client_id,
            },
            final(self).script_index == old(self).script_index + 1 ==> {
                &&& final(self).scripts == old(self).scripts
                &&& (final(self).script_index < final(self).scripts.len() ==> sc_step_view(st) == Ok::<(bool, Seq<char>), Result<(Seq<char>, Seq<SoundCloudTrackView>), Seq<char>>>((false, final(self).scripts@[final(self).script_index as int]@)))
                &&& (final(self).script_index >= final(self).scripts.len() ==> sc_step_view(st) == Err::<(bool, Seq<char>), Result<(Seq<char>, Seq<SoundCloudTrackView>), Seq<char>>>(Err(no_client_id())))
            },
            final(self).link == old(self).link,
    {
        if let TextReply::Body(js) = &reply {
            if let Some(id) = client_id_in(js.as_str()) {
                let link = trim(self.link.as_str());
                let encoded = percent_encode(link.as_str());
                let url = join3("https://api-v2.soundcloud.com/resolve?url=", encoded.as_str(), "&client_id=");
                let url = join2(url.as_str(), id.as_str());
                assert(url@ =~= resolve_url(id@, self.link@));
                self.client_id = id;
                return SoundCloudStep::Call(SoundCloudCall::GetJson { url });
            }
        }
        self.script_index = self.script_index + 1;
        self.ask_script(self.script_index)
    }

    fn ask_batch(&mut self) -> (st: SoundCloudStep)
        ensures
            final(self).batch_start == old(self).batch_start,
            final(self).client_id == old(self).client_id,
            final(self).stubs == old(self).stubs,
            final(self).name == old(self).name,
            old(self).batch_start < old(self).stubs.len() ==> final(self).tracks == old(self).tracks,
            old(self).batch_start < old(self).stubs.len() ==> sc_step_view(st) == Ok::<(bool, Seq<char>), Result<(Seq<char>, Seq<SoundCloudTrackView>), Seq<char>>>((
                true,
                batch_url(old(self).client_id@, batch_ids(old(self).stubs@, old(self).batch_start as int)),
            )),
            final(self).link == old(self).link,
            final(self).scripts == old(self).scripts,
            final(self).script_index == old(self).script_index,
            old(self).batch_start >= old(self).stubs.len() ==> sc_step_view(st) == Err::<(bool, Seq<char>), Result<(Seq<char>, Seq<SoundCloudTrackView>), Seq<char>>>(Ok((old(self).name@, sc_tracks_view(old(self).tracks@)))),
    {
        let n = self.stubs.len();
        if self.batch_start >= n {
            let mut tracks: Vec<SoundCloudTrack> = Vec::new();
            std::mem::swap(&mut tracks, &mut self.tracks);
            return SoundCloudStep::Done(Ok(FetchResult { name: self.name.clone(), tracks }));
        }
        let end = if n >= STUB_BATCH && self.batch_start < n - STUB_BATCH { self.batch_start + STUB_BATCH } else { n };
        let mut parts: Vec<String> = Vec::new();
        let ghost ids = self.stubs@.subrange(self.batch_start as int, end as int);
        let mut i = self.batch_start;
        while i < end
            invariant
                self.batch_start <= i <= end <= n,
                n == self.stubs.len(),
                ids == self.stubs@.subrange(self.batch_start as int, end as int),
                seq_strings(parts@) == ids.take(i - self.batch_start).map_values(|k: u64| decimal(k as nat)),
            decreases end - i,
        {
            let ghost before = seq_strings(parts@);
            parts.push(decimal_string(self.stubs[i]));
            assert(ids[i - self.batch_start] == self.stubs@[i as int]);
            assert(seq_strings(parts@) =~= before.push(decimal(self.stubs@[i as int] as nat)));
            assert(ids.take(i + 1 - self.batch_start).map_values(|k: u64| decimal(k as nat)) =~= ids.take(
                i - self.batch_start,
            ).map_values(|k: u64| decimal(k as nat)).push(decimal(self.stubs@[i as int] as nat)));
            assert(ids.take(i + 1 - self.batch_start) =~= ids.take(i - self.batch_start).push(self.stubs@[i as int]));
            assert(seq_strings(parts@) =~= ids.take(i + 1 - self.batch_start).map_values(|k: u64| decimal(k as nat)));
            i = i + 1;
        }
        assert(ids.take(end - self.batch_start) =~= ids);
        let joined_ids = join(&parts, ",");
        let url = join3("https://api-v2.soundcloud.com/tracks?ids=", joined_ids.as_str(), "&client_id=");
        let url = join2(url.as_str(), self.client_id.as_str());
        SoundCloudStep::Call(SoundCloudCall::GetJson { url })
    }

    /// Takes the resolved link: a link that is not a playlist is an error;
    /// else its tracks are kept and its stubs are fetched, a batch at a time.
    pub fn on_resolve(&mut self, reply: HttpReply) -> (st: SoundCloudStep)
        ensures
            match reply {
                HttpReply::Body(j) => match resolved_playlist(j) {
                    Ok((n, ts, ids)) => final(self).name@ == n && final(self).stubs@ == ids && final(self).batch_start == 0
                        && (ids.len() == 0 ==> sc_step_view(st) == Err::<(bool, Seq<char>), Result<(Seq<char>, Seq<SoundCloudTrackView>), Seq<char>>>(Ok((n, ts))))
                        && (ids.len() > 0 ==> sc_tracks_view(final(self).tracks@) == ts && sc_step_view(st) == Ok::<(bool, Seq<char>), Result<(Seq<char>, Seq<SoundCloudTrackView>), Seq<char>>>((true, batch_url(old(self).client_id@, batch_ids(ids, 0))))),
                    Err(e) => sc_step_view(st) == Err::<(bool, Seq<char>), Result<(Seq<char>, Seq<SoundCloudTrackView>), Seq<char>>>(Err(e)),
                },
                HttpReply::Failed(e) => sc_step_view(st) == Err::<(bool, Seq<char>), Result<(Seq<char>, Seq<SoundCloudTrackView>), Seq<char>>>(Err("could not resolve that link: "@ + e@)),
                HttpReply::BadBody(e) => sc_step_view(st) == Err::<(bool, Seq<char>), Result<(Seq<char>, Seq<SoundCloudTrackView>), Seq<char>>>(Err("bad response: "@ + e@)),
            },
            final(self).client_id == old(self).client_id,
            final(self).link == old(self).link,
            final(self).scripts == old(self).scripts,
            final(self).script_index == old(self).script_index,
    {
        match reply {
            HttpReply::Body(j) => match playlist_from(&j) {
                Ok((name, tracks, ids)) => {
                    self.name = name;
                    self.tracks = tracks;
                    self.stubs = ids;
                    self.batch_start = 0;
                    self.ask_batch()
                },
                Err(e) => SoundCloudStep::Done(Err(e)),
            },
            HttpReply::Failed(e) => SoundCloudStep::Done(Err(join2("could not resolve that link: ", e.as_str()))),
            HttpReply::BadBody(e) => SoundCloudStep::Done(Err(join2("bad response: ", e.as_str()))),
        }
    }

    /// Takes a batch of stubs in full (a failed batch adds nothing), and asks
    /// for the next batch, or ends the reading.
    pub fn on_batch(&mut self, reply: HttpReply) -> (st: SoundCloudStep)
        requires
            old(self).batch_start < old(self).stubs.len(),
        ensures
            final(self).stubs == old(self).stubs,
            final(self).batch_start == next_batch_start(old(self).batch_start as int, old(self).stubs.len() as int),
            final(self).client_id == old(self).client_id,
            final(self).name == old(self).name,
            final(self).link == old(self).link,
            final(self).scripts == old(self).scripts,
            final(self).script_index == old(self).script_index,
            final(self).batch_start < final(self).stubs.len() ==> sc_step_view(st) == Ok::<(bool, Seq<char>), Result<(Seq<char>, Seq<SoundCloudTrackView>), Seq<char>>>((
                true,
                batch_url(old(self).client_id@, batch_ids(final(self).stubs@, final(self).batch_start as int)),
            )),
            match reply {
                HttpReply::Body(j) => {
                    &&& final(self).batch_start >= final(self).stubs.len() ==> sc_step_view(st) == Err::<(bool, Seq<char>), Result<(Seq<char>, Seq<SoundCloudTrackView>), Seq<char>>>(Ok((old(self).name@, sc_tracks_view(old(self).tracks@) + batch_tracks_of(j))))
                    &&& final(self).batch_start < final(self).stubs.len() ==> sc_tracks_view(final(self).tracks@) == sc_tracks_view(old(self).tracks@) + batch_tracks_of(j)
                },
                _ => {
                    &&& final(self).batch_start >= final(self).stubs.len() ==> sc_step_view(st) == Err::<(bool, Seq<char>), Result<(Seq<char>, Seq<SoundCloudTrackView>), Seq<char>>>(Ok((old(self).name@, sc_tracks_view(old(self).tracks@))))
                    &&& final(self).batch_start < final(self).stubs.len() ==> final(self).tracks == old(self).tracks
                },
            },
    {
        if let HttpReply::Body(j) = &reply {
            if let Some(list) = items(Some(j)) {
                let ghost start = sc_tracks_view(self.tracks@);
                for i in 0..list.len()
                    invariant
                        sc_tracks_view(self.tracks@) == start + list@.take(i as int).map_values(|t: Json| track_of(t)),
                        self.stubs == old(self).stubs,
                        self.batch_start == old(self).batch_start,
                        self.name == old(self).name,
                        self.client_id == old(self).client_id,
                        self.link == old(self).link,
                        self.scripts == old(self).scripts,
                        self.script_index == old(self).script_index,
                {
                    let t = parse_track(&list[i]);
                    let ghost before = sc_tracks_view(self.tracks@);
                    self.tracks.push(t);
                    assert(sc_tracks_view(self.tracks@) =~= before.push(t@));
                    assert(list@.take(i + 1).map_values(|t: Json| track_of(t)) =~= list@.take(i as int).map_values(|t: Json| track_of(t)).push(track_of(list@[i as int])));
                }
                assert(list@.take(list.len() as int) =~= list@);
            } else {
                assert(sc_tracks_view(self.tracks@) =~= sc_tracks_view(old(self).tracks@) + Seq::<SoundCloudTrackView>::empty());
            }
        }
        let n = self.stubs.len();
        self.batch_start = if n >= STUB_BATCH && self.batch_start < n - STUB_BATCH {
            self.batch_start + STUB_BATCH
        } else {
            n
        };
        self.ask_batch()
    }
}

/// Starts reading the public SoundCloud playlist at `playlist_link`: the home
/// page of soundcloud.com is asked for first, for the scripts that carry a
/// client id.
pub fn fetch_public_playlist(playlist_link: &str) -> (r: (SoundCloudFetch, SoundCloudCall))
    ensures
        r.0.link@ == playlist_link@,
        r.0.scripts@.len() == 0,
        r.0.tracks@.len() == 0,
        r.0.stubs@.len() == 0,
        r.0.script_index == 0,
        r.0.batch_start == 0,
        r.0.client_id@.len() == 0,
        r.0.name@.len() == 0,
        match r.1 {
            SoundCloudCall::GetText { url } => url@ == "https://soundcloud.com/"@,
            _ => false,
        },
{
    let f = SoundCloudFetch {
        link: owned(playlist_link),
        scripts: Vec::new(),
        script_index: 0,
        client_id: String::new(),
        name: String::new(),
        tracks: Vec::new(),
        stubs: Vec::new(),
        batch_start: 0,
    };
    (f, SoundCloudCall::GetText { url: owned("https://soundcloud.com/") })
}

} // verus!
