//! Spotify: the PKCE login, and reading a playlist's name and tracks.
//!
//! The shell opens the browser, listens for the redirect and makes the
//! requests; this module builds what goes out and reads what comes back.

use base64::Engine;
use rand::RngCore;
use sha2::Digest;
use vstd::prelude::*;
use vstd::string::*;

use crate::json::{get, items, json_get, json_items, json_null, json_text, json_unsigned, text, text_or, text_or_default, unsigned, is_null, Json};
use crate::text::{join3, char_is_whitespace, is_whitespace_char, chars_of, decimal, join, join2, joined, occurs_at, owned, seq_strings, split_char, split_on, string_from, string_from_range, StrSeq};
use crate::urls::spotify_playlist_id;

verus! {

broadcast use vstd::string::group_string_axioms;

// ---------------------------------------------------------------------------
// Outside crates

/// The character of the URL-safe base64 alphabet (RFC 4648, section 5) for
/// the six-bit value `v`: `A`-`Z`, `a`-`z`, `0`-`9`, then `-` and `_`.
pub open spec fn base64_url_char(v: int) -> char {
    if v < 26 {
        (65 + v) as char
    } else if v < 52 {
        (97 + v - 26) as char
    } else if v < 62 {
        (48 + v - 52) as char
    } else if v == 62 {
        '-'
    } else {
        '_'
    }
}

/// The URL-safe base64 text, without padding, of some bytes: each group of
/// three bytes gives four characters of six bits each, most significant bits
/// first; a last group of one or two bytes gives two or three characters,
/// its missing bits taken as zero.
pub open spec fn base64_url(bytes: Seq<u8>) -> Seq<char>
    decreases bytes.len(),
{
    if bytes.len() == 0 {
        Seq::empty()
    } else if bytes.len() == 1 {
        let a = bytes[0] as int;
        seq![base64_url_char(a / 4), base64_url_char((a % 4) * 16)]
    } else if bytes.len() == 2 {
        let a = bytes[0] as int;
        let b = bytes[1] as int;
        seq![base64_url_char(a / 4), base64_url_char((a % 4) * 16 + b / 16), base64_url_char((b % 16) * 4)]
    } else {
        let a = bytes[0] as int;
        let b = bytes[1] as int;
        let d = bytes[2] as int;
        seq![
            base64_url_char(a / 4),
            base64_url_char((a % 4) * 16 + b / 16),
            base64_url_char((b % 16) * 4 + d / 64),
            base64_url_char(d % 64),
        ] + base64_url(bytes.skip(3))
    }
}

/// The characters of the URL-safe base64 alphabet.
pub open spec fn url_safe_char(c: char) -> bool {
    ('A' <= c <= 'Z') || ('a' <= c <= 'z') || ('0' <= c <= '9') || c == '-' || c == '_'
}

/// The length of unpadded base64 text for `n` bytes.
pub open spec fn unpadded_len(n: nat) -> nat {
    n / 3 * 4 + if n % 3 == 1 {
        2nat
    } else if n % 3 == 2 {
        3nat
    } else {
        0nat
    }
}

/// `base64::engine::general_purpose::URL_SAFE_NO_PAD.encode`: the bytes as
/// URL-safe base64 without padding, of the unpadded length, in the URL-safe
/// alphabet.
#[verifier::external_body]
fn encode_base64_url(bytes: &[u8]) -> (r: String)
    requires
        bytes@.len() / 3 * 4 + 4 <= usize::MAX,
    ensures
        r@ == base64_url(bytes@),
        r@.len() == unpadded_len(bytes@.len()),
        forall|i: int| 0 <= i < r@.len() ==> url_safe_char(#[trigger] r@[i]),
{
    base64::engine::general_purpose::URL_SAFE_NO_PAD.encode(bytes)
}

/// The SHA-256 digest of some bytes.
pub uninterp spec fn sha256_of(bytes: Seq<u8>) -> Seq<u8>;

/// `sha2::Sha256::digest`: the 32-byte SHA-256 digest of `data`.
#[verifier::external_body]
fn sha256(data: &[u8]) -> (r: Vec<u8>)
    ensures
        r@ == sha256_of(data@),
        r@.len() == 32,
{
    sha2::Sha256::digest(data).to_vec()
}

/// `rand::thread_rng().fill_bytes`: `n` random bytes. Nothing is promised of
/// their values.
#[verifier::external_body]
fn random_bytes(n: usize) -> (r: Vec<u8>)
    ensures
        r@.len() == n,
{
    let mut bytes = vec![0u8; n];
    rand::thread_rng().fill_bytes(&mut bytes);
    bytes
}

// ---------------------------------------------------------------------------
// Links and the login

/// The id of a Spotify playlist link (`https://open.spotify.com/playlist/<id>`
/// or `spotify:playlist:<id>`).
pub fn extract_playlist_id(link: &str) -> (r: Option<String>)
    ensures
        match r {
            Some(id) => spotify_playlist_id(link@) == Some(id@),
            None => spotify_playlist_id(link@) is None,
        },
{
    crate::urls::spotify_extract_playlist_id(link)
}

/// Where Spotify sends the browser back after the login.
pub open spec fn redirect_uri() -> Seq<char> {
    "http://127.0.0.1:8888/callback"@
}

/// The address of the consent page for `client_id` and the PKCE `challenge`;
/// it asks for read access to private and collaborative playlists and always
/// shows the consent screen.
pub open spec fn authorize_url(client_id: Seq<char>, challenge: Seq<char>) -> Seq<char> {
    "https://accounts.spotify.com/authorize?client_id="@ + client_id
        + "&response_type=code&redirect_uri=http%3A%2F%2F127.0.0.1%3A8888%2Fcallback&code_challenge_method=S256&code_challenge="@
        + challenge + "&scope=playlist-read-private%20playlist-read-collaborative&show_dialog=true"@
}

/// The start of a login: the PKCE verifier, and the consent page to open.
#[derive(Debug)]
pub struct LoginStart {
    pub verifier: String,
    pub auth_url: String,
}

/// Starts a login for `client_id`: a verifier made of 64 random bytes in
/// URL-safe base64, and the consent page carrying its SHA-256 challenge.
pub fn login_start(client_id: &str) -> (r: LoginStart)
    ensures
        r.verifier@.len() == 86,
        exists|random: Seq<u8>| random.len() == 64 && r.verifier@ == base64_url(random),
        r.auth_url@ == authorize_url(client_id@, base64_url(sha256_of(vstd::utf8::encode_utf8(r.verifier@)))),
{
    let random = random_bytes(64);
    let verifier = encode_base64_url(random.as_slice());
    assert(unpadded_len(64) == 86);
    let digest = sha256(verifier.as_str().as_bytes());
    let challenge = encode_base64_url(digest.as_slice());
    let mut url = owned("https://accounts.spotify.com/authorize?client_id=");
    url.append(client_id);
    url.append(
        "&response_type=code&redirect_uri=http%3A%2F%2F127.0.0.1%3A8888%2Fcallback&code_challenge_method=S256&code_challenge=",
    );
    url.append(challenge.as_str());
    url.append("&scope=playlist-read-private%20playlist-read-collaborative&show_dialog=true");
    LoginStart { verifier, auth_url: url }
}

/// The form that trades the authorization `code` for tokens.
pub fn token_exchange_form(code: &str, client_id: &str, verifier: &str) -> (r: Vec<(String, String)>)
    ensures
        crate::tidal::pair_views(r@) == seq![
            ("grant_type"@, "authorization_code"@),
            ("code"@, code@),
            ("redirect_uri"@, redirect_uri()),
            ("client_id"@, client_id@),
            ("code_verifier"@, verifier@),
        ],
{
    let mut r: Vec<(String, String)> = Vec::new();
    r.push((owned("grant_type"), owned("authorization_code")));
    r.push((owned("code"), owned(code)));
    r.push((owned("redirect_uri"), owned("http://127.0.0.1:8888/callback")));
    r.push((owned("client_id"), owned(client_id)));
    r.push((owned("code_verifier"), owned(verifier)));
    assert(crate::tidal::pair_views(r@) =~= seq![
        ("grant_type"@, "authorization_code"@),
        ("code"@, code@),
        ("redirect_uri"@, redirect_uri()),
        ("client_id"@, client_id@),
        ("code_verifier"@, verifier@),
    ]);
    r
}

/// The form that renews an access token.
pub fn refresh_form(refresh_token: &str, client_id: &str) -> (r: Vec<(String, String)>)
    ensures
        crate::tidal::pair_views(r@) == seq![
            ("grant_type"@, "refresh_token"@),
            ("refresh_token"@, refresh_token@),
            ("client_id"@, client_id@),
        ],
{
    let mut r: Vec<(String, String)> = Vec::new();
    r.push((owned("grant_type"), owned("refresh_token")));
    r.push((owned("refresh_token"), owned(refresh_token)));
    r.push((owned("client_id"), owned(client_id)));
    assert(crate::tidal::pair_views(r@) =~= seq![
        ("grant_type"@, "refresh_token"@),
        ("refresh_token"@, refresh_token@),
        ("client_id"@, client_id@),
    ]);
    r
}

/// The words of a line so far, and whether its last character belongs to the
/// last word.
pub open spec fn word_split(s: Seq<char>) -> (StrSeq, bool)
    decreases s.len(),
{
    if s.len() == 0 {
        (Seq::empty(), false)
    } else {
        let (w, open) = word_split(s.drop_last());
        let c = s.last();
        if is_whitespace_char(c) {
            (w, false)
        } else if open {
            (w.update(w.len() - 1, w.last().push(c)), true)
        } else {
            (w.push(seq![c]), true)
        }
    }
}

/// The words of a line: its runs of characters other than whitespace
/// (`str::split_whitespace`).
pub open spec fn words(s: Seq<char>) -> StrSeq {
    word_split(s).0
}

/// The value of the first `code=` pair of a query string.
pub open spec fn code_param(pairs: StrSeq) -> Option<Seq<char>>
    decreases pairs.len(),
{
    if pairs.len() == 0 {
        None
    } else if occurs_at(pairs[0], "code="@, 0) {
        Some(pairs[0].skip(5))
    } else {
        code_param(pairs.drop_first())
    }
}

/// The authorization code in the first line of the redirect request
/// (`GET /callback?code=... HTTP/1.1`): the target is the second word, its
/// query what follows the first `?` (up to a second one), and the code the
/// value of the first `code=` pair.
pub open spec fn callback_result(request_line: Seq<char>) -> Result<Seq<char>, Seq<char>> {
    let w = words(request_line);
    if w.len() < 2 {
        Err("malformed callback request"@)
    } else {
        let parts = split_on(w[1], '?');
        let query = if parts.len() >= 2 {
            parts[1]
        } else {
            Seq::empty()
        };
        match code_param(split_on(query, '&')) {
            Some(code) => Ok(code),
            None => Err("no authorization code in callback \u{2014} did you cancel the login?"@),
        }
    }
}

proof fn lemma_word_split_open(s: Seq<char>)
    ensures
        word_split(s).1 ==> word_split(s).0.len() > 0,
    decreases s.len(),
{
    if s.len() > 0 {
        lemma_word_split_open(s.drop_last());
    }
}

fn split_words(line: &str) -> (r: Vec<Vec<char>>)
    ensures
        r@.map_values(|w: Vec<char>| w@) == words(line@),
{
    let v = chars_of(line);
    let mut r: Vec<Vec<char>> = Vec::new();
    let mut open = false;
    assert(v@.take(0) =~= Seq::<char>::empty());
    for i in 0..v.len()
        invariant
            v@ == line@,
            (r@.map_values(|w: Vec<char>| w@), open) == word_split(v@.take(i as int)),
    {
        assert(v@.take(i + 1).drop_last() =~= v@.take(i as int));
        assert(v@.take(i + 1).last() == v@[i as int]);
        proof {
            lemma_word_split_open(v@.take(i as int));
        }
        let c = v[i];
        let ghost before = r@.map_values(|w: Vec<char>| w@);
        if char_is_whitespace(c) {
            open = false;
        } else if open {
            let mut last = r.pop().unwrap();
            last.push(c);
            r.push(last);
            assert(r@.map_values(|w: Vec<char>| w@) =~= before.update(before.len() - 1, before.last().push(c)));
        } else {
            let mut w: Vec<char> = Vec::new();
            w.push(c);
            r.push(w);
            assert(r@.map_values(|w: Vec<char>| w@) =~= before.push(seq![c]));
            open = true;
        }
    }
    assert(v@.take(v.len() as int) =~= v@);
    r
}

/// The authorization code in the first line of the redirect request, or why
/// there is none.
pub fn callback_code(request_line: &str) -> (r: Result<String, String>)
    ensures
        match (r, callback_result(request_line@)) {
            (Ok(c), Ok(d)) => c@ == d,
            (Err(e), Err(f)) => e@ == f,
            _ => false,
        },
{
    let w = split_words(request_line);
    if w.len() < 2 {
        return Err(owned("malformed callback request"));
    }
    let target = string_from(&w[1]);
    assert(target@ == words(request_line@)[1]);
    let parts = split_char(target.as_str(), '?');
    let query = if parts.len() >= 2 {
        string_from(&parts[1])
    } else {
        String::new()
    };
    assert(query@ == (if split_on(target@, '?').len() >= 2 {
        split_on(target@, '?')[1]
    } else {
        Seq::<char>::empty()
    }));
    let pairs = split_char(query.as_str(), '&');
    let ghost ps = split_on(query@, '&');
    let prefix = chars_of("code=");
    proof {
        reveal_strlit("code=");
    }
    let mut i: usize = 0;
    assert(ps.skip(0) =~= ps);
    let ghost expected = callback_result(request_line@);
    assert(expected == match code_param(ps) {
        Some(code) => Ok(code),
        None => Err("no authorization code in callback \u{2014} did you cancel the login?"@),
    });
    while i < pairs.len()
        invariant
            i <= pairs.len(),
            pairs@.map_values(|p: Vec<char>| p@) == ps,
            prefix@ == "code="@,
            prefix@.len() == 5,
            expected == callback_result(request_line@),
            expected == match code_param(ps) {
                Some(code) => Ok(code),
                None => Err("no authorization code in callback \u{2014} did you cancel the login?"@),
            },
            code_param(ps) == code_param(ps.skip(i as int)),
        decreases pairs.len() - i,
    {
        assert(ps.skip(i as int).drop_first() =~= ps.skip(i + 1));
        assert(ps.skip(i as int)[0] == pairs@[i as int]@);
        if crate::text::matches_at(&pairs[i], &prefix, 0) {
            let n = pairs[i].len();
            let code = string_from_range(&pairs[i], 5, n);
            assert(code@ =~= pairs@[i as int]@.skip(5));
            return Ok(code);
        }
        i = i + 1;
    }
    Err(owned("no authorization code in callback \u{2014} did you cancel the login?"))
}

/// The page shown in the browser once the login is complete.
pub open spec fn callback_page() -> Seq<char> {
    "<html><body>RatCrate: Spotify login complete, you can close this tab.</body></html>"@
}

/// The HTTP response sent to the browser once the code is in.
pub fn callback_reply() -> (r: String)
    ensures
        r@ == "HTTP/1.1 200 OK\r\nContent-Type: text/html\r\nContent-Length: "@ + decimal(callback_page().len())
            + "\r\n\r\n"@ + callback_page(),
{
    let body = "<html><body>RatCrate: Spotify login complete, you can close this tab.</body></html>";
    proof {
        reveal_strlit("<html><body>RatCrate: Spotify login complete, you can close this tab.</body></html>");
    }
    let n = body.unicode_len();
    let len = crate::text::decimal_string(n as u64);
    let mut r = owned("HTTP/1.1 200 OK\r\nContent-Type: text/html\r\nContent-Length: ");
    r.append(len.as_str());
    r.append("\r\n\r\n");
    r.append(body);
    r
}

// ---------------------------------------------------------------------------
// Reading Spotify's answers

/// The tokens of a token answer: the access token and the refresh token, both required.
pub open spec fn login_tokens_of(response: Json) -> Result<(Seq<char>, Seq<char>), Seq<char>> {
    match json_text(json_get(Some(response), "access_token"@)) {
        None => Err("no access_token in response"@),
        Some(a) => match json_text(json_get(Some(response), "refresh_token"@)) {
            None => Err("no refresh_token in response"@),
            Some(r) => Ok((a, r)),
        },
    }
}

/// The tokens of a refresh answer: the access token is required; the refresh
/// token stays `old` unless a new one is given.
pub open spec fn refreshed_tokens_of(response: Json, old: Seq<char>) -> Result<(Seq<char>, Seq<char>), Seq<char>> {
    match json_text(json_get(Some(response), "access_token"@)) {
        None => Err("no access_token in refresh response"@),
        Some(a) => Ok((a, text_or(json_text(json_get(Some(response), "refresh_token"@)), old))),
    }
}

/// The (access, refresh) tokens of the answer to the code exchange.
pub fn login_tokens(response: &Json) -> (r: Result<(String, String), String>)
    ensures
        match (r, login_tokens_of(*response)) {
            (Ok((a, b)), Ok((c, d))) => a@ == c && b@ == d,
            (Err(e), Err(f)) => e@ == f,
            _ => false,
        },
{
    let access = match text(get(Some(response), "access_token")) {
        Some(a) => a,
        None => return Err(owned("no access_token in response")),
    };
    let refresh = match text(get(Some(response), "refresh_token")) {
        Some(r) => r,
        None => return Err(owned("no refresh_token in response")),
    };
    Ok((access, refresh))
}

/// The (access, refresh) tokens of the answer to a refresh.
pub fn refreshed_tokens(response: &Json, old_refresh: &str) -> (r: Result<(String, String), String>)
    ensures
        match (r, refreshed_tokens_of(*response, old_refresh@)) {
            (Ok((a, b)), Ok((c, d))) => a@ == c && b@ == d,
            (Err(e), Err(f)) => e@ == f,
            _ => false,
        },
{
    let access = match text(get(Some(response), "access_token")) {
        Some(a) => a,
        None => return Err(owned("no access_token in refresh response")),
    };
    let refresh = text_or_default(get(Some(response), "refresh_token"), old_refresh);
    Ok((access, refresh))
}

/// One track of a Spotify playlist.
#[derive(Debug, Clone)]
pub struct SpotifyTrack {
    pub title: String,
    pub artist: String,
    pub album: String,
    pub duration_secs: u64,
}

pub struct SpotifyTrackView {
    pub title: Seq<char>,
    pub artist: Seq<char>,
    pub album: Seq<char>,
    pub duration_secs: u64,
}

impl View for SpotifyTrack {
    type V = SpotifyTrackView;

    open spec fn view(&self) -> SpotifyTrackView {
        SpotifyTrackView { title: self.title@, artist: self.artist@, album: self.album@, duration_secs: self.duration_secs }
    }
}

pub open spec fn spotify_tracks_view(v: Seq<SpotifyTrack>) -> Seq<SpotifyTrackView> {
    v.map_values(|t: SpotifyTrack| t@)
}

/// A playlist read from Spotify, and the refresh token to keep.
#[derive(Debug)]
pub struct FetchResult {
    pub name: String,
    pub tracks: Vec<SpotifyTrack>,
    pub refresh_token: String,
}

/// The names of some artist entries, those that have one.
pub open spec fn artist_names(list: Seq<Json>) -> StrSeq
    decreases list.len(),
{
    if list.len() == 0 {
        Seq::empty()
    } else {
        match json_text(json_get(Some(list.last()), "name"@)) {
            Some(n) => artist_names(list.drop_last()).push(n),
            None => artist_names(list.drop_last()),
        }
    }
}

/// The track an item of a tracks page stands for: its name (or "Unknown
/// track"), its artists' names joined with ", ", its album's name, and its
/// duration in whole seconds.
pub open spec fn item_track(track: Option<Json>) -> SpotifyTrackView {
    SpotifyTrackView {
        title: text_or(json_text(json_get(track, "name"@)), "Unknown track"@),
        artist: match json_items(json_get(track, "artists"@)) {
            Some(list) => joined(artist_names(list), ", "@),
            None => Seq::empty(),
        },
        album: text_or(json_text(json_get(json_get(track, "album"@), "name"@)), Seq::empty()),
        duration_secs: (match json_unsigned(json_get(track, "duration_ms"@)) {
            Some(ms) => ms,
            None => 0,
        }) / 1000,
    }
}

/// The tracks of the items of a page; items without a track are skipped.
pub open spec fn items_tracks(list: Seq<Json>) -> Seq<SpotifyTrackView>
    decreases list.len(),
{
    if list.len() == 0 {
        Seq::empty()
    } else {
        let track = json_get(Some(list.last()), "track"@);
        if json_null(track) {
            items_tracks(list.drop_last())
        } else {
            items_tracks(list.drop_last()).push(item_track(track))
        }
    }
}

/// The tracks of a page of a playlist's tracks.
pub open spec fn page_tracks_of(response: Json) -> Seq<SpotifyTrackView> {
    match json_items(json_get(Some(response), "items"@)) {
        Some(list) => items_tracks(list),
        None => Seq::empty(),
    }
}

fn artists_joined(list: &Vec<Json>) -> (r: String)
    ensures
        r@ == joined(artist_names(list@), ", "@),
{
    let mut names: Vec<String> = Vec::new();
    assert(list@.take(0) =~= Seq::<Json>::empty());
    for i in 0..list.len()
        invariant
            seq_strings(names@) == artist_names(list@.take(i as int)),
    {
        assert(list@.take(i + 1).drop_last() =~= list@.take(i as int));
        assert(list@.take(i + 1).last() == list@[i as int]);
        if let Some(n) = text(get(Some(&list[i]), "name")) {
            let ghost before = seq_strings(names@);
            names.push(n);
            assert(seq_strings(names@) =~= before.push(n@));
        }
    }
    assert(list@.take(list.len() as int) =~= list@);
    join(&names, ", ")
}

fn track_of(track: Option<&Json>) -> (t: SpotifyTrack)
    ensures
        t@ == item_track(crate::json::deref(track)),
{
    let title = text_or_default(get(track, "name"), "Unknown track");
    let artist = match items(get(track, "artists")) {
        Some(list) => artists_joined(list),
        None => String::new(),
    };
    let album = text_or_default(get(get(track, "album"), "name"), "");
    proof {
        reveal_strlit("");
    }
    let ms = match unsigned(get(track, "duration_ms")) {
        Some(ms) => ms,
        None => 0,
    };
    let ghost t = crate::json::deref(track);
    assert(album@ == text_or(json_text(json_get(json_get(t, "album"@), "name"@)), Seq::empty()));
    assert(title@ == text_or(json_text(json_get(t, "name"@)), "Unknown track"@));
    SpotifyTrack { title, artist, album, duration_secs: ms / 1000 }
}

/// The tracks of a page of a playlist's tracks (items without a track are
/// skipped), and the address of the next page, if any.
pub fn page_tracks(response: &Json) -> (r: (Vec<SpotifyTrack>, Option<String>))
    ensures
        spotify_tracks_view(r.0@) == page_tracks_of(*response),
        crate::tracks::opt_view(r.1) == json_text(json_get(Some(*response), "next"@)),
{
    let next = text(get(Some(response), "next"));
    let mut tracks: Vec<SpotifyTrack> = Vec::new();
    let list = match items(get(Some(response), "items")) {
        Some(list) => list,
        None => {
            assert(spotify_tracks_view(tracks@) =~= Seq::<SpotifyTrackView>::empty());
            return (tracks, next);
        },
    };
    assert(list@.take(0) =~= Seq::<Json>::empty());
    assert(spotify_tracks_view(tracks@) =~= items_tracks(list@.take(0)));
    for i in 0..list.len()
        invariant
            json_items(json_get(Some(*response), "items"@)) == Some(list@),
            spotify_tracks_view(tracks@) == items_tracks(list@.take(i as int)),
    {
        assert(list@.take(i + 1).drop_last() =~= list@.take(i as int));
        assert(list@.take(i + 1).last() == list@[i as int]);
        let track = get(Some(&list[i]), "track");
        if !is_null(track) {
            let t = track_of(track);
            let ghost before = spotify_tracks_view(tracks@);
            tracks.push(t);
            assert(spotify_tracks_view(tracks@) =~= before.push(t@));
        }
    }
    assert(list@.take(list.len() as int) =~= list@);
    (tracks, next)
}

/// The name of a playlist answer, or "Spotify Playlist".
pub fn playlist_name(response: &Json) -> (r: String)
    ensures
        r@ == text_or(json_text(json_get(Some(*response), "name"@)), "Spotify Playlist"@),
{
    text_or_default(get(Some(response), "name"), "Spotify Playlist")
}

// ---------------------------------------------------------------------------
// Reading a playlist

/// A request the playlist reading asks the shell to make.
#[derive(Debug)]
pub enum SpotifyCall {
    /// Renew the session from a stored refresh token (`refresh_form`,
    /// `refreshed_tokens`), then call `on_refresh`.
    Refresh { client_id: String, refresh_token: String },
    /// Log in (`login_start`, the browser, `callback_code`,
    /// `token_exchange_form`, `login_tokens`), then call `on_login`.
    Login { client_id: String },
    /// GET `url` with the access token, then call `on_name` or `on_tracks`.
    Get { url: String, access_token: String },
}

pub enum SpotifyCallView {
    Refresh { client_id: Seq<char>, refresh_token: Seq<char> },
    Login { client_id: Seq<char> },
    Get { url: Seq<char>, access_token: Seq<char> },
}

impl View for SpotifyCall {
    type V = SpotifyCallView;

    open spec fn view(&self) -> SpotifyCallView {
        match self {
            SpotifyCall::Refresh { client_id, refresh_token } => SpotifyCallView::Refresh {
                client_id: client_id@,
                refresh_token: refresh_token@,
            },
            SpotifyCall::Login { client_id } => SpotifyCallView::Login { client_id: client_id@ },
            SpotifyCall::Get { url, access_token } => SpotifyCallView::Get { url: url@, access_token: access_token@ },
        }
    }
}

/// How a GET ended: with a JSON body, with a failed request (and how it
/// failed), or with a body that is not JSON (and why).
#[derive(Debug)]
pub enum HttpReply {
    Body(Json),
    Failed(String),
    BadBody(String),
}

/// Reading a Spotify playlist: the tokens in use, and what was read so far.
#[derive(Debug)]
pub struct SpotifyFetch {
    pub client_id: String,
    pub playlist_id: String,
    pub access_token: String,
    pub refresh_token: String,
    pub name: String,
    pub tracks: Vec<SpotifyTrack>,
}

pub struct SpotifyFetchView {
    pub client_id: Seq<char>,
    pub playlist_id: Seq<char>,
    pub access_token: Seq<char>,
    pub refresh_token: Seq<char>,
    pub name: Seq<char>,
    pub tracks: Seq<SpotifyTrackView>,
}

impl View for SpotifyFetch {
    type V = SpotifyFetchView;

    open spec fn view(&self) -> SpotifyFetchView {
        SpotifyFetchView {
            client_id: self.client_id@,
            playlist_id: self.playlist_id@,
            access_token: self.access_token@,
            refresh_token: self.refresh_token@,
            name: self.name@,
            tracks: spotify_tracks_view(self.tracks@),
        }
    }
}

/// What the reading does next.
#[derive(Debug)]
pub enum SpotifyStep {
    Call(SpotifyCall),
    Done(Result<FetchResult, String>),
}

/// The view of a step: the request, or the (name, tracks, refresh token) read,
/// or the error.
pub open spec fn spotify_step_view(st: SpotifyStep) -> Result<SpotifyCallView, Result<(Seq<char>, Seq<SpotifyTrackView>, Seq<char>), Seq<char>>> {
    match st {
        SpotifyStep::Call(c) => Ok(c@),
        SpotifyStep::Done(Ok(r)) => Err(Ok((r.name@, spotify_tracks_view(r.tracks@), r.refresh_token@))),
        SpotifyStep::Done(Err(e)) => Err(Err(e@)),
    }
}

/// The address of a playlist's name.
pub open spec fn name_url(id: Seq<char>) -> Seq<char> {
    "https://api.spotify.com/v1/playlists/"@ + id + "?fields=name"@
}

/// The address of the first page of a playlist's tracks (50 a page, with the
/// fields the tracks are read from).
pub open spec fn tracks_url(id: Seq<char>) -> Seq<char> {
    "https://api.spotify.com/v1/playlists/"@ + id
        + "/tracks?fields=next,items(track(name,duration_ms,artists(name),album(name)))&limit=50"@
}

impl SpotifyFetch {
    fn ask_name(&self) -> (st: SpotifyStep)
        ensures
            spotify_step_view(st) == Ok::<SpotifyCallView, Result<(Seq<char>, Seq<SpotifyTrackView>, Seq<char>), Seq<char>>>(
                SpotifyCallView::Get { url: name_url(self@.playlist_id), access_token: self@.access_token },
            ),
    {
        let url = join3("https://api.spotify.com/v1/playlists/", self.playlist_id.as_str(), "?fields=name");
        SpotifyStep::Call(SpotifyCall::Get { url, access_token: self.access_token.clone() })
    }

    /// Takes the outcome of renewing the session: on success the playlist's
    /// name is asked for, else a login is.
    pub fn on_refresh(&mut self, r: Result<(String, String), String>) -> (st: SpotifyStep)
        ensures
            match r {
                Ok((a, b)) => final(self)@ == (SpotifyFetchView { access_token: a@, refresh_token: b@, ..old(self)@ })
                    && spotify_step_view(st) == Ok::<SpotifyCallView, Result<(Seq<char>, Seq<SpotifyTrackView>, Seq<char>), Seq<char>>>(
                    SpotifyCallView::Get { url: name_url(old(self)@.playlist_id), access_token: a@ },
                ),
                Err(_) => final(self)@ == old(self)@
                    && spotify_step_view(st) == Ok::<SpotifyCallView, Result<(Seq<char>, Seq<SpotifyTrackView>, Seq<char>), Seq<char>>>(
                    SpotifyCallView::Login { client_id: old(self)@.client_id },
                ),
            },
    {
        match r {
            Ok((a, b)) => {
                self.access_token = a;
                self.refresh_token = b;
                self.ask_name()
            },
            Err(_) => SpotifyStep::Call(SpotifyCall::Login { client_id: self.client_id.clone() }),
        }
    }

    /// Takes the outcome of a login: on success the playlist's name is asked
    /// for, else the reading fails with the login's error.
    pub fn on_login(&mut self, r: Result<(String, String), String>) -> (st: SpotifyStep)
        ensures
            match r {
                Ok((a, b)) => final(self)@ == (SpotifyFetchView { access_token: a@, refresh_token: b@, ..old(self)@ })
                    && spotify_step_view(st) == Ok::<SpotifyCallView, Result<(Seq<char>, Seq<SpotifyTrackView>, Seq<char>), Seq<char>>>(
                    SpotifyCallView::Get { url: name_url(old(self)@.playlist_id), access_token: a@ },
                ),
                Err(e) => spotify_step_view(st) == Err::<SpotifyCallView, Result<(Seq<char>, Seq<SpotifyTrackView>, Seq<char>), Seq<char>>>(
                    Err(e@),
                ),
            },
    {
        match r {
            Ok((a, b)) => {
                self.access_token = a;
                self.refresh_token = b;
                self.ask_name()
            },
            Err(e) => SpotifyStep::Done(Err(e)),
        }
    }

    /// Takes the answer for the playlist's name (or "Spotify Playlist" when it
    /// has none); the first page of tracks is asked for next.
    pub fn on_name(&mut self, reply: HttpReply) -> (st: SpotifyStep)
        ensures
            match reply {
                HttpReply::Body(j) => final(self)@ == (SpotifyFetchView {
                    name: text_or(json_text(json_get(Some(j), "name"@)), "Spotify Playlist"@),
                    ..old(self)@
                }) && spotify_step_view(st) == Ok::<SpotifyCallView, Result<(Seq<char>, Seq<SpotifyTrackView>, Seq<char>), Seq<char>>>(
                    SpotifyCallView::Get { url: tracks_url(old(self)@.playlist_id), access_token: old(self)@.access_token },
                ),
                HttpReply::Failed(e) => spotify_step_view(st) == Err::<
                    SpotifyCallView,
                    Result<(Seq<char>, Seq<SpotifyTrackView>, Seq<char>), Seq<char>>,
                >(Err("could not fetch playlist: "@ + e@)),
                HttpReply::BadBody(e) => spotify_step_view(st) == Err::<
                    SpotifyCallView,
                    Result<(Seq<char>, Seq<SpotifyTrackView>, Seq<char>), Seq<char>>,
                >(Err("bad playlist response: "@ + e@)),
            },
    {
        match reply {
            HttpReply::Body(j) => {
                self.name = playlist_name(&j);
                let url = join3(
                    "https://api.spotify.com/v1/playlists/",
                    self.playlist_id.as_str(),
                    "/tracks?fields=next,items(track(name,duration_ms,artists(name),album(name)))&limit=50",
                );
                SpotifyStep::Call(SpotifyCall::Get { url, access_token: self.access_token.clone() })
            },
            HttpReply::Failed(e) => SpotifyStep::Done(Err(join2("could not fetch playlist: ", e.as_str()))),
            HttpReply::BadBody(e) => SpotifyStep::Done(Err(join2("bad playlist response: ", e.as_str()))),
        }
    }

    /// Takes a page of the playlist's tracks: its tracks are added, and the
    /// next page is asked for while there is one; the last page ends the
    /// reading with the name, the tracks and the refresh token.
    pub fn on_tracks(&mut self, reply: HttpReply) -> (st: SpotifyStep)
        ensures
            match reply {
                HttpReply::Body(j) => {
                    let s2 = SpotifyFetchView { tracks: old(self)@.tracks + page_tracks_of(j), ..old(self)@ };
                    match json_text(json_get(Some(j), "next"@)) {
                        Some(next) => final(self)@ == s2 && spotify_step_view(st) == Ok::<
                            SpotifyCallView,
                            Result<(Seq<char>, Seq<SpotifyTrackView>, Seq<char>), Seq<char>>,
                        >(SpotifyCallView::Get { url: next, access_token: old(self)@.access_token }),
                        None => spotify_step_view(st) == Err::<
                            SpotifyCallView,
                            Result<(Seq<char>, Seq<SpotifyTrackView>, Seq<char>), Seq<char>>,
                        >(Ok((s2.name, s2.tracks, s2.refresh_token))),
                    }
                },
                HttpReply::Failed(e) => spotify_step_view(st) == Err::<
                    SpotifyCallView,
                    Result<(Seq<char>, Seq<SpotifyTrackView>, Seq<char>), Seq<char>>,
                >(Err("could not fetch tracks: "@ + e@)),
                HttpReply::BadBody(e) => spotify_step_view(st) == Err::<
                    SpotifyCallView,
                    Result<(Seq<char>, Seq<SpotifyTrackView>, Seq<char>), Seq<char>>,
                >(Err("bad tracks response: "@ + e@)),
            },
    {
        match reply {
            HttpReply::Body(j) => {
                let (mut page, next) = page_tracks(&j);
                let ghost before = spotify_tracks_view(self.tracks@);
                let ghost added = spotify_tracks_view(page@);
                self.tracks.append(&mut page);
                assert(spotify_tracks_view(self.tracks@) =~= before + added);
                match next {
                    Some(url) => SpotifyStep::Call(SpotifyCall::Get { url, access_token: self.access_token.clone() }),
                    None => {
                        let mut tracks: Vec<SpotifyTrack> = Vec::new();
                        std::mem::swap(&mut tracks, &mut self.tracks);
                        SpotifyStep::Done(
                            Ok(FetchResult { name: self.name.clone(), tracks, refresh_token: self.refresh_token.clone() }),
                        )
                    },
                }
            },
            HttpReply::Failed(e) => SpotifyStep::Done(Err(join2("could not fetch tracks: ", e.as_str()))),
            HttpReply::BadBody(e) => SpotifyStep::Done(Err(join2("bad tracks response: ", e.as_str()))),
        }
    }
}

/// Starts reading the Spotify playlist at `playlist_link` for `client_id`:
/// an error when the link holds no playlist id; else the session is renewed
/// from `stored_refresh_token` when there is one, or a login is asked for.
pub fn fetch_playlist(client_id: &str, stored_refresh_token: Option<&str>, playlist_link: &str) -> (r: Result<
    (SpotifyFetch, SpotifyCall),
    String,
>)
    ensures
        match (r, spotify_playlist_id(playlist_link@)) {
            (Ok((f, c)), Some(id)) => f@ == (SpotifyFetchView {
                client_id: client_id@,
                playlist_id: id,
                access_token: Seq::empty(),
                refresh_token: Seq::empty(),
                name: Seq::empty(),
                tracks: Seq::empty(),
            }) && c@ == match stored_refresh_token {
                Some(t) => SpotifyCallView::Refresh { client_id: client_id@, refresh_token: t@ },
                None => SpotifyCallView::Login { client_id: client_id@ },
            },
            (Err(e), None) => e@ == "couldn't find a playlist id in that link"@,
            _ => false,
        },
{
    let id = match extract_playlist_id(playlist_link) {
        Some(id) => id,
        None => return Err(owned("couldn't find a playlist id in that link")),
    };
    let f = SpotifyFetch {
        client_id: owned(client_id),
        playlist_id: id,
        access_token: String::new(),
        refresh_token: String::new(),
        name: String::new(),
        tracks: Vec::new(),
    };
    assert(f@.tracks =~= Seq::<SpotifyTrackView>::empty());
    let call = match stored_refresh_token {
        Some(t) => SpotifyCall::Refresh { client_id: owned(client_id), refresh_token: owned(t) },
        None => SpotifyCall::Login { client_id: owned(client_id) },
    };
    Ok((f, call))
}

} // verus!
