//! Spotify and SoundCloud: links, answers and the reading machines.

use base64::Engine;
use ratcrate::json::{Json, JsonNumber};
use ratcrate::soundcloud::{client_id_in, fetch_public_playlist, parse_track, playlist_from, script_urls, SoundCloudCall, SoundCloudStep, TextReply};
use ratcrate::spotify::{
    callback_code, callback_reply, extract_playlist_id, fetch_playlist, login_start, login_tokens, page_tracks,
    playlist_name, refresh_form, refreshed_tokens, token_exchange_form, HttpReply, SpotifyCall, SpotifyStep,
};
use sha2::Digest;

fn obj(pairs: Vec<(&str, Json)>) -> Json {
    Json::Object(pairs.into_iter().map(|(k, v)| (k.to_string(), v)).collect())
}

fn string(s: &str) -> Json {
    Json::Str(s.to_string())
}

fn number(n: u64) -> Json {
    Json::Number(JsonNumber { text: n.to_string(), unsigned: Some(n) })
}

#[test]
fn spotify_playlist_ids_from_links() {
    assert_eq!(extract_playlist_id(" https://open.spotify.com/playlist/37i9?si=x "), Some("37i9".to_string()));
    assert_eq!(extract_playlist_id("spotify:playlist:abc"), Some("abc".to_string()));
    assert_eq!(extract_playlist_id("https://open.spotify.com/playlist/a#b"), Some("a".to_string()));
    assert_eq!(extract_playlist_id("https://open.spotify.com/playlist/one/playlist/two"), Some("one".to_string()));
    assert_eq!(extract_playlist_id("https://open.spotify.com/album/x"), None);
    assert_eq!(extract_playlist_id("https://open.spotify.com/playlist/?x"), None);
}

#[test]
fn login_start_builds_the_consent_page() {
    let start = login_start("client");
    assert_eq!(start.verifier.len(), 86);
    assert!(start.verifier.chars().all(|c| c.is_ascii_alphanumeric() || c == '-' || c == '_'));
    assert!(start.auth_url.starts_with("https://accounts.spotify.com/authorize?client_id=client&response_type=code&redirect_uri=http%3A%2F%2F127.0.0.1%3A8888%2Fcallback&code_challenge_method=S256&code_challenge="));
    assert!(start.auth_url.ends_with("&scope=playlist-read-private%20playlist-read-collaborative&show_dialog=true"));
    let other = login_start("client");
    assert_ne!(start.verifier, other.verifier);

    let challenge = start.auth_url.split("&code_challenge=").nth(1).and_then(|rest| rest.split('&').next()).expect("challenge");
    let digest = sha2::Sha256::digest(start.verifier.as_bytes());
    let expected = base64::engine::general_purpose::URL_SAFE_NO_PAD.encode(digest);
    assert_eq!(challenge, expected);
    assert_eq!(challenge.len(), 43);
}

#[test]
fn callback_code_is_read_from_the_request_line() {
    assert_eq!(callback_code("GET /callback?state=1&code=XYZ HTTP/1.1\r\n"), Ok("XYZ".to_string()));
    assert_eq!(callback_code("GET /callback?code=&x=1 HTTP/1.1"), Ok(String::new()));
    assert_eq!(callback_code("GET"), Err("malformed callback request".to_string()));
    assert_eq!(
        callback_code("GET /callback?error=access_denied HTTP/1.1"),
        Err("no authorization code in callback \u{2014} did you cancel the login?".to_string())
    );
    assert!(callback_reply().starts_with("HTTP/1.1 200 OK\r\nContent-Type: text/html\r\nContent-Length: 83\r\n\r\n<html>"));
}

#[test]
fn spotify_token_answers_and_forms() {
    let both = obj(vec![("access_token", string("a")), ("refresh_token", string("r"))]);
    assert_eq!(login_tokens(&both), Ok(("a".to_string(), "r".to_string())));
    assert_eq!(login_tokens(&obj(vec![("access_token", string("a"))])), Err("no refresh_token in response".to_string()));
    assert_eq!(login_tokens(&obj(vec![])), Err("no access_token in response".to_string()));
    assert_eq!(refreshed_tokens(&obj(vec![("access_token", string("a"))]), "old"), Ok(("a".to_string(), "old".to_string())));
    assert_eq!(refreshed_tokens(&obj(vec![]), "old"), Err("no access_token in refresh response".to_string()));
    let form = token_exchange_form("C", "id", "v");
    assert_eq!(form[2], ("redirect_uri".to_string(), "http://127.0.0.1:8888/callback".to_string()));
    assert_eq!(refresh_form("r", "id")[0], ("grant_type".to_string(), "refresh_token".to_string()));
}

fn spotify_item(name: &str, artists: Vec<&str>, ms: u64) -> Json {
    obj(vec![(
        "track",
        obj(vec![
            ("name", string(name)),
            ("artists", Json::Array(artists.into_iter().map(|a| obj(vec![("name", string(a))])).collect())),
            ("album", obj(vec![("name", string("LP"))])),
            ("duration_ms", number(ms)),
        ]),
    )])
}

#[test]
fn spotify_pages_list_tracks() {
    let page = obj(vec![
        ("items", Json::Array(vec![spotify_item("One", vec!["A", "B"], 61999), obj(vec![("track", Json::Null)]), obj(vec![("track", obj(vec![]))])])),
        ("next", string("https://api.spotify.com/next")),
    ]);
    let (tracks, next) = page_tracks(&page);
    assert_eq!(tracks.len(), 2);
    assert_eq!(tracks[0].title, "One");
    assert_eq!(tracks[0].artist, "A, B");
    assert_eq!(tracks[0].album, "LP");
    assert_eq!(tracks[0].duration_secs, 61);
    assert_eq!(tracks[1].title, "Unknown track");
    assert_eq!(tracks[1].artist, "");
    assert_eq!(next, Some("https://api.spotify.com/next".to_string()));
    assert_eq!(playlist_name(&obj(vec![])), "Spotify Playlist");
}

#[test]
fn spotify_reading_renews_then_pages() {
    assert!(fetch_playlist("id", None, "https://open.spotify.com/album/x").is_err());
    let (mut f, call) = fetch_playlist("id", Some("stored"), "https://open.spotify.com/playlist/P").expect("an id");
    assert!(matches!(call, SpotifyCall::Refresh { .. }));
    assert!(matches!(f.on_refresh(Err("refresh failed".to_string())), SpotifyStep::Call(SpotifyCall::Login { .. })));
    match f.on_login(Ok(("acc".to_string(), "ref".to_string()))) {
        SpotifyStep::Call(SpotifyCall::Get { url, access_token }) => {
            assert_eq!(url, "https://api.spotify.com/v1/playlists/P?fields=name");
            assert_eq!(access_token, "acc");
        }
        other => panic!("unexpected {other:?}"),
    }
    match f.on_name(HttpReply::Body(obj(vec![("name", string("Road"))]))) {
        SpotifyStep::Call(SpotifyCall::Get { url, .. }) => assert_eq!(
            url,
            "https://api.spotify.com/v1/playlists/P/tracks?fields=next,items(track(name,duration_ms,artists(name),album(name)))&limit=50"
        ),
        other => panic!("unexpected {other:?}"),
    }
    let last = obj(vec![("items", Json::Array(vec![spotify_item("One", vec!["A"], 1000)])), ("next", Json::Null)]);
    match f.on_tracks(HttpReply::Body(last)) {
        SpotifyStep::Done(Ok(result)) => {
            assert_eq!(result.name, "Road");
            assert_eq!(result.tracks.len(), 1);
            assert_eq!(result.refresh_token, "ref");
        }
        other => panic!("unexpected {other:?}"),
    }
    match f.on_tracks(HttpReply::Failed("HTTP 500".to_string())) {
        SpotifyStep::Done(Err(e)) => assert_eq!(e, "could not fetch tracks: HTTP 500"),
        other => panic!("unexpected {other:?}"),
    }
}

#[test]
fn soundcloud_client_id_is_scraped() {
    let html = r#"<script src="https://a-v2.sndcdn.com/assets/0-a.js"></script><script src="https://x.com/y.js"></script><script src="https://a-v2.sndcdn.com/assets/1-b.js"></script>"#;
    assert_eq!(
        script_urls(html),
        vec!["https://a-v2.sndcdn.com/assets/0-a.js".to_string(), "https://a-v2.sndcdn.com/assets/1-b.js".to_string()]
    );
    assert!(script_urls("no scripts").is_empty());
    assert_eq!(client_id_in(r#"a={client_id:"abc123",x:1}"#), Some("abc123".to_string()));
    assert_eq!(client_id_in("nothing"), None);
}

#[test]
fn soundcloud_playlists_and_stubs() {
    let response = obj(vec![
        ("kind", string("playlist")),
        ("title", string("Set")),
        (
            "tracks",
            Json::Array(vec![
                obj(vec![("title", string("Full")), ("user", obj(vec![("username", string("dj"))])), ("duration", number(90500))]),
                obj(vec![("id", number(7))]),
                obj(vec![("title", Json::Null), ("id", number(8))]),
            ]),
        ),
    ]);
    let (name, tracks, stubs) = playlist_from(&response).expect("a playlist");
    assert_eq!(name, "Set");
    assert_eq!(tracks.len(), 2);
    assert_eq!((tracks[0].title.as_str(), tracks[0].artist.as_str(), tracks[0].duration_secs), ("Full", "dj", 90));
    assert_eq!(tracks[1].title, "Unknown track");
    assert_eq!(stubs, vec![7]);
    assert_eq!(playlist_from(&obj(vec![("kind", string("track"))])).err(), Some("that link doesn't point to a playlist".to_string()));
    assert_eq!(parse_track(&obj(vec![])).duration_secs, 0);
}

#[test]
fn soundcloud_reading_goes_script_by_script() {
    let (mut f, call) = fetch_public_playlist(" https://soundcloud.com/a/sets/b ");
    assert!(matches!(call, SoundCloudCall::GetText { .. }));
    let html = r#"src="https://a-v2.sndcdn.com/assets/0.js" src="https://a-v2.sndcdn.com/assets/1.js""#;
    match f.on_home(TextReply::Body(html.to_string())) {
        SoundCloudStep::Call(SoundCloudCall::GetText { url }) => assert_eq!(url, "https://a-v2.sndcdn.com/assets/0.js"),
        other => panic!("unexpected {other:?}"),
    }
    match f.on_script(TextReply::Failed("HTTP 404".to_string())) {
        SoundCloudStep::Call(SoundCloudCall::GetText { url }) => assert_eq!(url, "https://a-v2.sndcdn.com/assets/1.js"),
        other => panic!("unexpected {other:?}"),
    }
    match f.on_script(TextReply::Body("client_id:\"K\"".to_string())) {
        SoundCloudStep::Call(SoundCloudCall::GetJson { url }) => assert_eq!(
            url,
            "https://api-v2.soundcloud.com/resolve?url=https%3A%2F%2Fsoundcloud.com%2Fa%2Fsets%2Fb&client_id=K"
        ),
        other => panic!("unexpected {other:?}"),
    }
    let response = obj(vec![("kind", string("playlist")), ("tracks", Json::Array(vec![obj(vec![("id", number(5))]), obj(vec![("id", number(6))])]))]);
    match f.on_resolve(HttpReply::Body(response)) {
        SoundCloudStep::Call(SoundCloudCall::GetJson { url }) => {
            assert_eq!(url, "https://api-v2.soundcloud.com/tracks?ids=5,6&client_id=K")
        }
        other => panic!("unexpected {other:?}"),
    }
    let batch = Json::Array(vec![obj(vec![("title", string("Five"))]), obj(vec![("title", string("Six"))])]);
    match f.on_batch(HttpReply::Body(batch)) {
        SoundCloudStep::Done(Ok(result)) => {
            assert_eq!(result.name, "SoundCloud Playlist");
            let titles: Vec<&str> = result.tracks.iter().map(|t| t.title.as_str()).collect();
            assert_eq!(titles, vec!["Five", "Six"]);
        }
        other => panic!("unexpected {other:?}"),
    }
}
