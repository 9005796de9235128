//! Tidal: links, tool runs, traceback noise, and the search machines.

use ratcrate::json::{Json, JsonNumber};
use ratcrate::tidal::{
    artist_catalog, command_echo, download_playlist_via_tidal_dl_ng, download_via_tidal_dl_ng, extract_playlist_id,
    fetch_playlist, find_track_urls, find_tracks, first_id, is_auth_error, is_locals_dump_line, match_title,
    resolve_tidal_url, run_result, search_hits, set_tidal_dl_ng_download_path, track_url, NoiseFilter, PlaylistStep,
    RunEnd, SearchStep, TidalCall,
};
use ratcrate::urls::percent_encode;

fn obj(pairs: Vec<(&str, Json)>) -> Json {
    Json::Object(pairs.into_iter().map(|(k, v)| (k.to_string(), v)).collect())
}

fn string(s: &str) -> Json {
    Json::Str(s.to_string())
}

fn arr(v: Vec<Json>) -> Json {
    Json::Array(v)
}

fn direct_hit(kind: &str, id: &str) -> Json {
    obj(vec![(
        "data",
        arr(vec![obj(vec![("relationships", obj(vec![(kind, obj(vec![("data", arr(vec![obj(vec![("id", string(id))])]))]))]))])]),
    )])
}

fn no_hit() -> Json {
    obj(vec![("data", arr(vec![])), ("included", arr(vec![]))])
}

fn catalog(entries: Vec<(&str, &str)>) -> Json {
    obj(vec![(
        "included",
        arr(entries
            .into_iter()
            .map(|(title, id)| obj(vec![("type", string("tracks")), ("id", string(id)), ("attributes", obj(vec![("title", string(title))]))]))
            .collect()),
    )])
}

#[test]
fn tidal_links_and_urls() {
    assert_eq!(track_url("123"), "https://tidal.com/browse/track/123");
    assert_eq!(extract_playlist_id("https://tidal.com/browse/playlist/abc-123?u=1"), Some("abc-123".to_string()));
    assert_eq!(extract_playlist_id("https://tidal.com/playlist/xyz/"), Some("xyz".to_string()));
    assert_eq!(extract_playlist_id("plain"), Some("plain".to_string()));
    assert_eq!(extract_playlist_id("https://tidal.com/?x"), Some("tidal.com".to_string()));
    assert_eq!(extract_playlist_id("///?a"), None);
    assert_eq!(extract_playlist_id(""), None);
    assert_eq!(resolve_tidal_url("https://x.test/a"), "https://x.test/a");
    assert_eq!(resolve_tidal_url("/playlists/1?page=2"), "https://openapi.tidal.com/v2/playlists/1?page=2");
    assert_eq!(resolve_tidal_url("playlists/1"), "https://openapi.tidal.com/v2/playlists/1");
}

#[test]
fn auth_errors_are_401_and_403() {
    assert!(is_auth_error("HTTP 401: expired"));
    assert!(is_auth_error("search failed: HTTP 403: nope"));
    assert!(!is_auth_error("HTTP 404: missing"));
    assert!(!is_auth_error(""));
}

#[test]
fn percent_encoding_escapes_reserved_bytes() {
    assert_eq!(percent_encode("Daft Punk"), "Daft%20Punk");
    assert_eq!(percent_encode("a-b_c.d~e"), "a-b_c.d~e");
    assert_eq!(percent_encode("é&?"), "%C3%A9%26%3F");
    assert_eq!(percent_encode(""), "");
}

#[test]
fn tool_runs_and_their_outcomes() {
    let run = download_via_tidal_dl_ng("https://tidal.com/browse/track/1");
    assert_eq!(run.args, vec!["dl".to_string(), "https://tidal.com/browse/track/1".to_string()]);
    assert_eq!(run.timeout_secs, 180);
    let run = download_playlist_via_tidal_dl_ng("https://tidal.com/browse/playlist/p");
    assert_eq!(run.timeout_secs, 1800);
    let cfg = set_tidal_dl_ng_download_path("/music/House");
    assert_eq!(cfg.len(), 4);
    assert_eq!(cfg[0].args, vec!["cfg".to_string(), "download_base_path".to_string(), "/music/House".to_string()]);
    assert_eq!(cfg[1].args[2], "{artist_name} - {track_title}{track_explicit}");
    assert_eq!(cfg[3].args, vec!["cfg".to_string(), "extract_flac".to_string(), "False".to_string()]);
    assert_eq!(command_echo(&run.args), "$ tidal-dl-ng dl https://tidal.com/browse/playlist/p");
    assert_eq!(run_result(&RunEnd::Exited { success: true, status: "exit status: 0".to_string() }, 180), Ok(()));
    assert_eq!(
        run_result(&RunEnd::Exited { success: false, status: "exit status: 2".to_string() }, 180),
        Err("tidal-dl-ng exited with exit status: 2".to_string())
    );
    assert_eq!(
        run_result(&RunEnd::Stopped, 1800),
        Err("tidal-dl-ng timed out after 30 minutes (likely stuck waiting on a prompt)".to_string())
    );
}

#[test]
fn traceback_noise_is_collapsed() {
    assert!(is_locals_dump_line("│   file_template = '{x}'"));
    assert!(is_locals_dump_line("  ╰──── "));
    assert!(!is_locals_dump_line("  ╰───╯ "));
    assert!(is_locals_dump_line(""));
    assert!(!is_locals_dump_line("Downloading track 1 of 3"));
    assert!(!is_locals_dump_line("│ x.y = 3"));
    assert!(!is_locals_dump_line(" = value"));
    let mut filter = NoiseFilter::new();
    assert!(filter.filter("│ a = 1").is_empty());
    assert!(filter.filter("│ b = 2").is_empty());
    assert_eq!(
        filter.filter("Error: boom"),
        vec!["  … (2 internal debug line(s) hidden)".to_string(), "Error: boom".to_string()]
    );
    assert_eq!(filter.filter("done"), vec!["done".to_string()]);
    assert!(filter.filter("│ c = 3").is_empty());
    assert_eq!(filter.flush(), Some("  … (1 internal debug line(s) hidden)".to_string()));
    assert_eq!(filter.flush(), None);
}

#[test]
fn search_answers_are_read() {
    assert_eq!(first_id(&direct_hit("tracks", "9"), "tracks"), Some("9".to_string()));
    let included = obj(vec![(
        "included",
        arr(vec![obj(vec![("type", string("artists")), ("id", string("a1"))]), obj(vec![("type", string("tracks")), ("id", string("t7"))])]),
    )]);
    assert_eq!(first_id(&included, "tracks"), Some("t7".to_string()));
    assert_eq!(first_id(&included, "artists"), Some("a1".to_string()));
    assert_eq!(first_id(&no_hit(), "tracks"), None);
    assert!(search_hits(&direct_hit("tracks", "1")));
    assert!(search_hits(&included));
    assert!(!search_hits(&no_hit()));
    let cat = artist_catalog(&catalog(vec![("  One More Time ", "11"), ("Aerodynamic", "12")]));
    assert_eq!(cat, vec![("one more time".to_string(), "11".to_string()), ("aerodynamic".to_string(), "12".to_string())]);
    assert_eq!(match_title(&cat, "One More Time (Radio Edit)"), Some("11".to_string()));
    assert_eq!(match_title(&cat, " aero"), Some("12".to_string()));
    assert_eq!(match_title(&cat, "Digital Love"), None);
}

fn expect_search(step: &SearchStep) -> String {
    match step {
        SearchStep::Call(TidalCall::Search { url, .. }) => url.clone(),
        other => panic!("expected a search, got {other:?}"),
    }
}

#[test]
fn find_tracks_answers_each_track_and_renews_the_token_once() {
    let tracks = vec![("One".to_string(), "Daft Punk".to_string()), ("Two".to_string(), "X".to_string())];
    let (mut m, first) = find_tracks("id", "secret", "US", tracks);
    assert!(matches!(first, TidalCall::Token { .. }));
    let step = m.on_token(Ok("tok".to_string()));
    assert_eq!(
        expect_search(&step),
        "https://openapi.tidal.com/v2/searchResults?filter%5Bquery%5D=One%20Daft%20Punk&countryCode=US&include=tracks"
    );
    let step = m.on_search(Err("search failed: HTTP 401: expired".to_string()));
    assert!(matches!(step, SearchStep::Call(TidalCall::Token { .. })));
    let step = m.on_token(Ok("tok2".to_string()));
    expect_search(&step);
    let step = m.on_search(Err("search failed: HTTP 401: again".to_string()));
    expect_search(&step);
    assert_eq!(m.results, vec![false]);
    let step = m.on_search(Ok(direct_hit("tracks", "5")));
    assert!(matches!(step, SearchStep::Finished(Ok(()))));
    assert_eq!(m.results, vec![false, true]);
}

#[test]
fn find_tracks_stops_when_no_token_is_granted() {
    let (mut m, _) = find_tracks("id", "secret", "US", vec![("One".to_string(), "A".to_string())]);
    let step = m.on_token(Err("could not authenticate with Tidal: HTTP 400: bad".to_string()));
    match step {
        SearchStep::Finished(Err(e)) => assert_eq!(e, "could not authenticate with Tidal: HTTP 400: bad"),
        other => panic!("unexpected {other:?}"),
    }
}

#[test]
fn find_track_urls_falls_back_to_the_artist_catalog() {
    let tracks = vec![("One More Time".to_string(), "Daft Punk".to_string()), ("Aerodynamic".to_string(), "Daft Punk".to_string())];
    let (mut m, first) = find_track_urls("id", "secret", "US", tracks);
    assert!(matches!(first, TidalCall::Token { .. }));
    let st = m.on_token(Ok("tok".to_string()));
    assert_eq!(st.progress, Some(1));
    let st = m.on_response(Ok(no_hit()));
    match &st.step {
        SearchStep::Call(TidalCall::Get { url, .. }) => assert_eq!(
            url,
            "https://openapi.tidal.com/v2/searchResults?filter%5Bquery%5D=Daft%20Punk&countryCode=US&include=artists"
        ),
        other => panic!("unexpected {other:?}"),
    }
    let st = m.on_response(Ok(direct_hit("artists", "dp")));
    assert_eq!(st.log, vec!["resolved artist_id=dp for artist=\"Daft Punk\"".to_string()]);
    match &st.step {
        SearchStep::Call(TidalCall::Get { url, .. }) => {
            assert_eq!(url, "https://openapi.tidal.com/v2/artists/dp?countryCode=US&include=tracks")
        }
        other => panic!("unexpected {other:?}"),
    }
    let st = m.on_response(Ok(catalog(vec![("One More Time", "11"), ("Aerodynamic", "12")])));
    assert_eq!(st.log, vec!["matched track_id=11 for title=\"One More Time\" in artist's catalog (2 tracks)".to_string()]);
    assert_eq!(st.progress, Some(2));
    assert_eq!(m.results, vec![Some("https://tidal.com/browse/track/11".to_string())]);
    let st = m.on_response(Ok(no_hit()));
    assert_eq!(
        st.log,
        vec![
            "(cached artist id for \"Daft Punk\")".to_string(),
            "resolved artist_id=dp for artist=\"Daft Punk\"".to_string(),
            "(cached track list for artist dp)".to_string(),
            "matched track_id=12 for title=\"Aerodynamic\" in artist's catalog (2 tracks)".to_string(),
        ]
    );
    assert!(matches!(st.step, SearchStep::Finished(Ok(()))));
    assert_eq!(m.results.len(), 2);
}

#[test]
fn find_track_urls_reports_search_errors() {
    let (mut m, _) = find_track_urls("id", "secret", "US", vec![("T".to_string(), " ".to_string())]);
    m.on_token(Ok("tok".to_string()));
    let st = m.on_response(Err("HTTP 500: oops".to_string()));
    assert_eq!(st.log, vec!["search error: HTTP 500: oops".to_string()]);
    assert!(matches!(st.step, SearchStep::Finished(Ok(()))));
    assert_eq!(m.results, vec![None]);
}

#[test]
fn tidal_playlist_pages_are_followed() {
    match fetch_playlist("id", "s", "US", "?q") {
        Err(e) => assert_eq!(e, "could not find a playlist id in \"?q\""),
        Ok(_) => panic!("no id expected"),
    }
    let (mut f, call) = fetch_playlist("id", "s", "US", "https://tidal.com/browse/playlist/P1").expect("an id");
    assert!(matches!(call, TidalCall::Token { .. }));
    match f.on_token(Ok("tok".to_string())) {
        PlaylistStep::Call(TidalCall::Get { url, .. }) => {
            assert_eq!(url, "https://openapi.tidal.com/v2/playlists/P1?countryCode=US&include=items.artists")
        }
        other => panic!("unexpected {other:?}"),
    }
    let page = obj(vec![
        ("data", obj(vec![("attributes", obj(vec![("name", string("Mix"))]))])),
        (
            "included",
            arr(vec![
                obj(vec![("type", string("artists")), ("id", string("a")), ("attributes", obj(vec![("name", string("Artist A"))]))]),
                obj(vec![
                    ("type", string("tracks")),
                    ("id", string("t1")),
                    ("attributes", obj(vec![("title", string("First"))])),
                    ("relationships", obj(vec![("artists", obj(vec![("data", arr(vec![obj(vec![("id", string("a"))])]))]))])),
                ]),
                obj(vec![("type", string("tracks")), ("id", string("t1")), ("attributes", obj(vec![("title", string("Again"))]))]),
            ]),
        ),
        ("links", obj(vec![("next", string("/playlists/P1/relationships/items?cursor=2"))])),
    ]);
    match f.on_page(Ok(page)) {
        PlaylistStep::Call(TidalCall::Get { url, .. }) => assert_eq!(
            url,
            "https://openapi.tidal.com/v2/playlists/P1/relationships/items?cursor=2&include=items.artists"
        ),
        other => panic!("unexpected {other:?}"),
    }
    match f.on_page(Err("HTTP 500: later".to_string())) {
        PlaylistStep::Done(Ok(info)) => {
            assert_eq!(info.name, "Mix");
            assert_eq!(info.tracks.len(), 1);
            assert_eq!(info.tracks[0].title, "First");
            assert_eq!(info.tracks[0].artist, "Artist A");
        }
        other => panic!("unexpected {other:?}"),
    }
}
