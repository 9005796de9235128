//! What each screen reads: the lines, colors and selections the library hands
//! to the terminal.

use ratcrate::commands::{Command, ImportedTrack};
use ratcrate::config::AppConfig;
use ratcrate::json::{at, get, text, unsigned};
use ratcrate::keys::Key;
use ratcrate::model::{CrateLocation, ImportService, Location, Playlist, PlaylistLink};
use ratcrate::overlays::TagScreen;
use ratcrate::panels::{pad_text, path_width_of, value_width_of, ConfigDetails, PlaylistPanel};
use ratcrate::screens::{Body, Line, Tone};
use ratcrate::session::{App, TagBrowser, TrackView};
use ratcrate::sync::manifest_document;
use ratcrate::tracks::{RemoteTrackMetadata, TrackFile, TrackMetadata};

fn text_of(l: &Line) -> String {
    l.iter().map(|s| s.text.as_str()).collect()
}

fn playlist(name: &str, tracks: usize, synced: usize, tags: &[&str]) -> Playlist {
    Playlist {
        name: name.to_string(),
        track_count: tracks,
        synced,
        tags: tags.iter().map(|t| t.to_string()).collect(),
        link: None,
    }
}

fn club() -> CrateLocation {
    CrateLocation {
        name: "Club".to_string(),
        locations: vec![
            Location { path: "/music/Club".to_string(), removable: false },
            Location { path: "/Volumes/USB/Club".to_string(), removable: true },
        ],
        available: true,
        playlists: vec![],
    }
}

fn loaded_app(crates: Vec<CrateLocation>) -> App {
    let config = AppConfig {
        crates,
        spotify_client_id: None,
        spotify_refresh_token: None,
        tidal_client_id: None,
        tidal_client_secret: None,
    };
    let (app, command) = App::load(Ok(Some(config)), "/home/dj/.config/ratcrate/config.json".to_string());
    assert!(matches!(command, Command::StartupScan));
    app
}

#[test]
fn padding_and_widths() {
    assert_eq!(pad_text("ab", 5), "ab   ");
    assert_eq!(pad_text("abcdef", 3), "abcdef");
    assert_eq!(pad_text("né", 3), "né ");
    assert_eq!(value_width_of(40), 18);
    assert_eq!(value_width_of(10), 8);
    assert_eq!(value_width_of(30), 8);
    assert_eq!(path_width_of(20), 14);
    assert_eq!(path_width_of(0), 6);
}

#[test]
fn settings_lists_each_section_and_the_overview() {
    let mut c = club();
    c.playlists = vec![playlist("Warmup", 2, 1, &[]), playlist("Peak", 1, 1, &[])];
    let app = loaded_app(vec![c]);
    let (lines, hint) = app.settings_screen();
    assert_eq!(lines.len(), 25);
    assert_eq!(text_of(&lines[0]), "Status");
    assert!(lines[0][0].bold);
    assert_eq!(text_of(&lines[4]), "  /home/dj/.config/ratcrate/config.json");
    assert_eq!(text_of(&lines[7]), "  (not set — press e to add it)");
    assert_eq!(lines[7][0].fg, Tone::Blue);
    assert_eq!(text_of(&lines[10]), "  ○ not connected   (press l to log in)");
    assert_eq!(text_of(&lines[13]), "  1 crates · 2 paths · 2 playlists");
    assert_eq!(text_of(&lines[24]), "  q           quit");
    assert_eq!(text_of(&hint), " Esc / s  back    e  client id    l / L  connect / disconnect Spotify");
}

#[test]
fn import_screen_shows_the_step_and_its_hint() {
    let mut app = loaded_app(vec![club()]);
    assert!(app.import_screen().is_none());
    app.handle_key(Key::Char('i'));
    let screen = app.import_screen().expect("dialog open");
    assert_eq!(text_of(&screen.breadcrumb), "Import › service? › new or existing?");
    match &screen.body {
        Body::List { title, items, selected } => {
            assert_eq!(title, "✦ CHOOSE SERVICE ✦");
            assert_eq!(*selected, 0);
            let texts: Vec<String> = items.iter().map(text_of).collect();
            assert_eq!(texts, vec!["› Tidal", "  Spotify", "  SoundCloud"]);
            assert_eq!(items[0][0].fg, Tone::Ink);
            assert_eq!(items[1][0].fg, Tone::Cyan);
        }
        Body::Text { .. } => panic!("the service step is a list"),
    }
    assert_eq!(text_of(&screen.footer), " Esc  back   ↑/↓ select · Enter confirm · Esc back");
    app.handle_key(Key::Down);
    app.handle_key(Key::Enter);
    let screen = app.import_screen().expect("dialog open");
    assert_eq!(text_of(&screen.breadcrumb), "Import › Spotify › new or existing?");
}

fn tracks_app() -> App {
    let mut app = loaded_app(vec![club()]);
    let remote = TrackFile {
        name: "b".to_string(),
        path: "/music/Club/Warmup/b".to_string(),
        size_bytes: 0,
        modified: None,
        remote_metadata: Some(RemoteTrackMetadata {
            artist: "DJ".to_string(),
            album: "LP".to_string(),
            duration_secs: 61,
            external_id: Some("42".to_string()),
        }),
    };
    let local = TrackFile {
        name: "a.mp3".to_string(),
        path: "/music/Club/Warmup/a.mp3".to_string(),
        size_bytes: 2048,
        modified: Some(1_000),
        remote_metadata: None,
    };
    let mut p = playlist("Warmup", 2, 1, &["house", "deep"]);
    p.link = Some(PlaylistLink { service: ImportService::Spotify, external_name: "Warm".to_string(), source_url: None });
    app.tracks = Some(TrackView { crate_name: "Club".to_string(), playlist: p, tracks: vec![local, remote], selected: 0, metadata: None });
    app.now_playing = Some(0);
    app
}

#[test]
fn track_page_rows_mark_the_playing_and_remote_tracks() {
    let app = tracks_app();
    let screen = app.tracks_screen().expect("page open");
    let details: Vec<String> = screen.details.iter().map(text_of).collect();
    assert_eq!(details, vec![
        "♫ Warmup   [Club]",
        "status: needs sync (1/2 tracks)",
        "tags: house, deep",
        "linked service: Spotify · \"Warm\"",
    ]);
    assert_eq!(screen.details[1][1].fg, Tone::Pink);
    assert_eq!(text_of(&screen.rows[0]), "› 1. ▶ a.mp3");
    assert_eq!(screen.rows[0][0].fg, Tone::Lime);
    assert_eq!(text_of(&screen.rows[1]), "  2. b  ☁");
    assert_eq!(screen.rows[1][1].fg, Tone::Blue);
    assert_eq!(text_of(&screen.footer), " Esc  back    j/k  scroll    Enter / p  play / pause    x  stop");
    assert!(loaded_app(vec![]).tracks_screen().is_none());
}

#[test]
fn track_details_show_tags_format_size_and_age() {
    let mut app = tracks_app();
    if let Some(view) = app.tracks.as_mut() {
        view.metadata = Some(TrackMetadata {
            title: Some("Intro".to_string()),
            artist: None,
            album: None,
            year: Some(1999),
            genre: Some("House".to_string()),
            duration_secs: 125,
            cover: None,
        });
    }
    let lines = app.track_details_screen("2.0 KB", 1_000 + 7_200);
    let texts: Vec<String> = lines.iter().map(text_of).collect();
    assert_eq!(texts, vec![
        "a.mp3",
        "♪ downloaded",
        "",
        "title: Intro",
        "artist: —",
        "album: —",
        "genre / year: House · 1999",
        "duration: 2:05",
        "",
        "format: MP3",
        "size: 2.0 KB",
        "modified: 2 h ago",
    ]);
}

#[test]
fn tag_browser_lists_tags_then_tagged_playlists() {
    let mut app = loaded_app(vec![club()]);
    assert!(app.tag_screen().is_none());
    app.tag_browser = Some(TagBrowser {
        tags: vec!["house".to_string(), "techno".to_string()],
        selected: 1,
        filter: None,
        matches: vec![],
        match_selected: 0,
    });
    let TagScreen { body, footer } = app.tag_screen().expect("browser open");
    match body {
        Body::List { title, items, selected } => {
            assert_eq!(title, "♪ TAGS ♪");
            assert_eq!(selected, 1);
            let texts: Vec<String> = items.iter().map(text_of).collect();
            assert_eq!(texts, vec!["  house", "› techno"]);
        }
        Body::Text { .. } => panic!("tags are a list"),
    }
    assert!(footer.is_none());

    if let Some(b) = app.tag_browser.as_mut() {
        b.filter = Some("house".to_string());
        b.matches = vec![("Club".to_string(), "Warmup".to_string()), ("Bar".to_string(), "Late".to_string())];
        b.match_selected = 1;
    }
    let TagScreen { body, footer } = app.tag_screen().expect("browser open");
    match body {
        Body::List { title, items, selected } => {
            assert_eq!(title, "♪ TAGGED \"house\" ♪");
            assert_eq!(selected, 1);
            let texts: Vec<String> = items.iter().map(text_of).collect();
            assert_eq!(texts, vec!["  Warmup  [Club]", "› Late  [Bar]"]);
            assert_eq!(items[1][1].fg, Tone::Blue);
        }
        Body::Text { .. } => panic!("matches are a list"),
    }
    assert_eq!(text_of(&footer.expect("hint")), " Enter  open playlist    Esc / t  back to tags");

    if let Some(b) = app.tag_browser.as_mut() {
        b.matches = vec![];
    }
    match app.tag_screen().expect("browser open").body {
        Body::Text { lines, .. } => assert_eq!(text_of(&lines[0]), "  (no playlists with this tag)"),
        Body::List { .. } => panic!("no matches is a note"),
    }
}

#[test]
fn deleting_a_crate_lists_its_paths() {
    let mut app = loaded_app(vec![club()]);
    assert!(app.confirm_delete_screen().is_none());
    app.pending_delete = Some(0);
    let lines = app.confirm_delete_screen().expect("question shown");
    let texts: Vec<String> = lines.iter().map(text_of).collect();
    assert_eq!(texts, vec![
        "Remove \"Club\"?",
        "You will lose all its paths and playlists:",
        "",
        "  • /music/Club",
        "  • /Volumes/USB/Club",
        "",
        " y  delete it    n / Esc  cancel",
    ]);
    app.pending_delete = Some(3);
    assert!(app.confirm_delete_screen().is_none());
}

#[test]
fn crate_editor_marks_missing_paths_and_wraps_values() {
    let mut app = loaded_app(vec![club()]);
    app.config_field = 0;
    let screen = app.config_screen(40, &vec![false, false]);
    assert_eq!(text_of(&screen.crates[0]), "♥ Club");
    assert_eq!(screen.crates[0][1].fg, Tone::Ink);
    let rows = match &screen.details {
        ConfigDetails::Rows(rows) => rows,
        ConfigDetails::Empty(_) => panic!("a crate is selected"),
    };
    assert_eq!(rows.len(), 3);
    assert_eq!(rows[0][0][0].text, "› crate name      ");
    assert_eq!(rows[0][0][0].fg, Tone::Lime);
    assert_eq!(rows[0][0][1].text, "Club");
    assert_eq!(rows[0][0][1].fg, Tone::Ink);
    assert_eq!(rows[1][0][0].text, "  path 1          ");
    assert_eq!(rows[1][0][1].text, "/music/Club  ✕ not");
    assert_eq!(rows[1][0][1].fg, Tone::Pink);
    assert_eq!(text_of(&rows[1][1]), "                   found");
    assert_eq!(rows[2][0][0].text, "  path 2 [ext]    ");
    assert_eq!(rows[2][0][1].text, "/Volumes/USB/Club ");
    assert_eq!(rows[2][0][1].fg, Tone::Yellow);
    assert_eq!(text_of(&rows[2][1]), "                   🔌 disconnected");
    assert!(text_of(&screen.hint).starts_with("  ↑/↓ select · Enter edit"));
    assert_eq!(text_of(&screen.footer), " Esc  back    c  dashboard");

    let found = app.config_screen(40, &vec![true, true]);
    if let ConfigDetails::Rows(rows) = &found.details {
        assert_eq!(rows[1].len(), 1);
        assert_eq!(rows[1][0][1].text, "/music/Club");
        assert_eq!(rows[1][0][1].fg, Tone::Blue);
    }

    app.editing_config = true;
    app.config_buffer = "Clu".to_string();
    app.config_cursor = 1;
    let editing = app.config_screen(40, &vec![true, true]);
    if let ConfigDetails::Rows(rows) = &editing.details {
        assert_eq!(rows[0][0][1].text, "C█lu");
    }
    assert_eq!(text_of(&editing.hint), "  typing... Enter save · Esc cancel");

    let empty = loaded_app(vec![]).config_screen(40, &vec![]);
    match &empty.details {
        ConfigDetails::Empty(note) => assert_eq!(text_of(note), "  No crates yet."),
        ConfigDetails::Rows(_) => panic!("no crate is selected"),
    }
    assert_eq!(text_of(&empty.hint), "  n new crate");
}

#[test]
fn dashboard_wraps_paths_and_fills_the_table() {
    let mut c = club();
    let mut linked = playlist("Warmup", 2, 1, &["house", "techno"]);
    linked.link = Some(PlaylistLink { service: ImportService::Spotify, external_name: "Warm".to_string(), source_url: None });
    c.playlists = vec![linked, playlist("Peak", 3, 3, &[])];
    let mut app = loaded_app(vec![c]);
    app.message = "hello".to_string();
    let screen = app.dashboard_screen(20, &vec![vec![false, false]]);
    let item: Vec<String> = screen.crates[0].iter().map(text_of).collect();
    assert_eq!(item, vec!["♥ Club", "  /music/Club  ✕ not found", "  /Volumes/USB/C", "  lub  🔌 disconnected"]);
    assert_eq!(screen.crates[0][2][0].fg, Tone::Yellow);
    match &screen.playlists {
        PlaylistPanel::Table { title, header, rows, selected } => {
            assert_eq!(title, "♫ PLAYLISTS (shared across paths) ♫");
            assert_eq!(header, &vec!["PLAYLIST", "TRACKS", "STATUS", "TAGS"]);
            assert_eq!(rows[0].cells, vec!["Warmup [Spotify]", "1/2", "needs sync", "house  techno"]);
            assert_eq!(rows[0].tone, Tone::Pink);
            assert_eq!(rows[1].cells, vec!["Peak", "3/3", "synced", ""]);
            assert_eq!(rows[1].tone, Tone::Lime);
            assert_eq!(*selected, 0);
        }
        PlaylistPanel::Empty { .. } => panic!("a crate is selected"),
    }
    assert_eq!(text_of(&screen.status), "  ✦ hello    Club ");
    assert!(text_of(&screen.footer).starts_with(" q  quit    j/k  navigate"));

    let all_found = app.dashboard_screen(20, &vec![]);
    let item: Vec<String> = all_found.crates[0].iter().map(text_of).collect();
    assert_eq!(item, vec!["♥ Club", "  /music/Club", "  /Volumes/USB/C", "  lub"]);

    app.editing_tags = true;
    app.tag_buffer = "deep".to_string();
    app.tag_cursor = 4;
    let editing = app.dashboard_screen(20, &vec![]);
    assert_eq!(text_of(&editing.status), "  🏷 tags (comma separated): deep█   (Enter save · Esc cancel)");

    let empty = loaded_app(vec![]).dashboard_screen(20, &vec![]);
    match &empty.playlists {
        PlaylistPanel::Empty { title, note } => {
            assert_eq!(title, "♫ PLAYLISTS ♫");
            assert_eq!(text_of(note), "  Add a crate with c, then n.");
        }
        PlaylistPanel::Table { .. } => panic!("no crate is selected"),
    }
}

#[test]
fn manifest_lists_each_fetched_track() {
    let tracks = vec![
        ImportedTrack { title: "One".to_string(), artist: "A".to_string(), album: "X".to_string(), duration_secs: 200 },
        ImportedTrack { title: "Two".to_string(), artist: "B".to_string(), album: "".to_string(), duration_secs: 0 },
    ];
    let doc = manifest_document(&tracks);
    let first = at(Some(&doc), 0);
    assert_eq!(text(get(first, "title")), Some("One".to_string()));
    assert_eq!(text(get(first, "artist")), Some("A".to_string()));
    assert_eq!(unsigned(get(first, "duration_secs")), Some(200));
    let second = at(Some(&doc), 1);
    assert_eq!(text(get(second, "album")), Some("".to_string()));
    assert!(at(Some(&doc), 2).is_none());
}

#[test]
fn import_name_step_asks_for_a_link_only_when_linking() {
    let mut app = loaded_app(vec![club()]);
    app.crates[0].playlists = vec![playlist("House", 1, 1, &[])];
    app.handle_key(Key::Char('i'));
    app.handle_key(Key::Down);
    app.handle_key(Key::Enter);
    app.handle_key(Key::Enter);
    app.handle_key(Key::Enter);
    let screen = app.import_screen().expect("dialog open");
    match &screen.body {
        Body::Text { title, lines } => {
            assert_eq!(title, "✦ PLAYLIST NAME ✦");
            assert_eq!(text_of(&lines[0]), "New playlist name (also used as the folder name):");
        }
        Body::List { .. } => panic!("the name step is text"),
    }
    assert_eq!(text_of(&screen.footer), " Esc  back   type the name · Enter confirm · Esc back");

    app.handle_key(Key::Esc);
    app.handle_key(Key::Esc);
    app.handle_key(Key::Down);
    app.handle_key(Key::Enter);
    app.handle_key(Key::Enter);
    app.handle_key(Key::Enter);
    let screen = app.import_screen().expect("dialog open");
    match &screen.body {
        Body::Text { title, lines } => {
            assert_eq!(title, "✦ PLAYLIST LINK ✦");
            assert_eq!(text_of(&lines[0]), "Paste the Spotify playlist link (open.spotify.com/playlist/...):");
        }
        Body::List { .. } => panic!("the name step is text"),
    }
    assert_eq!(text_of(&screen.footer), " Esc  back   paste the link · Enter confirm · Esc back");
}
