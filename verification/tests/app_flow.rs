//! The application state machine: keys in, state and commands out.

use ratcrate::browse::{parse_tags, PlayOutcome};
use ratcrate::catalog::merge_playlists;
use ratcrate::commands::{Command, SaveNote};
use ratcrate::config::AppConfig;
use ratcrate::keys::{edit_line, wrap_index, Key};
use ratcrate::model::{CrateLocation, ImportService, Location, Playlist, PlaylistLink};
use ratcrate::session::{App, ImportStep, Screen};
use ratcrate::tracks::{RemoteTrackMetadata, TrackFile};

fn playlist(name: &str, tracks: usize, synced: usize, tags: &[&str]) -> Playlist {
    Playlist {
        name: name.to_string(),
        track_count: tracks,
        synced,
        tags: tags.iter().map(|t| t.to_string()).collect(),
        link: None,
    }
}

fn crate_with(name: &str, playlists: Vec<Playlist>) -> CrateLocation {
    CrateLocation {
        name: name.to_string(),
        locations: vec![Location { path: format!("/music/{name}"), removable: false }],
        available: true,
        playlists,
    }
}

fn loaded_app(crates: Vec<CrateLocation>) -> App {
    let config = AppConfig {
        crates,
        spotify_client_id: None,
        spotify_refresh_token: None,
        tidal_client_id: None,
        tidal_client_secret: None,
    };
    let (app, command) = App::load(Ok(Some(config)), "/home/dj/.config/ratcrate/config.json".to_string());
    assert!(matches!(command, Command::StartupScan));
    app
}

#[test]
fn demo_starts_empty_on_the_dashboard() {
    let app = App::demo();
    assert!(app.crates.is_empty());
    assert_eq!(app.screen, Screen::Dashboard);
    assert_eq!(app.config_field, 1);
    assert_eq!(app.message, "No crates yet. Press c, then n to add one.");
    assert!(!app.should_quit);
}

#[test]
fn load_reports_each_outcome() {
    let app = loaded_app(vec![crate_with("Club", vec![])]);
    assert_eq!(app.message, "Welcome back. Your crate map is loaded.");
    assert_eq!(app.crates.len(), 1);

    let (empty, _) = App::load(Ok(Some(AppConfig::default())), "cfg".to_string());
    assert_eq!(empty.message, "No crates yet. Press c, then n to add one.");

    let (missing, _) = App::load(Ok(None), "/tmp/config.json".to_string());
    assert_eq!(missing.message, "No config yet. Press c, then n to add a crate. (/tmp/config.json)");

    let (broken, _) = App::load(Err("bad json".to_string()), "cfg".to_string());
    assert_eq!(broken.message, "Could not load config: bad json. Starting with no crates.");
}

#[test]
fn config_keeps_crates_and_spotify_credentials() {
    let mut app = loaded_app(vec![crate_with("Club", vec![playlist("House", 3, 3, &["deep"])])]);
    app.spotify_client_id = Some("abc".to_string());
    let config = app.config();
    assert_eq!(config.crates.len(), 1);
    assert_eq!(config.crates[0].playlists[0].tags, vec!["deep".to_string()]);
    assert_eq!(config.spotify_client_id, Some("abc".to_string()));
    assert_eq!(config.spotify_refresh_token, None);
    assert_eq!(config.tidal_client_id, None);
}

#[test]
fn dashboard_navigation_wraps_around() {
    let mut app = loaded_app(vec![crate_with("Club", vec![playlist("A", 1, 1, &[]), playlist("B", 1, 0, &[])])]);
    app.handle_key(Key::Down);
    assert_eq!(app.selected_playlist, 1);
    app.handle_key(Key::Char('j'));
    assert_eq!(app.selected_playlist, 0);
    app.handle_key(Key::Up);
    assert_eq!(app.selected_playlist, 1);
    app.handle_key(Key::Char('q'));
    assert!(app.should_quit);
}

#[test]
fn new_crate_key_adds_a_default_crate() {
    let mut app = App::demo();
    app.handle_key(Key::Char('n'));
    assert_eq!(app.crates.len(), 1);
    assert_eq!(app.crates[0].name, "New crate");
    assert_eq!(app.crates[0].locations.len(), 1);
    assert_eq!(app.crates[0].locations[0].path, "");
    assert_eq!(app.screen, Screen::Config);
    assert_eq!(app.config_field, 0);
    assert_eq!(app.message, "New crate added. Name it, then Enter to save.");
}

#[test]
fn editing_tags_saves_trimmed_non_empty_tags() {
    let mut app = loaded_app(vec![crate_with("Club", vec![playlist("House", 3, 3, &["deep", "warm"])])]);
    app.handle_key(Key::Char('T'));
    assert!(app.editing_tags);
    assert_eq!(app.tag_buffer, "deep, warm");
    assert_eq!(app.tag_cursor, 10);
    for c in ", , late ".chars() {
        app.handle_key(Key::Char(c));
    }
    let command = app.handle_key(Key::Enter);
    assert!(matches!(command, Command::Save(SaveNote::TagsSaved)));
    assert_eq!(app.crates[0].playlists[0].tags, vec!["deep".to_string(), "warm".to_string(), "late".to_string()]);
    assert!(!app.editing_tags);
    app.after_save(SaveNote::TagsSaved, Ok(()));
    assert_eq!(app.message, "Tags saved.");
    app.after_save(SaveNote::TagsSaved, Err("disk full".to_string()));
    assert_eq!(app.message, "Tags updated for this session, but could not save config: disk full");
}

#[test]
fn escape_cancels_tag_editing() {
    let mut app = loaded_app(vec![crate_with("Club", vec![playlist("House", 3, 3, &["deep"])])]);
    app.handle_key(Key::Char('T'));
    app.handle_key(Key::Char('x'));
    app.handle_key(Key::Esc);
    assert!(!app.editing_tags);
    assert_eq!(app.tag_buffer, "");
    assert_eq!(app.message, "Tag edit cancelled.");
    assert_eq!(app.crates[0].playlists[0].tags, vec!["deep".to_string()]);
}

#[test]
fn deleting_a_crate_asks_first() {
    let mut app = loaded_app(vec![crate_with("Club", vec![]), crate_with("Home", vec![])]);
    app.selected_crate = 1;
    app.pending_delete = Some(1);
    let command = app.handle_key(Key::Char('y'));
    match command {
        Command::Save(SaveNote::RemovedCrate { name }) => assert_eq!(name, "Home"),
        other => panic!("unexpected command {other:?}"),
    }
    assert_eq!(app.crates.len(), 1);
    assert_eq!(app.selected_crate, 0);
    assert_eq!(app.pending_delete, None);
    assert_eq!(app.message, "Removed crate Home.");

    app.pending_delete = Some(0);
    app.handle_key(Key::Char('n'));
    assert_eq!(app.crates.len(), 1);
    assert_eq!(app.message, "Crate deletion cancelled.");
}

#[test]
fn tag_browser_lists_sorted_tags_and_opens_matches() {
    let mut app = loaded_app(vec![
        crate_with("Club", vec![playlist("House", 3, 3, &["warm", "deep"])]),
        crate_with("Home", vec![playlist("Chill", 2, 0, &["deep"])]),
    ]);
    app.handle_key(Key::Char('t'));
    let browser = app.tag_browser.as_ref().expect("browser open");
    assert_eq!(browser.tags, vec!["deep".to_string(), "warm".to_string()]);
    app.handle_key(Key::Enter);
    let browser = app.tag_browser.as_ref().expect("browser open");
    assert_eq!(browser.filter, Some("deep".to_string()));
    assert_eq!(
        browser.matches,
        vec![("Club".to_string(), "House".to_string()), ("Home".to_string(), "Chill".to_string())]
    );
    app.handle_key(Key::Down);
    let command = app.handle_key(Key::Enter);
    match command {
        Command::ListTracks { crate_index, playlist_index, from_browser } => {
            assert_eq!((crate_index, playlist_index, from_browser), (1, 0, true));
        }
        other => panic!("unexpected command {other:?}"),
    }
}

#[test]
fn no_tags_yet_is_reported() {
    let mut app = loaded_app(vec![crate_with("Club", vec![playlist("House", 3, 3, &[])])]);
    app.handle_key(Key::Char('t'));
    assert!(app.tag_browser.is_none());
    assert_eq!(app.message, "No tags yet. Press T on a playlist to add some.");
}

fn local(name: &str) -> TrackFile {
    TrackFile { name: name.to_string(), path: format!("/music/{name}"), size_bytes: 10, modified: None, remote_metadata: None }
}

#[test]
fn track_page_plays_local_files_only() {
    let mut app = loaded_app(vec![crate_with("Club", vec![playlist("House", 2, 1, &[])])]);
    let remote = TrackFile {
        name: "Song".to_string(),
        path: "/music/spotify-tracks.json".to_string(),
        size_bytes: 0,
        modified: None,
        remote_metadata: Some(RemoteTrackMetadata {
            artist: "Band".to_string(),
            album: String::new(),
            duration_secs: 200,
            external_id: None,
        }),
    };
    let command = app.show_tracks(0, 0, vec![local("a.mp3"), remote], false);
    assert!(matches!(command, Command::LoadTrackDetails));
    let command = app.handle_key(Key::Enter);
    assert!(matches!(command, Command::Play { index: 0 }));
    app.after_play(0, PlayOutcome::Started);
    assert_eq!(app.now_playing, Some(0));
    assert_eq!(app.message, "\u{25b6} playing");
    let command = app.handle_key(Key::Char('p'));
    assert!(matches!(command, Command::Pause));
    assert!(app.audio_paused);
    app.handle_key(Key::Down);
    app.handle_key(Key::Enter);
    assert_eq!(app.message, "This track is metadata only (no local audio file) \u{2014} nothing to play.");
    let command = app.handle_key(Key::Esc);
    assert!(matches!(command, Command::StopPlayback));
    assert!(app.tracks.is_none());
    assert_eq!(app.now_playing, None);
}

#[test]
fn cancelling_a_running_fetch() {
    let mut app = App::demo();
    app.fetch_waiting = true;
    let command = app.handle_key(Key::Char('c'));
    assert!(matches!(command, Command::CancelFetch));
    assert!(!app.fetch_waiting);
    assert_eq!(app.message, "Import cancelled.");
}

#[test]
fn import_dialog_walks_its_steps() {
    let mut app = loaded_app(vec![crate_with("Club", vec![playlist("House", 3, 3, &[])])]);
    app.handle_key(Key::Char('i'));
    assert_eq!(app.screen, Screen::Import);
    assert_eq!(app.message, "Choose a service to import from.");
    app.handle_key(Key::Up);
    assert_eq!(app.import.as_ref().map(|i| i.service_index), Some(2));
    app.handle_key(Key::Down);
    app.handle_key(Key::Enter);
    let import = app.import.as_ref().expect("dialog open");
    assert_eq!(import.service, Some(ImportService::Tidal));
    assert_eq!(import.step, ImportStep::Mode);
}

#[test]
fn keys_are_allowed_in_ordinary_states() {
    let app = loaded_app(vec![crate_with("Club", vec![playlist("House", 3, 3, &[])])]);
    assert!(app.key_allowed(Key::Down));
    assert!(app.key_allowed(Key::Char('x')));
}

#[test]
fn wrap_index_moves_around_the_list() {
    assert_eq!(wrap_index(0, -1, 3), 2);
    assert_eq!(wrap_index(2, 1, 3), 0);
    assert_eq!(wrap_index(1, 1, 3), 2);
    assert_eq!(wrap_index(0, 1, 0), 0);
}

#[test]
fn line_editing_inserts_and_deletes_characters() {
    let mut buffer = "abc".to_string();
    let mut cursor = 1;
    edit_line(&mut buffer, &mut cursor, Key::Char('é'));
    assert_eq!((buffer.as_str(), cursor), ("aébc", 2));
    edit_line(&mut buffer, &mut cursor, Key::Backspace);
    assert_eq!((buffer.as_str(), cursor), ("abc", 1));
    edit_line(&mut buffer, &mut cursor, Key::Delete);
    assert_eq!((buffer.as_str(), cursor), ("ac", 1));
    edit_line(&mut buffer, &mut cursor, Key::End);
    assert_eq!(cursor, 2);
    edit_line(&mut buffer, &mut cursor, Key::Right);
    assert_eq!(cursor, 2);
}

#[test]
fn typing_then_backspace_restores_the_field() {
    let mut buffer = "mix".to_string();
    let mut cursor = 2;
    edit_line(&mut buffer, &mut cursor, Key::Char('z'));
    edit_line(&mut buffer, &mut cursor, Key::Backspace);
    assert_eq!((buffer.as_str(), cursor), ("mix", 2));
}

#[test]
fn tags_are_split_on_commas_and_trimmed() {
    assert_eq!(parse_tags(" house , ,deep,"), vec!["house".to_string(), "deep".to_string()]);
    assert!(parse_tags("").is_empty());
}

#[test]
fn merge_keeps_tags_and_links_of_known_playlists() {
    let mut known = playlist("House", 3, 3, &["deep"]);
    known.link = Some(PlaylistLink { service: ImportService::Spotify, external_name: "H".to_string(), source_url: None });
    let existing = vec![known, playlist("Gone", 1, 1, &["old"])];
    let scanned = vec![playlist("house", 5, 2, &[]), playlist("New", 1, 0, &[])];
    let merged = merge_playlists(&existing, scanned);
    assert_eq!(merged.len(), 2);
    assert_eq!(merged[0].name, "house");
    assert_eq!(merged[0].track_count, 5);
    assert_eq!(merged[0].tags, vec!["deep".to_string()]);
    assert!(merged[0].link.is_some());
    assert!(merged[1].tags.is_empty());
}

#[test]
fn playlist_status_and_service_labels() {
    assert_eq!(playlist("A", 3, 3, &[]).status(), "synced");
    assert_eq!(playlist("A", 3, 2, &[]).status(), "needs sync");
    assert_eq!(ImportService::Tidal.label(), "Tidal");
    assert_eq!(ImportService::Spotify.label(), "Spotify");
    assert_eq!(ImportService::SoundCloud.label(), "SoundCloud");
    assert_eq!(ImportService::at(2), ImportService::SoundCloud);
}

#[test]
fn startup_scan_keeps_the_welcome_message() {
    let mut app = loaded_app(vec![crate_with("Club", vec![playlist("Old", 1, 1, &[])])]);
    let command = app.apply_disk_state(&vec![vec![false]], vec![vec![playlist("House", 4, 2, &[])]]);
    assert!(matches!(command, Command::Save(SaveNote::Quiet)));
    assert_eq!(app.message, "Welcome back. Your crate map is loaded.");
    assert!(!app.crates[0].available);
    assert_eq!(app.crates[0].playlists.len(), 1);
    assert_eq!(app.crates[0].playlists[0].name, "House");
}

#[test]
fn linking_an_existing_playlist_only_records_the_link() {
    let mut app = loaded_app(vec![crate_with("Club", vec![playlist("House", 3, 3, &[])])]);
    app.handle_key(Key::Char('i'));
    app.handle_key(Key::Down);
    app.handle_key(Key::Enter);
    app.handle_key(Key::Down);
    app.handle_key(Key::Enter);
    app.handle_key(Key::Enter);
    app.handle_key(Key::Enter);
    assert_eq!(app.import.as_ref().map(|i| i.step), Some(ImportStep::Name));
    for c in " https://open.spotify.com/playlist/abc ".chars() {
        app.handle_key(Key::Char(c));
    }
    let command = app.handle_key(Key::Enter);
    assert!(matches!(command, Command::Save(SaveNote::LinkedExisting { service: ImportService::Spotify, ref name }) if name == "https://open.spotify.com/playlist/abc"));
    assert!(app.import.is_none());
    assert!(app.pending_import.is_none());
    assert_eq!(app.screen, Screen::Dashboard);
    let link = app.crates[0].playlists[0].link.as_ref().expect("linked");
    assert_eq!(link.service, ImportService::Spotify);
    assert_eq!(link.external_name, "https://open.spotify.com/playlist/abc");
    assert_eq!(link.source_url, None);
}

#[test]
fn a_new_spotify_playlist_gets_a_folder_and_no_fetch() {
    let mut app = loaded_app(vec![crate_with("Club", vec![])]);
    app.handle_key(Key::Char('i'));
    app.handle_key(Key::Down);
    app.handle_key(Key::Enter);
    app.handle_key(Key::Enter);
    app.handle_key(Key::Enter);
    assert_eq!(app.import.as_ref().map(|i| i.step), Some(ImportStep::Name));
    for c in " Warmup ".chars() {
        app.handle_key(Key::Char(c));
    }
    let command = app.handle_key(Key::Enter);
    match command {
        Command::CreateFolder(job) => {
            assert_eq!(job.crate_index, 0);
            assert_eq!(job.base, "/music/Club");
            assert_eq!(job.name, "Warmup");
            assert_eq!(job.service, ImportService::Spotify);
        }
        _ => panic!("a new playlist gets its folder"),
    }
    assert!(app.import.is_none());
    assert!(app.pending_import.is_none());
}
