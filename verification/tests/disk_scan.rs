//! What folder listings mean: playlists, counts, manifests and track lists.

use ratcrate::json::{Json, JsonNumber};
use ratcrate::model::{CrateLocation, Location};
use ratcrate::sync::{
    count_unique_files, find_manifest, find_playlist_folder, list_playlist_tracks, normalize_for_match,
    read_manifest, remove_manifest_entry, scan_crate_playlists, track_count_for, DirEntry, FileInfo, FolderEntry,
};

fn file(name: &str) -> DirEntry {
    DirEntry { name: name.to_string(), is_dir: false, is_file: true }
}

fn dir(name: &str) -> DirEntry {
    DirEntry { name: name.to_string(), is_dir: true, is_file: false }
}

fn obj(pairs: Vec<(&str, Json)>) -> Json {
    Json::Object(pairs.into_iter().map(|(k, v)| (k.to_string(), v)).collect())
}

fn string(s: &str) -> Json {
    Json::Str(s.to_string())
}

fn number(n: u64) -> Json {
    Json::Number(JsonNumber { text: n.to_string(), unsigned: Some(n) })
}

fn manifest_entry(title: &str, artist: &str) -> Json {
    obj(vec![("title", string(title)), ("artist", string(artist)), ("album", string("LP")), ("duration_secs", number(61))])
}

fn folder(name: &str, files: Vec<DirEntry>, manifest: Option<Json>) -> FolderEntry {
    FolderEntry { name: name.to_string(), is_dir: true, files, manifest }
}

fn crate_of(paths: &[&str]) -> CrateLocation {
    CrateLocation {
        name: "Club".to_string(),
        locations: paths.iter().map(|p| Location { path: p.to_string(), removable: false }).collect(),
        available: true,
        playlists: vec![],
    }
}

#[test]
fn unique_files_ignore_case_and_manifests() {
    let entries = vec![file("A.mp3"), file("a.MP3"), file("b.mp3"), dir("sub"), file("spotify-tracks.json")];
    assert_eq!(count_unique_files(&entries), 2);
    assert_eq!(count_unique_files(&vec![]), 0);
}

#[test]
fn the_first_manifest_file_is_found() {
    let entries = vec![dir("x-tracks.json"), file("a.mp3"), file("tidal-tracks.json"), file("spotify-tracks.json")];
    assert_eq!(find_manifest(&entries), Some(2));
    assert_eq!(find_manifest(&vec![file("a.mp3")]), None);
}

#[test]
fn manifest_entries_become_remote_tracks() {
    let doc = Json::Array(vec![
        manifest_entry("Song", "Band"),
        obj(vec![("id", string("77"))]),
    ]);
    let tracks = read_manifest(&doc, &"/m/spotify-tracks.json".to_string()).expect("a list");
    assert_eq!(tracks.len(), 2);
    assert_eq!(tracks[0].name, "Song");
    let remote = tracks[0].remote_metadata.as_ref().expect("remote");
    assert_eq!((remote.artist.as_str(), remote.album.as_str(), remote.duration_secs), ("Band", "LP", 61));
    assert_eq!(remote.external_id, None);
    assert_eq!(tracks[1].name, "Unknown track");
    let remote = tracks[1].remote_metadata.as_ref().expect("remote");
    assert_eq!(remote.external_id, Some("77".to_string()));
    assert_eq!(remote.artist, "");
    assert_eq!(tracks[1].path, "/m/spotify-tracks.json");
    assert!(read_manifest(&obj(vec![]), &"x".to_string()).is_none());
}

#[test]
fn track_count_prefers_a_readable_manifest() {
    let files = vec![file("a.mp3"), file("spotify-tracks.json")];
    let doc = Json::Array(vec![manifest_entry("1", ""), manifest_entry("2", ""), manifest_entry("3", "")]);
    assert_eq!(track_count_for(&files, &Some(doc)), 3);
    assert_eq!(track_count_for(&files, &Some(string("not a list"))), 1);
    assert_eq!(track_count_for(&files, &None), 1);
    let no_manifest = vec![file("a.mp3")];
    assert_eq!(track_count_for(&no_manifest, &Some(Json::Array(vec![]))), 1);
}

#[test]
fn scan_merges_folders_across_paths() {
    let club = crate_of(&["/a", "/b"]);
    let listings = vec![
        Some(vec![
            folder(" House ", vec![file("1.mp3"), file("2.mp3")], None),
            folder("house", vec![file("9.mp3")], None),
            folder("Techno", vec![file("1.mp3")], None),
            FolderEntry { name: "notes.txt".to_string(), is_dir: false, files: vec![], manifest: None },
            folder("   ", vec![file("x.mp3")], None),
        ]),
        Some(vec![folder("HOUSE", vec![file("1.mp3"), file("2.mp3"), file("3.mp3")], None)]),
    ];
    let playlists = scan_crate_playlists(&club, &listings);
    assert_eq!(playlists.len(), 2);
    assert_eq!(playlists[0].name, "House");
    assert_eq!(playlists[0].track_count, 3);
    assert_eq!(playlists[0].synced, 3);
    assert_eq!(playlists[1].name, "Techno");
    assert_eq!(playlists[1].track_count, 1);
    assert_eq!(playlists[1].synced, 0);
    assert!(playlists.iter().all(|p| p.tags.is_empty() && p.link.is_none()));
}

#[test]
fn unreadable_paths_leave_playlists_unsynced() {
    let club = crate_of(&["/a", "/gone"]);
    let listings = vec![Some(vec![folder("Disco", vec![file("1.mp3")], None)]), None];
    let playlists = scan_crate_playlists(&club, &listings);
    assert_eq!(playlists.len(), 1);
    assert_eq!(playlists[0].synced, 0);
    let single = crate_of(&["/a"]);
    let playlists = scan_crate_playlists(&single, &vec![Some(vec![folder("Disco", vec![file("1.mp3")], None)])]);
    assert_eq!(playlists[0].synced, 1);
}

#[test]
fn synced_never_exceeds_the_manifest_count() {
    let single = crate_of(&["/a"]);
    let doc = Json::Array(vec![manifest_entry("1", "")]);
    let listings = vec![Some(vec![folder(
        "Imported",
        vec![file("a.mp3"), file("b.mp3"), file("spotify-tracks.json")],
        Some(doc),
    )])];
    let playlists = scan_crate_playlists(&single, &listings);
    assert_eq!(playlists[0].track_count, 1);
    assert_eq!(playlists[0].synced, 1);
}

#[test]
fn normalizing_loosens_titles() {
    assert_eq!(normalize_for_match("  Don't Stop: Me Now (Remaster) "), "don t stop me now remaster");
    assert_eq!(normalize_for_match("A--B"), "a b");
    assert_eq!(normalize_for_match("!!!"), "");
}

fn info(name: &str) -> FileInfo {
    FileInfo { entry: file(name), path: format!("/p/{name}"), size_bytes: 5, modified: Some(1) }
}

#[test]
fn track_list_adds_missing_manifest_entries_in_name_order() {
    let files = vec![info("b - Don't Stop.mp3"), info("spotify-tracks.json"), info("a.mp3")];
    let doc = Json::Array(vec![manifest_entry("Don't Stop", "X"), manifest_entry("Zed", "Y"), manifest_entry("Another", "Z")]);
    let tracks = list_playlist_tracks(&files, &Some(doc), &"/p/spotify-tracks.json".to_string());
    let names: Vec<&str> = tracks.iter().map(|t| t.name.as_str()).collect();
    assert_eq!(names, vec!["Another", "Zed", "a.mp3", "b - Don't Stop.mp3"]);
    assert!(tracks[0].remote_metadata.is_some());
    assert!(tracks[2].remote_metadata.is_none());
    assert_eq!(tracks[2].path, "/p/a.mp3");
}

#[test]
fn track_list_without_manifest_lists_files() {
    let files = vec![info("b.mp3"), info("a.mp3")];
    let tracks = list_playlist_tracks(&files, &None, &String::new());
    let names: Vec<&str> = tracks.iter().map(|t| t.name.as_str()).collect();
    assert_eq!(names, vec!["a.mp3", "b.mp3"]);
}

#[test]
fn playlist_folder_is_found_ignoring_case() {
    let listings = vec![None, Some(vec![file("house"), dir("Techno"), dir("HOUSE")]), Some(vec![dir("house")])];
    assert_eq!(find_playlist_folder(&listings, "House"), Some((1, 2)));
    assert_eq!(find_playlist_folder(&listings, "Disco"), None);
}

#[test]
fn removing_a_manifest_entry_keeps_the_others() {
    let doc = Json::Array(vec![manifest_entry("Keep", "A"), manifest_entry("Drop", "B"), manifest_entry("drop", "C")]);
    let kept = remove_manifest_entry(doc, "Drop").expect("a list");
    assert_eq!(kept.len(), 2);
    assert!(remove_manifest_entry(obj(vec![]), "Drop").is_none());
}
