//! What the application asks its shell to do, and the outcomes it gets back.

use vstd::prelude::*;

use crate::model::{service_label, ImportService};
use crate::session::{App, AppView};
use crate::text::{decimal, join2, join3, join5, joined, owned, seq_strings, decimal_string, join, StrSeq};
use crate::tracks::opt_view;

verus! {

/// One track of a playlist fetched from a streaming service.
#[derive(Debug, Clone)]
pub struct ImportedTrack {
    pub title: String,
    pub artist: String,
    pub album: String,
    pub duration_secs: u64,
}

pub struct ImportedTrackView {
    pub title: Seq<char>,
    pub artist: Seq<char>,
    pub album: Seq<char>,
    pub duration_secs: u64,
}

impl View for ImportedTrack {
    type V = ImportedTrackView;

    open spec fn view(&self) -> ImportedTrackView {
        ImportedTrackView {
            title: self.title@,
            artist: self.artist@,
            album: self.album@,
            duration_secs: self.duration_secs,
        }
    }
}

/// The views of a list of imported tracks.
pub open spec fn imported_view(v: Seq<ImportedTrack>) -> Seq<ImportedTrackView> {
    v.map_values(|t: ImportedTrack| t@)
}

/// A playlist fetched from a streaming service, whichever service it came from.
#[derive(Debug, Clone)]
pub struct ImportedPlaylist {
    pub name: String,
    pub tracks: Vec<ImportedTrack>,
    /// A new Spotify refresh token, when the fetch logged in again.
    pub spotify_refresh_token: Option<String>,
}

/// What the shell reports after writing the configuration file.
pub type SaveOutcome = Result<(), String>;

/// The view of a save outcome: `None` on success, the error text otherwise.
pub open spec fn outcome_error(r: SaveOutcome) -> Option<Seq<char>> {
    match r {
        Ok(_) => None,
        Err(e) => Some(e@),
    }
}

/// What to report once the configuration has been written.
#[derive(Debug)]
pub enum SaveNote {
    /// Nothing: the outcome is not reported.
    Quiet,
    /// Playlists were rescanned; these crates miss some of their paths.
    Rescanned { missing: Vec<String> },
    ClientIdSaved,
    Disconnected,
    Connected,
    RemovedCrate { name: String },
    TagsSaved,
    CreatedAndLinked { service: ImportService, name: String },
    LinkedExisting { service: ImportService, name: String },
    Pulled { count: usize, service: ImportService, name: String },
    /// A crate field was edited; `missing_path` is the edited path when it does not exist.
    FieldSaved { missing_path: Option<String>, path_changed: bool },
}

pub enum SaveNoteView {
    Quiet,
    Rescanned { missing: StrSeq },
    ClientIdSaved,
    Disconnected,
    Connected,
    RemovedCrate { name: Seq<char> },
    TagsSaved,
    CreatedAndLinked { service: ImportService, name: Seq<char> },
    LinkedExisting { service: ImportService, name: Seq<char> },
    Pulled { count: usize, service: ImportService, name: Seq<char> },
    FieldSaved { missing_path: Option<Seq<char>>, path_changed: bool },
}

impl View for SaveNote {
    type V = SaveNoteView;

    open spec fn view(&self) -> SaveNoteView {
        match self {
            SaveNote::Quiet => SaveNoteView::Quiet,
            SaveNote::Rescanned { missing } => SaveNoteView::Rescanned { missing: seq_strings(missing@) },
            SaveNote::ClientIdSaved => SaveNoteView::ClientIdSaved,
            SaveNote::Disconnected => SaveNoteView::Disconnected,
            SaveNote::Connected => SaveNoteView::Connected,
            SaveNote::RemovedCrate { name } => SaveNoteView::RemovedCrate { name: name@ },
            SaveNote::TagsSaved => SaveNoteView::TagsSaved,
            SaveNote::CreatedAndLinked { service, name } => SaveNoteView::CreatedAndLinked {
                service: *service,
                name: name@,
            },
            SaveNote::LinkedExisting { service, name } => SaveNoteView::LinkedExisting {
                service: *service,
                name: name@,
            },
            SaveNote::Pulled { count, service, name } => SaveNoteView::Pulled {
                count: *count,
                service: *service,
                name: name@,
            },
            SaveNote::FieldSaved { missing_path, path_changed } => SaveNoteView::FieldSaved {
                missing_path: opt_view(*missing_path),
                path_changed: *path_changed,
            },
        }
    }
}

/// A playlist fetch to run in the background.
#[derive(Debug)]
pub struct FetchJob {
    pub service: ImportService,
    pub link: String,
    pub client_id: Option<String>,
    pub refresh_token: Option<String>,
}

pub struct FetchJobView {
    pub service: ImportService,
    pub link: Seq<char>,
    pub client_id: Option<Seq<char>>,
    pub refresh_token: Option<Seq<char>>,
}

impl View for FetchJob {
    type V = FetchJobView;

    open spec fn view(&self) -> FetchJobView {
        FetchJobView {
            service: self.service,
            link: self.link@,
            client_id: opt_view(self.client_id),
            refresh_token: opt_view(self.refresh_token),
        }
    }
}

/// A playlist folder to create, and the link to record on it afterwards.
#[derive(Debug)]
pub struct LinkJob {
    pub crate_index: usize,
    /// The crate's first path, under which the folder goes.
    pub base: String,
    pub name: String,
    pub service: ImportService,
}

pub struct LinkJobView {
    pub crate_index: usize,
    pub base: Seq<char>,
    pub name: Seq<char>,
    pub service: ImportService,
}

impl View for LinkJob {
    type V = LinkJobView;

    open spec fn view(&self) -> LinkJobView {
        LinkJobView { crate_index: self.crate_index, base: self.base@, name: self.name@, service: self.service }
    }
}

/// A crate field that was just edited.
#[derive(Debug)]
pub struct FieldCommit {
    /// The edited path, when a path (not the name) was edited.
    pub edited_path: Option<String>,
    /// A path row was edited, so the crate's folders are rescanned.
    pub path_changed: bool,
}

pub struct FieldCommitView {
    pub edited_path: Option<Seq<char>>,
    pub path_changed: bool,
}

impl View for FieldCommit {
    type V = FieldCommitView;

    open spec fn view(&self) -> FieldCommitView {
        FieldCommitView { edited_path: opt_view(self.edited_path), path_changed: self.path_changed }
    }
}

/// A fetched playlist to write into a crate: its folder and track manifest.
#[derive(Debug)]
pub struct ImportJob {
    pub crate_index: usize,
    pub base: String,
    pub folder: String,
    pub manifest_name: String,
    pub service: ImportService,
    pub external_name: String,
    pub tracks: Vec<ImportedTrack>,
}

pub struct ImportJobView {
    pub crate_index: usize,
    pub base: Seq<char>,
    pub folder: Seq<char>,
    pub manifest_name: Seq<char>,
    pub service: ImportService,
    pub external_name: Seq<char>,
    pub tracks: Seq<ImportedTrackView>,
}

impl View for ImportJob {
    type V = ImportJobView;

    open spec fn view(&self) -> ImportJobView {
        ImportJobView {
            crate_index: self.crate_index,
            base: self.base@,
            folder: self.folder@,
            manifest_name: self.manifest_name@,
            service: self.service,
            external_name: self.external_name@,
            tracks: imported_view(self.tracks@),
        }
    }
}

/// What the shell is asked to do next.
#[derive(Debug)]
pub enum Command {
    Nothing,
    /// Write `config()` to disk, then call `after_save` with the note and the outcome.
    Save(SaveNote),
    /// Check every crate's paths and rescan every crate's folders, then call `after_rescan`.
    Rescan,
    /// Check every crate's paths and rescan every crate's folders, then call
    /// `apply_disk_state` (as at start-up).
    StartupScan,
    /// Check every crate's paths (`refresh_availability`), then save quietly.
    RefreshAndSave,
    /// List a playlist's tracks from disk, then call `show_tracks`.
    ListTracks { crate_index: usize, playlist_index: usize, from_browser: bool },
    /// Load the details of the selected track (see `selected_track_details`).
    LoadTrackDetails,
    /// Play track `index` of the open track list, then call `after_play`.
    Play { index: usize },
    Pause,
    Resume,
    StopPlayback,
    /// Run the Spotify login in the background, then call `on_login`.
    StartLogin { client_id: String },
    /// Stop waiting for the background login.
    CancelLogin,
    /// Fetch a playlist in the background, then call `on_import_fetched`.
    FetchPlaylist(FetchJob),
    /// Stop waiting for the background fetch.
    CancelFetch,
    /// Create a playlist folder, then call `after_create_folder`.
    CreateFolder(LinkJob),
    /// Check the edited path and the crates' paths, rescan, then call `finish_field_edit`.
    CommitField(FieldCommit),
    /// Write a fetched playlist's folder and manifest, then call `after_write_import`.
    WriteImport(ImportJob),
}

pub enum CommandView {
    Nothing,
    Save(SaveNoteView),
    Rescan,
    StartupScan,
    RefreshAndSave,
    ListTracks { crate_index: usize, playlist_index: usize, from_browser: bool },
    LoadTrackDetails,
    Play { index: usize },
    Pause,
    Resume,
    StopPlayback,
    StartLogin { client_id: Seq<char> },
    CancelLogin,
    FetchPlaylist(FetchJobView),
    CancelFetch,
    CreateFolder(LinkJobView),
    CommitField(FieldCommitView),
    WriteImport(ImportJobView),
}

impl View for Command {
    type V = CommandView;

    open spec fn view(&self) -> CommandView {
        match self {
            Command::Nothing => CommandView::Nothing,
            Command::Save(n) => CommandView::Save(n@),
            Command::Rescan => CommandView::Rescan,
            Command::StartupScan => CommandView::StartupScan,
            Command::RefreshAndSave => CommandView::RefreshAndSave,
            Command::ListTracks { crate_index, playlist_index, from_browser } => CommandView::ListTracks {
                crate_index: *crate_index,
                playlist_index: *playlist_index,
                from_browser: *from_browser,
            },
            Command::LoadTrackDetails => CommandView::LoadTrackDetails,
            Command::Play { index } => CommandView::Play { index: *index },
            Command::Pause => CommandView::Pause,
            Command::Resume => CommandView::Resume,
            Command::StopPlayback => CommandView::StopPlayback,
            Command::StartLogin { client_id } => CommandView::StartLogin { client_id: client_id@ },
            Command::CancelLogin => CommandView::CancelLogin,
            Command::FetchPlaylist(j) => CommandView::FetchPlaylist(j@),
            Command::CancelFetch => CommandView::CancelFetch,
            Command::CreateFolder(j) => CommandView::CreateFolder(j@),
            Command::CommitField(f) => CommandView::CommitField(f@),
            Command::WriteImport(j) => CommandView::WriteImport(j@),
        }
    }
}

/// The message shown once the configuration write finished, for each note; `None`
/// when the message stays as it was.
pub open spec fn save_message(note: SaveNoteView, error: Option<Seq<char>>, location: Seq<char>) -> Option<Seq<char>> {
    match note {
        SaveNoteView::Quiet => None,
        SaveNoteView::Rescanned { missing } => {
            let save_note = if error is None { Seq::empty() } else { " (could not save)"@ };
            if missing.len() == 0 {
                Some("Playlists rescanned from disk."@ + save_note)
            } else {
                Some("Playlists rescanned. Missing paths: "@ + joined(missing, ", "@) + "."@ + save_note)
            }
        },
        SaveNoteView::ClientIdSaved => Some(
            match error {
                None => "Spotify Client ID saved."@,
                Some(e) => "Saved for this session, but could not write config: "@ + e,
            },
        ),
        SaveNoteView::Disconnected => Some(
            match error {
                None => "Disconnected from Spotify."@,
                Some(e) => "Disconnected, but could not save config: "@ + e,
            },
        ),
        SaveNoteView::Connected => Some(
            match error {
                None => "Connected to Spotify."@,
                Some(e) => "Connected, but could not save config: "@ + e,
            },
        ),
        SaveNoteView::RemovedCrate { name } => Some(
            match error {
                None => "Removed crate "@ + name + "."@,
                Some(e) => "Removed crate "@ + name + ", but could not save config: "@ + e,
            },
        ),
        SaveNoteView::TagsSaved => Some(
            match error {
                None => "Tags saved."@,
                Some(e) => "Tags updated for this session, but could not save config: "@ + e,
            },
        ),
        SaveNoteView::CreatedAndLinked { service, name } => Some(
            match error {
                None => "Created \""@ + name + "\" and linked it to "@ + service_label(service) + "."@,
                Some(e) => "Created the playlist, but could not save config: "@ + e,
            },
        ),
        SaveNoteView::LinkedExisting { service, name } => Some(
            match error {
                None => "Linked to "@ + service_label(service) + " playlist \""@ + name + "\"."@,
                Some(e) => "Linked for this session, but could not save config: "@ + e,
            },
        ),
        SaveNoteView::Pulled { count, service, name } => Some(
            match error {
                None => "Pulled "@ + decimal(count as nat) + " tracks from "@ + service_label(service)
                    + " playlist \""@ + name + "\"."@,
                Some(e) => "Pulled "@ + decimal(count as nat) + " tracks, but could not save config: "@ + e,
            },
        ),
        SaveNoteView::FieldSaved { missing_path, path_changed } => Some(
            match error {
                Some(e) => "Updated for this session, but could not save config: "@ + e,
                None => match missing_path {
                    Some(p) => "Saved, but that path doesn't exist: "@ + p,
                    None => if path_changed {
                        "Saved. Playlists scanned from that path's folders."@
                    } else {
                        "Saved. Your crate map is looking lovely. ("@ + location + ")"@
                    },
                },
            },
        ),
    }
}

/// The state once a save outcome has been reported.
pub open spec fn after_save_step(s: AppView, note: SaveNoteView, error: Option<Seq<char>>) -> AppView {
    match save_message(note, error, s.config_location) {
        Some(m) => AppView { message: m, ..s },
        None => s,
    }
}

fn with_error(prefix: &str, error: &String) -> (r: String)
    ensures
        r@ == prefix@ + error@,
{
    join2(prefix, error.as_str())
}

fn service_sentence(a: &str, service: ImportService, b: &str, name: &String, c: &str) -> (r: String)
    ensures
        r@ == a@ + service_label(service) + b@ + name@ + c@,
{
    join5(a, service.label(), b, name.as_str(), c)
}

impl App {
    /// Reports a finished configuration write: sets the message that `note` asks for.
    pub fn after_save(&mut self, note: SaveNote, outcome: SaveOutcome)
        requires
            old(self).wf(),
        ensures
            final(self)@ == after_save_step(old(self)@, note@, outcome_error(outcome)),
            final(self).wf(),
    {
        proof {
            reveal_strlit("");
        }
        let message: Option<String> = match note {
            SaveNote::Quiet => None,
            SaveNote::Rescanned { missing } => {
                let save_note: &str = match &outcome {
                    Ok(_) => "",
                    Err(_) => " (could not save)",
                };
                if missing.len() == 0 {
                    Some(join2("Playlists rescanned from disk.", save_note))
                } else {
                    let names = join(&missing, ", ");
                    Some(join3("Playlists rescanned. Missing paths: ", names.as_str(), ".").concat(save_note))
                }
            },
            SaveNote::ClientIdSaved => Some(
                match &outcome {
                    Ok(_) => owned("Spotify Client ID saved."),
                    Err(e) => with_error("Saved for this session, but could not write config: ", e),
                },
            ),
            SaveNote::Disconnected => Some(
                match &outcome {
                    Ok(_) => owned("Disconnected from Spotify."),
                    Err(e) => with_error("Disconnected, but could not save config: ", e),
                },
            ),
            SaveNote::Connected => Some(
                match &outcome {
                    Ok(_) => owned("Connected to Spotify."),
                    Err(e) => with_error("Connected, but could not save config: ", e),
                },
            ),
            SaveNote::RemovedCrate { name } => Some(
                match &outcome {
                    Ok(_) => join3("Removed crate ", name.as_str(), "."),
                    Err(e) => join3("Removed crate ", name.as_str(), ", but could not save config: ").concat(e.as_str()),
                },
            ),
            SaveNote::TagsSaved => Some(
                match &outcome {
                    Ok(_) => owned("Tags saved."),
                    Err(e) => with_error("Tags updated for this session, but could not save config: ", e),
                },
            ),
            SaveNote::CreatedAndLinked { service, name } => Some(
                match &outcome {
                    Ok(_) => join5("Created \"", name.as_str(), "\" and linked it to ", service.label(), "."),
                    Err(e) => with_error("Created the playlist, but could not save config: ", e),
                },
            ),
            SaveNote::LinkedExisting { service, name } => Some(
                match &outcome {
                    Ok(_) => service_sentence("Linked to ", service, " playlist \"", &name, "\"."),
                    Err(e) => with_error("Linked for this session, but could not save config: ", e),
                },
            ),
            SaveNote::Pulled { count, service, name } => {
                let n = decimal_string(count as u64);
                Some(
                    match &outcome {
                        Ok(_) => join3("Pulled ", n.as_str(), " tracks from ").concat(service.label()).concat(
                            " playlist \"",
                        ).concat(name.as_str()).concat("\"."),
                        Err(e) => join3("Pulled ", n.as_str(), " tracks, but could not save config: ").concat(
                            e.as_str(),
                        ),
                    },
                )
            },
            SaveNote::FieldSaved { missing_path, path_changed } => Some(
                match &outcome {
                    Err(e) => with_error("Updated for this session, but could not save config: ", e),
                    Ok(_) => match &missing_path {
                        Some(p) => with_error("Saved, but that path doesn't exist: ", p),
                        None => if path_changed {
                            owned("Saved. Playlists scanned from that path's folders.")
                        } else {
                            join3("Saved. Your crate map is looking lovely. (", self.config_location.as_str(), ")")
                        },
                    },
                },
            ),
        };
        match message {
            Some(m) => {
                self.message = m;
            },
            None => {},
        }
    }
}

} // verus!
