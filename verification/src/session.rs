//! The application's state, the commands it hands to its shell, and the
//! notes that tell it what to report once a command has run.
//!
//! The terminal shell owns everything outside this state (the disk, the
//! network, audio output, background threads). A key press or a finished
//! background job goes in; a new state and one `Command` come out. The shell
//! performs the command and reports its outcome through the matching method,
//! which may in turn give the next command.

use vstd::prelude::*;

use crate::keys::Key;
use crate::model::{crates_view, CrateLocation, CrateView, ImportService, Playlist, PlaylistView, SERVICE_COUNT};
use crate::text::{seq_strings, StrSeq};
use crate::tracks::{
    metadata_view, opt_view, tracks_view, TrackFile, TrackFileView, TrackMetadata, TrackMetadataView,
};

verus! {

/// Which screen is shown.
#[derive(Debug, Clone, Copy, PartialEq, Eq, Structural)]
pub enum Screen {
    Dashboard,
    Config,
    Import,
    Settings,
}

/// The steps of the import dialog.
#[derive(Debug, Clone, Copy, PartialEq, Eq, Structural)]
pub enum ImportStep {
    Service,
    Mode,
    Crate,
    Playlist,
    Name,
}

/// The import dialog.
#[derive(Debug, Clone)]
pub struct ImportState {
    pub step: ImportStep,
    pub service_index: usize,
    pub service: Option<ImportService>,
    pub is_new: Option<bool>,
    pub mode_index: usize,
    pub crate_index: usize,
    pub playlist_index: usize,
    pub name_buffer: String,
    pub name_cursor: usize,
}

pub struct ImportView {
    pub step: ImportStep,
    pub service_index: usize,
    pub service: Option<ImportService>,
    pub is_new: Option<bool>,
    pub mode_index: usize,
    pub crate_index: usize,
    pub playlist_index: usize,
    pub name_buffer: Seq<char>,
    pub name_cursor: usize,
}

impl View for ImportState {
    type V = ImportView;

    open spec fn view(&self) -> ImportView {
        ImportView {
            step: self.step,
            service_index: self.service_index,
            service: self.service,
            is_new: self.is_new,
            mode_index: self.mode_index,
            crate_index: self.crate_index,
            playlist_index: self.playlist_index,
            name_buffer: self.name_buffer@,
            name_cursor: self.name_cursor,
        }
    }
}

/// The dialog as the import key opens it.
pub open spec fn fresh_import() -> ImportView {
    ImportView {
        step: ImportStep::Service,
        service_index: 0,
        service: None,
        is_new: None,
        mode_index: 0,
        crate_index: 0,
        playlist_index: 0,
        name_buffer: Seq::empty(),
        name_cursor: 0,
    }
}

impl ImportState {
    /// The dialog at its first step, with nothing chosen.
    pub fn new() -> (r: ImportState)
        ensures
            r@ == fresh_import(),
    {
        ImportState {
            step: ImportStep::Service,
            service_index: 0,
            service: None,
            is_new: None,
            mode_index: 0,
            crate_index: 0,
            playlist_index: 0,
            name_buffer: String::new(),
            name_cursor: 0,
        }
    }
}

/// A (crate name, playlist name) pair.
pub type NamePair = (Seq<char>, Seq<char>);

/// The tag browser popup.
#[derive(Debug, Clone)]
pub struct TagBrowser {
    pub tags: Vec<String>,
    pub selected: usize,
    pub filter: Option<String>,
    pub matches: Vec<(String, String)>,
    pub match_selected: usize,
}

pub struct TagBrowserView {
    pub tags: StrSeq,
    pub selected: usize,
    pub filter: Option<Seq<char>>,
    pub matches: Seq<NamePair>,
    pub match_selected: usize,
}

/// The views of a list of (crate name, playlist name) pairs.
pub open spec fn pairs_view(v: Seq<(String, String)>) -> Seq<NamePair> {
    v.map_values(|p: (String, String)| (p.0@, p.1@))
}

impl View for TagBrowser {
    type V = TagBrowserView;

    open spec fn view(&self) -> TagBrowserView {
        TagBrowserView {
            tags: seq_strings(self.tags@),
            selected: self.selected,
            filter: opt_view(self.filter),
            matches: pairs_view(self.matches@),
            match_selected: self.match_selected,
        }
    }
}

/// The track list page of one playlist.
#[derive(Debug, Clone)]
pub struct TrackView {
    pub crate_name: String,
    pub playlist: Playlist,
    pub tracks: Vec<TrackFile>,
    pub selected: usize,
    pub metadata: Option<TrackMetadata>,
}

pub struct TrackPageView {
    pub crate_name: Seq<char>,
    pub playlist: PlaylistView,
    pub tracks: Seq<TrackFileView>,
    pub selected: usize,
    pub metadata: Option<TrackMetadataView>,
}

impl View for TrackView {
    type V = TrackPageView;

    open spec fn view(&self) -> TrackPageView {
        TrackPageView {
            crate_name: self.crate_name@,
            playlist: self.playlist@,
            tracks: tracks_view(self.tracks@),
            selected: self.selected,
            metadata: metadata_view(self.metadata),
        }
    }
}

/// An online import in flight: where its result goes.
#[derive(Debug, Clone, Copy, PartialEq, Eq, Structural)]
pub struct PendingImport {
    pub service: ImportService,
    pub crate_index: usize,
    pub playlist_index: usize,
    pub is_new: bool,
}

/// The application state.
pub struct App {
    pub should_quit: bool,
    pub screen: Screen,
    pub selected_crate: usize,
    pub selected_playlist: usize,
    pub config_field: usize,
    pub editing_config: bool,
    pub config_buffer: String,
    pub config_cursor: usize,
    pub editing_tags: bool,
    pub tag_buffer: String,
    pub tag_cursor: usize,
    pub crates: Vec<CrateLocation>,
    pub message: String,
    pub pending_delete: Option<usize>,
    pub tag_browser: Option<TagBrowser>,
    pub import: Option<ImportState>,
    pub tracks: Option<TrackView>,
    pub spotify_client_id: Option<String>,
    pub spotify_refresh_token: Option<String>,
    pub editing_settings: bool,
    pub settings_buffer: String,
    pub settings_cursor: usize,
    /// A Spotify login runs in the background.
    pub login_waiting: bool,
    pub now_playing: Option<usize>,
    pub audio_paused: bool,
    /// An online import runs in the background.
    pub fetch_waiting: bool,
    pub pending_import: Option<PendingImport>,
    /// Where the configuration file lives, as shown to the user.
    pub config_location: String,
}

pub struct AppView {
    pub should_quit: bool,
    pub screen: Screen,
    pub selected_crate: usize,
    pub selected_playlist: usize,
    pub config_field: usize,
    pub editing_config: bool,
    pub config_buffer: Seq<char>,
    pub config_cursor: usize,
    pub editing_tags: bool,
    pub tag_buffer: Seq<char>,
    pub tag_cursor: usize,
    pub crates: Seq<CrateView>,
    pub message: Seq<char>,
    pub pending_delete: Option<usize>,
    pub tag_browser: Option<TagBrowserView>,
    pub import: Option<ImportView>,
    pub tracks: Option<TrackPageView>,
    pub spotify_client_id: Option<Seq<char>>,
    pub spotify_refresh_token: Option<Seq<char>>,
    pub editing_settings: bool,
    pub settings_buffer: Seq<char>,
    pub settings_cursor: usize,
    pub login_waiting: bool,
    pub now_playing: Option<usize>,
    pub audio_paused: bool,
    pub fetch_waiting: bool,
    pub pending_import: Option<PendingImport>,
    pub config_location: Seq<char>,
}

impl View for App {
    type V = AppView;

    open spec fn view(&self) -> AppView {
        AppView {
            should_quit: self.should_quit,
            screen: self.screen,
            selected_crate: self.selected_crate,
            selected_playlist: self.selected_playlist,
            config_field: self.config_field,
            editing_config: self.editing_config,
            config_buffer: self.config_buffer@,
            config_cursor: self.config_cursor,
            editing_tags: self.editing_tags,
            tag_buffer: self.tag_buffer@,
            tag_cursor: self.tag_cursor,
            crates: crates_view(self.crates@),
            message: self.message@,
            pending_delete: self.pending_delete,
            tag_browser: match self.tag_browser {
                Some(b) => Some(b@),
                None => None,
            },
            import: match self.import {
                Some(i) => Some(i@),
                None => None,
            },
            tracks: match self.tracks {
                Some(t) => Some(t@),
                None => None,
            },
            spotify_client_id: opt_view(self.spotify_client_id),
            spotify_refresh_token: opt_view(self.spotify_refresh_token),
            editing_settings: self.editing_settings,
            settings_buffer: self.settings_buffer@,
            settings_cursor: self.settings_cursor,
            login_waiting: self.login_waiting,
            now_playing: self.now_playing,
            audio_paused: self.audio_paused,
            fetch_waiting: self.fetch_waiting,
            pending_import: self.pending_import,
            config_location: self.config_location@,
        }
    }
}

/// The larger of two numbers.
pub open spec fn max_nat(a: int, b: int) -> int {
    if a >= b {
        a
    } else {
        b
    }
}

impl AppView {
    /// The playlists of the selected crate (none when no crate is selected).
    pub open spec fn current_playlists(self) -> Seq<PlaylistView> {
        if self.selected_crate < self.crates.len() {
            self.crates[self.selected_crate as int].playlists
        } else {
            Seq::empty()
        }
    }

    /// The number of rows on the crate details screen: the name and each path.
    pub open spec fn field_count(self) -> int {
        if self.selected_crate < self.crates.len() {
            1 + self.crates[self.selected_crate as int].locations.len() as int
        } else {
            1
        }
    }

    /// The state invariant: what every key and every completion keeps.
    pub open spec fn wf(self) -> bool {
        &&& self.crates.len() > 0 ==> self.selected_crate < self.crates.len()
        &&& (self.screen == Screen::Config && self.crates.len() > 0) ==> self.config_field
            <= max_nat(1, self.crates[self.selected_crate as int].locations.len() as int)
        &&& self.import matches Some(i) ==> {
            &&& i.service_index < SERVICE_COUNT
            &&& i.mode_index < 2
            &&& i.name_cursor <= i.name_buffer.len()
        }
        &&& self.tag_browser matches Some(b) ==> b.tags.len() > 0
        &&& self.editing_settings ==> self.settings_cursor <= self.settings_buffer.len()
        &&& self.editing_tags ==> self.tag_cursor <= self.tag_buffer.len()
        &&& self.editing_config ==> self.config_cursor <= self.config_buffer.len()
    }
}

impl App {
    /// The state invariant.
    pub open spec fn wf(&self) -> bool {
        self@.wf()
    }
}

} // verus!
