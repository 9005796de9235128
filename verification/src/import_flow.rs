//! The import dialog (choose a service, new or existing playlist, a crate, a
//! playlist, then a name or link) and what happens once a fetch comes back.

use vstd::prelude::*;

use crate::catalog::{merge_playlists, merge_view, find_nocase, position_nocase};
use crate::commands::{
    Command, CommandView, FetchJob, FetchJobView, ImportJob, ImportJobView, ImportedPlaylist, ImportedTrack,
    ImportedTrackView, LinkJob, LinkJobView, SaveNote, SaveNoteView, imported_view,
};
use crate::keys::{edit_line, is_edit_key, line_edit, line_key_ok, wrap_index, wrap_ok, wrap_spec, Key};
use crate::model::{
    crates_view, playlists_view, service_at, service_label, CrateView, ImportService, Playlist, PlaylistLink,
    PlaylistLinkView, PlaylistView, SERVICE_COUNT,
};
use crate::session::{App, AppView, ImportStep, ImportView, PendingImport, Screen};
use crate::text::{join2, join3, lowercase, owned, to_lowercase, trim, trimmed};
use crate::tracks::opt_view;

verus! {

/// What a background playlist fetch reports.
#[derive(Debug)]
pub enum FetchOutcome {
    Fetched(ImportedPlaylist),
    Failed(String),
    /// The fetch thread ended without reporting.
    Crashed,
}

pub struct FetchedView {
    pub name: Seq<char>,
    pub tracks: Seq<ImportedTrackView>,
    pub spotify_refresh_token: Option<Seq<char>>,
}

pub enum FetchOutcomeView {
    Fetched(FetchedView),
    Failed(Seq<char>),
    Crashed,
}

impl View for FetchOutcome {
    type V = FetchOutcomeView;

    open spec fn view(&self) -> FetchOutcomeView {
        match self {
            FetchOutcome::Fetched(p) => FetchOutcomeView::Fetched(
                FetchedView {
                    name: p.name@,
                    tracks: imported_view(p.tracks@),
                    spotify_refresh_token: opt_view(p.spotify_refresh_token),
                },
            ),
            FetchOutcome::Failed(e) => FetchOutcomeView::Failed(e@),
            FetchOutcome::Crashed => FetchOutcomeView::Crashed,
        }
    }
}

/// Arrow keys can move within the current step without overflow.
pub open spec fn move_ok(s: AppView, i: ImportView, delta: i32) -> bool {
    match i.step {
        ImportStep::Service => wrap_ok(i.service_index, delta, SERVICE_COUNT),
        ImportStep::Mode => wrap_ok(i.mode_index, delta, 2),
        ImportStep::Crate => s.crates.len() == 0 || wrap_ok(i.crate_index, delta, s.crates.len() as usize),
        ImportStep::Playlist => import_playlist_count(s, i) == 0 || wrap_ok(
            i.playlist_index,
            delta,
            import_playlist_count(s, i) as usize,
        ),
        ImportStep::Name => true,
    }
}

/// The number of playlists of the crate chosen in the dialog.
pub open spec fn import_playlist_count(s: AppView, i: ImportView) -> int {
    if i.crate_index < s.crates.len() {
        s.crates[i.crate_index as int].playlists.len() as int
    } else {
        0
    }
}

/// The dialog after moving `delta` rows in the current step.
#[verifier::opaque]
pub open spec fn move_step(s: AppView, i: ImportView, delta: i32) -> ImportView {
    match i.step {
        ImportStep::Service => ImportView { service_index: wrap_spec(i.service_index, delta, SERVICE_COUNT), ..i },
        ImportStep::Mode => ImportView { mode_index: wrap_spec(i.mode_index, delta, 2), ..i },
        ImportStep::Crate => if s.crates.len() > 0 {
            ImportView { crate_index: wrap_spec(i.crate_index, delta, s.crates.len() as usize), ..i }
        } else {
            i
        },
        ImportStep::Playlist => if import_playlist_count(s, i) > 0 {
            ImportView {
                playlist_index: wrap_spec(i.playlist_index, delta, import_playlist_count(s, i) as usize),
                ..i
            }
        } else {
            i
        },
        ImportStep::Name => i,
    }
}

/// Confirming the current step with Enter.
#[verifier::opaque]
pub open spec fn confirm_step(s: AppView, i: ImportView) -> AppView {
    match i.step {
        ImportStep::Service => AppView {
            import: Some(ImportView { service: Some(service_at(i.service_index as int)), step: ImportStep::Mode, ..i }),
            ..s
        },
        ImportStep::Mode => AppView {
            import: Some(ImportView { is_new: Some(i.mode_index == 0), crate_index: 0, step: ImportStep::Crate, ..i }),
            ..s
        },
        ImportStep::Crate => if s.crates.len() == 0 {
            AppView { message: "No crates yet. Press c, then n to add one first."@, ..s }
        } else if i.is_new == Some(true) {
            AppView {
                import: Some(ImportView { name_buffer: Seq::empty(), name_cursor: 0, step: ImportStep::Name, ..i }),
                ..s
            }
        } else if import_playlist_count(s, i) == 0 {
            AppView { message: "That crate has no playlists to link yet."@, ..s }
        } else {
            AppView { import: Some(ImportView { playlist_index: 0, step: ImportStep::Playlist, ..i }), ..s }
        },
        ImportStep::Playlist => AppView {
            import: Some(ImportView { name_buffer: Seq::empty(), name_cursor: 0, step: ImportStep::Name, ..i }),
            ..s
        },
        ImportStep::Name => s,
    }
}

/// Starting an online import: the fetch runs in the background and the
/// dashboard shows while it does.
#[verifier::opaque]
pub open spec fn online_start(
    s: AppView,
    service: ImportService,
    crate_index: usize,
    playlist_index: usize,
    is_new: bool,
    link: Seq<char>,
) -> (AppView, CommandView) {
    let t = AppView {
        message: "Fetching tracks from "@ + service_label(service) + "\u{2026} (up to 2 min \u{2014} Esc to cancel)"@,
        screen: Screen::Dashboard,
        pending_import: Some(PendingImport { service, crate_index, playlist_index, is_new }),
        ..s
    };
    match service {
        ImportService::Spotify => match s.spotify_client_id {
            None => (
                AppView { message: "Set a Spotify Client ID in Settings (s) first."@, pending_import: None, ..t },
                CommandView::Nothing,
            ),
            Some(id) => (
                AppView { fetch_waiting: true, ..t },
                CommandView::FetchPlaylist(
                    FetchJobView {
                        service,
                        link,
                        client_id: Some(id),
                        refresh_token: s.spotify_refresh_token,
                    },
                ),
            ),
        },
        ImportService::SoundCloud => (
            AppView { fetch_waiting: true, ..t },
            CommandView::FetchPlaylist(FetchJobView { service, link, client_id: None, refresh_token: None }),
        ),
        ImportService::Tidal => (
            AppView {
                message: "Import failed: Tidal import isn't implemented yet."@,
                pending_import: None,
                ..t
            },
            CommandView::Nothing,
        ),
    }
}

/// The playlists of a crate with the first one named `name` (ignoring ASCII case)
/// linked as `link`.
pub open spec fn link_named(ps: Seq<PlaylistView>, name: Seq<char>, link: PlaylistLinkView) -> Seq<PlaylistView> {
    match find_nocase(ps, name) {
        Some(k) => ps.update(k, PlaylistView { link: Some(link), ..ps[k] }),
        None => ps,
    }
}

/// Enter on the name step. The dialog only records links locally, whatever
/// the service: a new playlist gets its folder (named after the trimmed text)
/// and is linked by the shell's `after_create_folder`; an existing playlist is
/// linked at once (service and trimmed text). No service is contacted.
#[verifier::opaque]
pub open spec fn finalize_step(s: AppView, i: ImportView) -> (AppView, CommandView) {
    let is_new = match i.is_new {
        Some(b) => b,
        None => true,
    };
    let online = (i.service == Some(ImportService::Spotify) || i.service == Some(ImportService::SoundCloud)) && !is_new;
    let name = trimmed(i.name_buffer);
    if name.len() == 0 {
        (
            AppView {
                message: if online { "Paste a playlist link."@ } else { "Playlist name can't be empty."@ },
                ..s
            },
            CommandView::Nothing,
        )
    } else if i.service is None {
        (AppView { import: None, ..s }, CommandView::Nothing)
    } else {
        let service = i.service.unwrap();
        let t = AppView { import: None, ..s };
        if is_new {
            if i.crate_index >= s.crates.len() {
                (AppView { screen: Screen::Dashboard, ..t }, CommandView::Nothing)
            } else if s.crates[i.crate_index as int].locations.len() == 0 {
                (
                    AppView { message: "That crate has no paths yet."@, screen: Screen::Dashboard, ..t },
                    CommandView::Nothing,
                )
            } else {
                (
                    t,
                    CommandView::CreateFolder(
                        LinkJobView {
                            crate_index: i.crate_index,
                            base: s.crates[i.crate_index as int].locations[0].path,
                            name: name,
                            service: service,
                        },
                    ),
                )
            }
        } else {
            let link = PlaylistLinkView { service: service, external_name: name, source_url: None };
            let crates = if i.crate_index < s.crates.len() && i.playlist_index
                < s.crates[i.crate_index as int].playlists.len() {
                let c = s.crates[i.crate_index as int];
                s.crates.update(
                    i.crate_index as int,
                    CrateView {
                        playlists: c.playlists.update(
                            i.playlist_index as int,
                            PlaylistView { link: Some(link), ..c.playlists[i.playlist_index as int] },
                        ),
                        ..c
                    },
                )
            } else {
                s.crates
            };
            (
                AppView { crates: crates, screen: Screen::Dashboard, ..t },
                CommandView::Save(SaveNoteView::LinkedExisting { service: service, name: name }),
            )
        }
    }
}

/// Linking an existing playlist only records the link: confirming the name
/// step of the dialog for an existing playlist, with a name that is not blank,
/// sets the chosen playlist's link to the service and the trimmed text, closes
/// the dialog, goes back to the dashboard and asks for a save. No fetch is
/// started, whatever the service.
pub proof fn lemma_linking_existing_records_locally(s: AppView, i: ImportView)
    requires
        s.import == Some(i),
        i.step == ImportStep::Name,
        i.is_new == Some(false),
        i.service is Some,
        trimmed(i.name_buffer).len() > 0,
        i.crate_index < s.crates.len(),
        i.playlist_index < s.crates[i.crate_index as int].playlists.len(),
    ensures
        ({
            let (t, cmd) = import_step(s, Key::Enter);
            &&& t.crates[i.crate_index as int].playlists[i.playlist_index as int].link == Some(
                PlaylistLinkView { service: i.service.unwrap(), external_name: trimmed(i.name_buffer), source_url: None },
            )
            &&& t.crates.len() == s.crates.len()
            &&& t.import is None
            &&& t.screen == Screen::Dashboard
            &&& t.pending_import == s.pending_import
            &&& cmd == CommandView::Save(
                SaveNoteView::LinkedExisting { service: i.service.unwrap(), name: trimmed(i.name_buffer) },
            )
        }),
{
    reveal(finalize_step);
}

/// Import only records links locally: no key of the import dialog starts a
/// fetch from a service, and confirming a new playlist with a name that is not
/// blank, in a crate with a path, asks the shell to create its folder under
/// the crate's first path and link it, whatever the service.
pub proof fn lemma_import_records_links_only(s: AppView, key: Key)
    ensures
        !(import_step(s, key).1 is FetchPlaylist),
        ({
            let i = s.import.unwrap();
            (s.import is Some && i.step == ImportStep::Name && key == Key::Enter && i.is_new == Some(true)
                && i.service is Some && trimmed(i.name_buffer).len() > 0 && i.crate_index < s.crates.len()
                && s.crates[i.crate_index as int].locations.len() > 0) ==> {
                &&& import_step(s, key).1 == CommandView::CreateFolder(
                    LinkJobView {
                        crate_index: i.crate_index,
                        base: s.crates[i.crate_index as int].locations[0].path,
                        name: trimmed(i.name_buffer),
                        service: i.service.unwrap(),
                    },
                )
                &&& import_step(s, key).0.import is None
            }
        }),
{
    reveal(finalize_step);
}

/// The import screen after `key`, and what the shell must do.
pub open spec fn import_step(s: AppView, key: Key) -> (AppView, CommandView) {
    match s.import {
        None => (s, CommandView::Nothing),
        Some(i) => if i.step == ImportStep::Name {
            match key {
                Key::Enter => finalize_step(s, i),
                Key::Esc => (
                    AppView {
                        import: Some(
                            ImportView {
                                step: if i.is_new == Some(true) { ImportStep::Crate } else { ImportStep::Playlist },
                                ..i
                            },
                        ),
                        ..s
                    },
                    CommandView::Nothing,
                ),
                _ => if is_edit_key(key) {
                    let (b, c) = line_edit(i.name_buffer, i.name_cursor, key);
                    (AppView { import: Some(ImportView { name_buffer: b, name_cursor: c, ..i }), ..s }, CommandView::Nothing)
                } else {
                    (s, CommandView::Nothing)
                },
            }
        } else {
            match key {
                Key::Char('q') => (AppView { should_quit: true, ..s }, CommandView::Nothing),
                Key::Esc => match i.step {
                    ImportStep::Service => (
                        AppView { import: None, screen: Screen::Dashboard, message: "Import cancelled."@, ..s },
                        CommandView::Nothing,
                    ),
                    ImportStep::Mode => (
                        AppView { import: Some(ImportView { step: ImportStep::Service, ..i }), ..s },
                        CommandView::Nothing,
                    ),
                    ImportStep::Crate => (
                        AppView { import: Some(ImportView { step: ImportStep::Mode, ..i }), ..s },
                        CommandView::Nothing,
                    ),
                    _ => (
                        AppView { import: Some(ImportView { step: ImportStep::Crate, ..i }), ..s },
                        CommandView::Nothing,
                    ),
                },
                Key::Up | Key::Char('k') => (AppView { import: Some(move_step(s, i, -1i32)), ..s }, CommandView::Nothing),
                Key::Down | Key::Char('j') => (AppView { import: Some(move_step(s, i, 1i32)), ..s }, CommandView::Nothing),
                Key::Enter => (confirm_step(s, i), CommandView::Nothing),
                _ => (s, CommandView::Nothing),
            }
        },
    }
}

/// The keys of the import screen can be handled without overflow.
pub open spec fn import_key_ok(s: AppView, key: Key) -> bool {
    match s.import {
        None => true,
        Some(i) => if i.step == ImportStep::Name {
            line_key_ok(i.name_buffer, i.name_cursor, key)
        } else {
            &&& (key == Key::Up || key == Key::Char('k')) ==> move_ok(s, i, -1i32)
            &&& (key == Key::Down || key == Key::Char('j')) ==> move_ok(s, i, 1i32)
        },
    }
}

/// The name of the manifest an import writes, such as `spotify-tracks.json`.
pub open spec fn manifest_file_name(service: ImportService) -> Seq<char> {
    lowercase(service_label(service)) + "-tracks.json"@
}

/// Applying a fetched playlist: record a new refresh token, then write its folder
/// and manifest into the chosen crate.
#[verifier::opaque]
pub open spec fn apply_fetched(s: AppView, p: PendingImport, r: FetchedView) -> (AppView, CommandView) {
    let t = AppView {
        spotify_refresh_token: match r.spotify_refresh_token {
            Some(tok) => Some(tok),
            None => s.spotify_refresh_token,
        },
        ..s
    };
    let folder = if p.is_new {
        r.name
    } else if p.crate_index < s.crates.len() && p.playlist_index < s.crates[p.crate_index as int].playlists.len() {
        s.crates[p.crate_index as int].playlists[p.playlist_index as int].name
    } else {
        r.name
    };
    if p.crate_index < s.crates.len() {
        if s.crates[p.crate_index as int].locations.len() > 0 {
            (
                t,
                CommandView::WriteImport(
                    ImportJobView {
                        crate_index: p.crate_index,
                        base: s.crates[p.crate_index as int].locations[0].path,
                        folder: folder,
                        manifest_name: manifest_file_name(p.service),
                        service: p.service,
                        external_name: r.name,
                        tracks: r.tracks,
                    },
                ),
            )
        } else {
            (AppView { message: "That crate has no paths yet."@, ..t }, CommandView::Nothing)
        }
    } else {
        (t, CommandView::Save(SaveNoteView::Pulled { count: r.tracks.len() as usize, service: p.service, name: r.name }))
    }
}

/// The state once the background fetch has reported.
pub open spec fn fetch_result_step(s: AppView, outcome: FetchOutcomeView) -> (AppView, CommandView) {
    if !s.fetch_waiting {
        (s, CommandView::Nothing)
    } else {
        match outcome {
            FetchOutcomeView::Fetched(r) => match s.pending_import {
                Some(p) => apply_fetched(AppView { fetch_waiting: false, pending_import: None, ..s }, p, r),
                None => (AppView { fetch_waiting: false, ..s }, CommandView::Nothing),
            },
            FetchOutcomeView::Failed(e) => (
                AppView { fetch_waiting: false, pending_import: None, message: "Import failed: "@ + e, ..s },
                CommandView::Nothing,
            ),
            FetchOutcomeView::Crashed => (
                AppView {
                    fetch_waiting: false,
                    pending_import: None,
                    message: "Import thread crashed unexpectedly."@,
                    ..s
                },
                CommandView::Nothing,
            ),
        }
    }
}

/// A crate's playlists after a fresh scan, with the playlist named `name` linked.
pub open spec fn relinked(s: AppView, crate_index: int, scanned: Seq<PlaylistView>, name: Seq<char>, link: PlaylistLinkView) -> Seq<CrateView> {
    let c = s.crates[crate_index];
    s.crates.update(crate_index, CrateView { playlists: link_named(merge_view(c.playlists, scanned), name, link), ..c })
}

impl App {
    /// Merges a fresh scan of one crate and links its playlist named `name`.
    fn relink_crate(&mut self, crate_index: usize, scanned: Vec<Playlist>, name: &String, link: PlaylistLink)
        requires
            crate_index < old(self).crates.len(),
        ensures
            final(self)@ == (AppView {
                crates: relinked(old(self)@, crate_index as int, playlists_view(scanned@), name@, link@),
                ..old(self)@
            }),
    {
        let ghost s = self@;
        let merged = merge_playlists(&self.crates[crate_index].playlists, scanned);
        let ghost mv = playlists_view(merged@);
        let mut merged = merged;
        match position_nocase(&merged, name) {
            Some(k) => {
                merged[k].link = Some(link);
                assert(playlists_view(merged@) =~= mv.update(k as int, PlaylistView { link: Some(link@), ..mv[k as int] }));
            },
            None => {},
        }
        let ghost before = self.crates@;
        assert(crates_view(before)[crate_index as int] == before[crate_index as int]@);
        self.crates[crate_index].playlists = merged;
        assert(crates_view(self.crates@) =~= relinked(s, crate_index as int, playlists_view(scanned@), name@, link@));
    }

    /// Starts reading a Spotify or SoundCloud playlist in the background, its
    /// result to go to playlist `playlist_index` of crate `crate_index` (or to a
    /// new playlist); the shell answers with `on_import_fetched`. The import
    /// dialog itself never starts one: it only records links.
    pub fn start_online_import(
        &mut self,
        service: ImportService,
        crate_index: usize,
        playlist_index: usize,
        is_new: bool,
        link: String,
    ) -> (cmd: Command)
        requires
            old(self).wf(),
        ensures
            final(self).wf(),
            (final(self)@, cmd@) == online_start(old(self)@, service, crate_index, playlist_index, is_new, link@),
    {
        reveal(online_start);
        self.message = join3("Fetching tracks from ", service.label(), "\u{2026} (up to 2 min \u{2014} Esc to cancel)");
        self.screen = Screen::Dashboard;
        self.pending_import = Some(PendingImport { service, crate_index, playlist_index, is_new });
        match service {
            ImportService::Spotify => {
                let client_id = match &self.spotify_client_id {
                    Some(id) => id.clone(),
                    None => {
                        self.message = owned("Set a Spotify Client ID in Settings (s) first.");
                        self.pending_import = None;
                        return Command::Nothing;
                    },
                };
                let refresh_token = match &self.spotify_refresh_token {
                    Some(t) => Some(t.clone()),
                    None => None,
                };
                self.fetch_waiting = true;
                Command::FetchPlaylist(FetchJob { service, link, client_id: Some(client_id), refresh_token })
            },
            ImportService::SoundCloud => {
                self.fetch_waiting = true;
                Command::FetchPlaylist(FetchJob { service, link, client_id: None, refresh_token: None })
            },
            ImportService::Tidal => {
                self.message = owned("Import failed: Tidal import isn't implemented yet.");
                self.pending_import = None;
                Command::Nothing
            },
        }
    }

    #[verifier::rlimit(80)]
    #[verifier::spinoff_prover]
    fn finalize_import(&mut self) -> (cmd: Command)
        requires
            old(self).wf(),
            old(self).import is Some,
        ensures
            (final(self)@, cmd@) == finalize_step(old(self)@, old(self)@.import.unwrap()),
            final(self).wf(),
    {
        reveal(finalize_step);
        let ghost s = self@;
        let current = self.import.as_ref().unwrap();
        let is_new = match current.is_new {
            Some(b) => b,
            None => true,
        };
        let online = match current.service {
            Some(ImportService::Spotify) => !is_new,
            Some(ImportService::SoundCloud) => !is_new,
            _ => false,
        };
        let name = trim(current.name_buffer.as_str());
        let crate_index = current.crate_index;
        let playlist_index = current.playlist_index;
        let service = current.service;
        if name.as_str().is_empty() {
            self.message = if online { owned("Paste a playlist link.") } else { owned("Playlist name can't be empty.") };
            return Command::Nothing;
        }
        self.import = None;
        let service = match service {
            Some(svc) => svc,
            None => return Command::Nothing,
        };
        if is_new {
            if crate_index >= self.crates.len() {
                self.screen = Screen::Dashboard;
                return Command::Nothing;
            }
            if self.crates[crate_index].locations.len() == 0 {
                self.message = owned("That crate has no paths yet.");
                self.screen = Screen::Dashboard;
                return Command::Nothing;
            }
            let base = self.crates[crate_index].locations[0].path.clone();
            assert(s.crates[crate_index as int] == self.crates@[crate_index as int]@);
            assert(s.crates[crate_index as int].locations[0] == self.crates@[crate_index as int].locations@[0]@);
            return Command::CreateFolder(LinkJob { crate_index, base, name, service });
        }
        let link = PlaylistLink { service, external_name: name.clone(), source_url: None };
        if crate_index < self.crates.len() && playlist_index < self.crates[crate_index].playlists.len() {
            let ghost before = self.crates@;
            assert(crates_view(before)[crate_index as int] == before[crate_index as int]@);
            assert(before[crate_index as int]@.playlists[playlist_index as int]
                == before[crate_index as int].playlists@[playlist_index as int]@);
            self.crates[crate_index].playlists[playlist_index].link = Some(link);
            assert(crates_view(self.crates@) =~= crates_view(before).update(
                crate_index as int,
                self.crates@[crate_index as int]@,
            ));
            assert(self.crates@[crate_index as int]@.playlists =~= s.crates[crate_index as int].playlists.update(
                playlist_index as int,
                PlaylistView { link: Some(link@), ..s.crates[crate_index as int].playlists[playlist_index as int] },
            ));
        }
        self.screen = Screen::Dashboard;
        Command::Save(SaveNote::LinkedExisting { service, name })
    }

    /// Handles a key on the import screen.
    pub fn handle_import_key(&mut self, key: Key) -> (cmd: Command)
        requires
            old(self).wf(),
            old(self).screen == Screen::Import,
            import_key_ok(old(self)@, key),
        ensures
            (final(self)@, cmd@) == import_step(old(self)@, key),
            final(self).wf(),
    {
        let is_name_step = match &self.import {
            None => return Command::Nothing,
            Some(i) => i.step == ImportStep::Name,
        };
        if is_name_step {
            self.handle_import_name_key(key)
        } else {
            self.handle_import_list_key(key)
        }
    }

    #[verifier::rlimit(40)]
    fn handle_import_name_key(&mut self, key: Key) -> (cmd: Command)
        requires
            old(self).wf(),
            old(self).screen == Screen::Import,
            old(self).import is Some,
            old(self)@.import.unwrap().step == ImportStep::Name,
            import_key_ok(old(self)@, key),
        ensures
            (final(self)@, cmd@) == import_step(old(self)@, key),
            final(self).wf(),
    {
        if key == Key::Enter {
            return self.finalize_import();
        }
        let import = self.import.as_mut().unwrap();
        match key {
            Key::Esc => {
                import.step = if import.is_new == Some(true) { ImportStep::Crate } else { ImportStep::Playlist };
            },
            _ => {
                edit_line(&mut import.name_buffer, &mut import.name_cursor, key);
            },
        }
        Command::Nothing
    }

    #[verifier::rlimit(40)]
    fn handle_import_list_key(&mut self, key: Key) -> (cmd: Command)
        requires
            old(self).wf(),
            old(self).screen == Screen::Import,
            old(self).import is Some,
            old(self)@.import.unwrap().step != ImportStep::Name,
            import_key_ok(old(self)@, key),
        ensures
            (final(self)@, cmd@) == import_step(old(self)@, key),
            final(self).wf(),
    {
        match key {
            Key::Char('q') => {
                self.should_quit = true;
                Command::Nothing
            },
            Key::Esc => {
                let import = self.import.as_mut().unwrap();
                match import.step {
                    ImportStep::Service => {
                        self.import = None;
                        self.screen = Screen::Dashboard;
                        self.message = owned("Import cancelled.");
                    },
                    ImportStep::Mode => import.step = ImportStep::Service,
                    ImportStep::Crate => import.step = ImportStep::Mode,
                    _ => import.step = ImportStep::Crate,
                }
                Command::Nothing
            },
            Key::Up | Key::Char('k') => {
                self.import_move(-1);
                Command::Nothing
            },
            Key::Down | Key::Char('j') => {
                self.import_move(1);
                Command::Nothing
            },
            Key::Enter => {
                self.import_confirm_step();
                Command::Nothing
            },
            _ => Command::Nothing,
        }
    }

    fn import_move(&mut self, delta: i32)
        requires
            old(self).wf(),
            old(self).import is Some,
            old(self)@.import.unwrap().step != ImportStep::Name,
            move_ok(old(self)@, old(self)@.import.unwrap(), delta),
        ensures
            final(self)@ == (AppView { import: Some(move_step(old(self)@, old(self)@.import.unwrap(), delta)), ..old(self)@ }),
            final(self).wf(),
    {
        reveal(move_step);
        let ncrates = self.crates.len();
        let count = match &self.import {
            Some(i) => if i.crate_index < self.crates.len() {
                self.crates[i.crate_index].playlists.len()
            } else {
                0
            },
            None => 0,
        };
        let import = self.import.as_mut().unwrap();
        match import.step {
            ImportStep::Service => {
                import.service_index = wrap_index(import.service_index, delta, SERVICE_COUNT);
            },
            ImportStep::Mode => {
                import.mode_index = wrap_index(import.mode_index, delta, 2);
            },
            ImportStep::Crate => {
                if ncrates > 0 {
                    import.crate_index = wrap_index(import.crate_index, delta, ncrates);
                }
            },
            ImportStep::Playlist => {
                if count > 0 {
                    import.playlist_index = wrap_index(import.playlist_index, delta, count);
                }
            },
            ImportStep::Name => {},
        }
    }

    fn import_confirm_step(&mut self)
        requires
            old(self).wf(),
            old(self).import is Some,
            old(self)@.import.unwrap().service_index < SERVICE_COUNT,
        ensures
            final(self)@ == confirm_step(old(self)@, old(self)@.import.unwrap()),
            final(self).wf(),
    {
        reveal(confirm_step);
        let ncrates = self.crates.len();
        let count = match &self.import {
            Some(i) => if i.crate_index < self.crates.len() {
                self.crates[i.crate_index].playlists.len()
            } else {
                0
            },
            None => 0,
        };
        let import = self.import.as_mut().unwrap();
        match import.step {
            ImportStep::Service => {
                import.service = Some(ImportService::at(import.service_index));
                import.step = ImportStep::Mode;
            },
            ImportStep::Mode => {
                import.is_new = Some(import.mode_index == 0);
                import.crate_index = 0;
                import.step = ImportStep::Crate;
            },
            ImportStep::Crate => {
                if ncrates == 0 {
                    self.message = owned("No crates yet. Press c, then n to add one first.");
                    return;
                }
                if import.is_new == Some(true) {
                    import.name_buffer = String::new();
                    import.name_cursor = 0;
                    import.step = ImportStep::Name;
                } else {
                    if count == 0 {
                        self.message = owned("That crate has no playlists to link yet.");
                        return;
                    }
                    import.playlist_index = 0;
                    import.step = ImportStep::Playlist;
                }
            },
            ImportStep::Playlist => {
                import.name_buffer = String::new();
                import.name_cursor = 0;
                import.step = ImportStep::Name;
            },
            ImportStep::Name => {},
        }
    }

    /// Reports the outcome of creating a new playlist's folder: on success, the
    /// crate is rescanned (`scanned`) and the new playlist linked, then saved.
    pub fn after_create_folder(&mut self, job: LinkJob, created: Result<(), String>, scanned: Vec<Playlist>) -> (cmd: Command)
        requires
            old(self).wf(),
            job.crate_index < old(self).crates.len(),
        ensures
            match created {
                Err(e) => final(self)@ == (AppView {
                    message: "Could not create playlist folder: "@ + e@,
                    screen: Screen::Dashboard,
                    ..old(self)@
                }) && cmd@ == CommandView::Nothing,
                Ok(_) => final(self)@ == (AppView {
                    crates: relinked(
                        old(self)@,
                        job.crate_index as int,
                        playlists_view(scanned@),
                        job.name@,
                        PlaylistLinkView { service: job.service, external_name: job.name@, source_url: None },
                    ),
                    screen: Screen::Dashboard,
                    ..old(self)@
                }) && cmd@ == CommandView::Save(SaveNoteView::CreatedAndLinked { service: job.service, name: job.name@ }),
            },
            final(self).wf(),
    {
        match created {
            Err(e) => {
                self.message = join2("Could not create playlist folder: ", e.as_str());
                self.screen = Screen::Dashboard;
                Command::Nothing
            },
            Ok(_) => {
                let link = PlaylistLink { service: job.service, external_name: job.name.clone(), source_url: None };
                self.relink_crate(job.crate_index, scanned, &job.name, link);
                self.screen = Screen::Dashboard;
                Command::Save(SaveNote::CreatedAndLinked { service: job.service, name: job.name })
            },
        }
    }

    /// Reports the outcome of the background playlist fetch.
    pub fn on_import_fetched(&mut self, outcome: FetchOutcome) -> (cmd: Command)
        requires
            old(self).wf(),
        ensures
            (final(self)@, cmd@) == fetch_result_step(old(self)@, outcome@),
            final(self).wf(),
    {
        if !self.fetch_waiting {
            return Command::Nothing;
        }
        match outcome {
            FetchOutcome::Fetched(result) => {
                self.fetch_waiting = false;
                match self.pending_import {
                    Some(p) => {
                        self.pending_import = None;
                        self.apply_fetched(p, result)
                    },
                    None => Command::Nothing,
                }
            },
            FetchOutcome::Failed(e) => {
                self.fetch_waiting = false;
                self.pending_import = None;
                self.message = join2("Import failed: ", e.as_str());
                Command::Nothing
            },
            FetchOutcome::Crashed => {
                self.fetch_waiting = false;
                self.pending_import = None;
                self.message = owned("Import thread crashed unexpectedly.");
                Command::Nothing
            },
        }
    }

    #[verifier::rlimit(80)]
    #[verifier::spinoff_prover]
    fn apply_fetched(&mut self, p: PendingImport, result: ImportedPlaylist) -> (cmd: Command)
        requires
            old(self).wf(),
        ensures
            final(self).wf(),
            (final(self)@, cmd@) == apply_fetched(
                old(self)@,
                p,
                FetchedView {
                    name: result.name@,
                    tracks: imported_view(result.tracks@),
                    spotify_refresh_token: opt_view(result.spotify_refresh_token),
                },
            ),
    {
        reveal(apply_fetched);
        let ghost s = self@;
        match &result.spotify_refresh_token {
            Some(t) => {
                self.spotify_refresh_token = Some(t.clone());
            },
            None => {},
        }
        let folder = if p.is_new {
            result.name.clone()
        } else if p.crate_index < self.crates.len() && p.playlist_index < self.crates[p.crate_index].playlists.len() {
            assert(s.crates[p.crate_index as int] == self.crates@[p.crate_index as int]@);
            assert(s.crates[p.crate_index as int].playlists[p.playlist_index as int]
                == self.crates@[p.crate_index as int].playlists@[p.playlist_index as int]@);
            self.crates[p.crate_index].playlists[p.playlist_index].name.clone()
        } else {
            result.name.clone()
        };
        if p.crate_index < self.crates.len() {
            if self.crates[p.crate_index].locations.len() > 0 {
                assert(s.crates[p.crate_index as int] == self.crates@[p.crate_index as int]@);
                assert(s.crates[p.crate_index as int].locations[0] == self.crates@[p.crate_index as int].locations@[0]@);
                let base = self.crates[p.crate_index].locations[0].path.clone();
                let manifest_name = to_lowercase(p.service.label()).concat("-tracks.json");
                Command::WriteImport(
                    ImportJob {
                        crate_index: p.crate_index,
                        base,
                        folder,
                        manifest_name,
                        service: p.service,
                        external_name: result.name,
                        tracks: result.tracks,
                    },
                )
            } else {
                self.message = owned("That crate has no paths yet.");
                Command::Nothing
            }
        } else {
            let count = result.tracks.len();
            Command::Save(SaveNote::Pulled { count, service: p.service, name: result.name })
        }
    }

    /// Reports the outcome of writing a fetched playlist's folder: on success the
    /// crate is rescanned (`scanned`), the playlist linked, then saved.
    pub fn after_write_import(&mut self, job: ImportJob, created: Result<(), String>, scanned: Vec<Playlist>) -> (cmd: Command)
        requires
            old(self).wf(),
            job.crate_index < old(self).crates.len(),
        ensures
            match created {
                Err(e) => final(self)@ == (AppView { message: "Could not create playlist folder: "@ + e@, ..old(self)@ })
                    && cmd@ == CommandView::Nothing,
                Ok(_) => final(self)@ == (AppView {
                    crates: relinked(
                        old(self)@,
                        job.crate_index as int,
                        playlists_view(scanned@),
                        job.folder@,
                        PlaylistLinkView { service: job.service, external_name: job.external_name@, source_url: None },
                    ),
                    ..old(self)@
                }) && cmd@ == CommandView::Save(
                    SaveNoteView::Pulled { count: job.tracks.len(), service: job.service, name: job.external_name@ },
                ),
            },
            final(self).wf(),
    {
        match created {
            Err(e) => {
                self.message = join2("Could not create playlist folder: ", e.as_str());
                Command::Nothing
            },
            Ok(_) => {
                let link = PlaylistLink {
                    service: job.service,
                    external_name: job.external_name.clone(),
                    source_url: None,
                };
                self.relink_crate(job.crate_index, scanned, &job.folder, link);
                Command::Save(SaveNote::Pulled { count: job.tracks.len(), service: job.service, name: job.external_name })
            },
        }
    }
}

} // verus!
