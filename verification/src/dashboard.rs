//! The dashboard: moving between crates and playlists, and the keys that open
//! the other screens, the tag editor and the tag browser.

use vstd::prelude::*;

use crate::catalog::{exists_view, refresh_availability, rescan_playlists, scans_view, shaped_like, with_availability, with_scans};
use crate::commands::{Command, CommandView, SaveNote, SaveNoteView};
use crate::keys::Key;
use crate::model::{crates_view, new_crate_view, CrateLocation, CrateView, Playlist, PlaylistView};
use crate::order::{insert_distinct, sorted_distinct};
use crate::session::{fresh_import, App, AppView, ImportState, Screen, TagBrowser, TagBrowserView, TrackView, TrackPageView};
use crate::text::{char_count, join, joined, owned, seq_strings, StrSeq};
use crate::tracks::{tracks_view, TrackFile};

verus! {

/// The tags of the playlists, playlist after playlist.
pub open spec fn playlist_tags(ps: Seq<PlaylistView>) -> StrSeq
    decreases ps.len(),
{
    if ps.len() == 0 {
        Seq::empty()
    } else {
        playlist_tags(ps.drop_last()) + ps.last().tags
    }
}

/// Every tag of every playlist of every crate, in order, repeats included.
pub open spec fn all_tags(cs: Seq<CrateView>) -> StrSeq
    decreases cs.len(),
{
    if cs.len() == 0 {
        Seq::empty()
    } else {
        all_tags(cs.drop_last()) + playlist_tags(cs.last().playlists)
    }
}

/// `(i + 1) % n`, for any `i`.
pub open spec fn next_index(i: usize, n: int) -> usize {
    ((i + 1) % n) as usize
}

/// The position before `i`, wrapping to the last of `n`.
pub open spec fn prev_index(i: usize, n: int) -> usize {
    if i >= 1 {
        (i - 1) as usize
    } else {
        (n - 1) as usize
    }
}

/// `(i + 1) % n` without overflow.
pub fn step_forward(i: usize, n: usize) -> (r: usize)
    requires
        n > 0,
    ensures
        r == next_index(i, n as int),
        r < n,
{
    let r = i % n;
    proof {
        vstd::arithmetic::div_mod::lemma_mod_bound(i as int, n as int);
        vstd::arithmetic::div_mod::lemma_mod_bound(i + 1, n as int);
    }
    if n == 1 {
        0
    } else {
        proof {
            vstd::arithmetic::div_mod::lemma_small_mod(1, n as nat);
            vstd::arithmetic::div_mod::lemma_add_mod_noop(i as int, 1, n as int);
            if r + 1 < n {
                vstd::arithmetic::div_mod::lemma_small_mod((r + 1) as nat, n as nat);
            } else {
                vstd::arithmetic::div_mod::lemma_mod_self_0(n as int);
            }
        }
        if r + 1 < n {
            r + 1
        } else {
            0
        }
    }
}

/// The dashboard after `key`, and what the shell must do.
pub open spec fn dashboard_step(s: AppView, key: Key) -> (AppView, CommandView) {
    let count = s.current_playlists().len() as int;
    let ncrates = s.crates.len() as int;
    match key {
        Key::Char('q') | Key::Esc => (AppView { should_quit: true, ..s }, CommandView::Nothing),
        Key::Down | Key::Char('j') => if count > 0 {
            (AppView { selected_playlist: next_index(s.selected_playlist, count), ..s }, CommandView::Nothing)
        } else {
            (s, CommandView::Nothing)
        },
        Key::Up | Key::Char('k') => if count > 0 {
            (AppView { selected_playlist: prev_index(s.selected_playlist, count), ..s }, CommandView::Nothing)
        } else {
            (s, CommandView::Nothing)
        },
        Key::Tab => if ncrates > 0 {
            (
                AppView { selected_crate: next_index(s.selected_crate, ncrates), selected_playlist: 0, ..s },
                CommandView::Nothing,
            )
        } else {
            (s, CommandView::Nothing)
        },
        Key::Char('r') => (s, CommandView::Rescan),
        Key::Char('c') => (
            AppView {
                screen: Screen::Config,
                config_field: if ncrates == 0 { 0 } else { 1 },
                message: "Manage crates. Press n for a new one, Enter to edit a field."@,
                ..s
            },
            CommandView::Nothing,
        ),
        Key::Char('n') => (
            AppView {
                crates: s.crates.push(new_crate_view()),
                selected_crate: ncrates as usize,
                config_field: 0,
                screen: Screen::Config,
                message: "New crate added. Name it, then Enter to save."@,
                ..s
            },
            CommandView::Nothing,
        ),
        Key::Char('i') => (
            AppView {
                import: Some(fresh_import()),
                screen: Screen::Import,
                message: "Choose a service to import from."@,
                ..s
            },
            CommandView::Nothing,
        ),
        Key::Char('s') => (AppView { screen: Screen::Settings, ..s }, CommandView::Nothing),
        Key::Enter => if s.selected_crate >= ncrates {
            (AppView { message: "No crates yet. Press c, then n to add one."@, ..s }, CommandView::Nothing)
        } else if s.selected_playlist >= count {
            (AppView { message: "No playlist selected."@, ..s }, CommandView::Nothing)
        } else {
            (
                s,
                CommandView::ListTracks {
                    crate_index: s.selected_crate,
                    playlist_index: s.selected_playlist,
                    from_browser: false,
                },
            )
        },
        Key::Char('T') => if s.selected_playlist >= count {
            (AppView { message: "No playlist selected."@, ..s }, CommandView::Nothing)
        } else {
            let buffer = joined(s.current_playlists()[s.selected_playlist as int].tags, ", "@);
            (
                AppView {
                    tag_buffer: buffer,
                    tag_cursor: buffer.len() as usize,
                    editing_tags: true,
                    message: "Editing tags (comma separated). Enter to save, Esc to cancel."@,
                    ..s
                },
                CommandView::Nothing,
            )
        },
        Key::Char('t') => {
            let tags = sorted_distinct(all_tags(s.crates));
            if tags.len() == 0 {
                (AppView { message: "No tags yet. Press T on a playlist to add some."@, ..s }, CommandView::Nothing)
            } else {
                (
                    AppView {
                        tag_browser: Some(
                            TagBrowserView {
                                tags: tags,
                                selected: 0,
                                filter: None,
                                matches: Seq::empty(),
                                match_selected: 0,
                            },
                        ),
                        ..s
                    },
                    CommandView::Nothing,
                )
            }
        },
        _ => (s, CommandView::Nothing),
    }
}

/// The names of the crates not marked available, in order.
pub open spec fn unavailable_names(cs: Seq<CrateView>) -> StrSeq
    decreases cs.len(),
{
    if cs.len() == 0 {
        Seq::empty()
    } else if cs.last().available {
        unavailable_names(cs.drop_last())
    } else {
        unavailable_names(cs.drop_last()).push(cs.last().name)
    }
}

/// `min(i, n - 1)`, or 0 when `n` is 0.
pub open spec fn clamp_index(i: usize, n: int) -> usize {
    if n == 0 {
        0
    } else if i <= n - 1 {
        i
    } else {
        (n - 1) as usize
    }
}

/// The state after a rescan: crates marked available from `exists`, playlists
/// merged from `scans`, and the selected playlist kept within the list.
pub open spec fn rescanned(s: AppView, exists: Seq<Seq<bool>>, scans: Seq<Seq<PlaylistView>>) -> AppView {
    let crates = with_scans(with_availability(s.crates, exists), scans);
    let t = AppView { crates: crates, ..s };
    AppView { selected_playlist: clamp_index(s.selected_playlist, t.current_playlists().len() as int), ..t }
}

/// Collects the tags of every playlist, sorted and without repeats.
fn collect_tags(crates: &Vec<CrateLocation>) -> (tags: Vec<String>)
    ensures
        seq_strings(tags@) == sorted_distinct(all_tags(crates_view(crates@))),
{
    let ghost cv = crates_view(crates@);
    let mut tags: Vec<String> = Vec::new();
    let ghost mut seen: StrSeq = Seq::empty();
    assert(cv.take(0) =~= Seq::<CrateView>::empty());
    for i in 0..crates.len()
        invariant
            cv == crates_view(crates@),
            seen == all_tags(cv.take(i as int)),
            seq_strings(tags@) == sorted_distinct(seen),
    {
        let ghost ps = cv[i as int].playlists;
        let playlists = &crates[i].playlists;
        assert(ps == crate::model::playlists_view(playlists@));
        let ghost before_crate = seen;
        assert(ps.take(0) =~= Seq::<PlaylistView>::empty());
        assert(before_crate + playlist_tags(ps.take(0)) =~= before_crate);
        for j in 0..playlists.len()
            invariant
                ps == crate::model::playlists_view(playlists@),
                seen == before_crate + playlist_tags(ps.take(j as int)),
                seq_strings(tags@) == sorted_distinct(seen),
        {
            let own = &playlists[j].tags;
            let ghost pt = ps[j as int].tags;
            assert(pt == seq_strings(own@));
            let ghost before_list = seen;
            assert(before_list + pt.take(0) =~= before_list);
            for k in 0..own.len()
                invariant
                    pt == seq_strings(own@),
                    seen == before_list + pt.take(k as int),
                    seq_strings(tags@) == sorted_distinct(seen),
            {
                let ghost prev = seen;
                proof {
                    seen = seen.push(pt[k as int]);
                    assert(before_list + pt.take(k + 1) =~= seen);
                    assert(seen.drop_last() =~= prev);
                }
                insert_distinct(&mut tags, own[k].clone());
            }
            assert(pt.take(own.len() as int) =~= pt);
            assert(ps.take(j + 1).drop_last() =~= ps.take(j as int));
            assert(before_crate + playlist_tags(ps.take(j + 1)) =~= before_list + pt);
        }
        assert(ps.take(playlists.len() as int) =~= ps);
        assert(cv.take(i + 1).drop_last() =~= cv.take(i as int));
        assert(seen == all_tags(cv.take(i + 1)));
    }
    assert(cv.take(crates.len() as int) =~= cv);
    tags
}

/// The names of the crates that are not available.
fn missing_names(crates: &Vec<CrateLocation>) -> (names: Vec<String>)
    ensures
        seq_strings(names@) == unavailable_names(crates_view(crates@)),
{
    let ghost cv = crates_view(crates@);
    let mut names: Vec<String> = Vec::new();
    assert(cv.take(0) =~= Seq::<CrateView>::empty());
    for i in 0..crates.len()
        invariant
            cv == crates_view(crates@),
            seq_strings(names@) == unavailable_names(cv.take(i as int)),
    {
        assert(cv.take(i + 1).drop_last() =~= cv.take(i as int));
        if !crates[i].available {
            names.push(crates[i].name.clone());
            assert(seq_strings(names@) =~= unavailable_names(cv.take(i + 1)));
        }
    }
    assert(cv.take(crates.len() as int) =~= cv);
    names
}

impl App {
    /// The number of playlists of the selected crate.
    pub fn current_playlist_count(&self) -> (n: usize)
        ensures
            n == self@.current_playlists().len(),
    {
        if self.selected_crate < self.crates.len() {
            self.crates[self.selected_crate].playlists.len()
        } else {
            0
        }
    }

    /// Handles a key on the dashboard.
    #[verifier::rlimit(60)]
    pub fn handle_dashboard_key(&mut self, key: Key) -> (cmd: Command)
        requires
            old(self).wf(),
            old(self).screen == Screen::Dashboard,
            old(self).tag_browser is None,
            !old(self).editing_tags,
        ensures
            (final(self)@, cmd@) == dashboard_step(old(self)@, key),
            final(self).wf(),
    {
        let ghost s = self@;
        match key {
            Key::Char('q') | Key::Esc => {
                self.should_quit = true;
                Command::Nothing
            },
            Key::Down | Key::Char('j') => {
                let count = self.current_playlist_count();
                if count > 0 {
                    self.selected_playlist = step_forward(self.selected_playlist, count);
                }
                Command::Nothing
            },
            Key::Up | Key::Char('k') => {
                let count = self.current_playlist_count();
                if count > 0 {
                    self.selected_playlist = if self.selected_playlist >= 1 {
                        self.selected_playlist - 1
                    } else {
                        count - 1
                    };
                }
                Command::Nothing
            },
            Key::Tab => {
                if self.crates.len() > 0 {
                    self.selected_crate = step_forward(self.selected_crate, self.crates.len());
                    self.selected_playlist = 0;
                }
                Command::Nothing
            },
            Key::Char('r') => Command::Rescan,
            Key::Char('c') => {
                self.screen = Screen::Config;
                self.config_field = if self.crates.len() == 0 { 0 } else { 1 };
                self.message = owned("Manage crates. Press n for a new one, Enter to edit a field.");
                Command::Nothing
            },
            Key::Char('n') => {
                self.crates.push(CrateLocation::new_default());
                assert(crates_view(self.crates@) =~= s.crates.push(new_crate_view()));
                self.selected_crate = self.crates.len() - 1;
                self.config_field = 0;
                self.screen = Screen::Config;
                self.message = owned("New crate added. Name it, then Enter to save.");
                Command::Nothing
            },
            Key::Char('i') => {
                self.import = Some(ImportState::new());
                self.screen = Screen::Import;
                self.message = owned("Choose a service to import from.");
                Command::Nothing
            },
            Key::Char('s') => {
                self.screen = Screen::Settings;
                Command::Nothing
            },
            Key::Enter => {
                if self.selected_crate >= self.crates.len() {
                    self.message = owned("No crates yet. Press c, then n to add one.");
                    return Command::Nothing;
                }
                if self.selected_playlist >= self.crates[self.selected_crate].playlists.len() {
                    self.message = owned("No playlist selected.");
                    return Command::Nothing;
                }
                Command::ListTracks {
                    crate_index: self.selected_crate,
                    playlist_index: self.selected_playlist,
                    from_browser: false,
                }
            },
            Key::Char('T') => {
                if self.selected_playlist >= self.current_playlist_count() {
                    self.message = owned("No playlist selected.");
                    return Command::Nothing;
                }
                let buffer = join(&self.crates[self.selected_crate].playlists[self.selected_playlist].tags, ", ");
                self.tag_cursor = char_count(&buffer);
                self.tag_buffer = buffer;
                self.editing_tags = true;
                self.message = owned("Editing tags (comma separated). Enter to save, Esc to cancel.");
                Command::Nothing
            },
            Key::Char('t') => {
                let tags = collect_tags(&self.crates);
                if tags.len() == 0 {
                    self.message = owned("No tags yet. Press T on a playlist to add some.");
                    return Command::Nothing;
                }
                self.tag_browser = Some(
                    TagBrowser { tags, selected: 0, filter: None, matches: Vec::new(), match_selected: 0 },
                );
                assert(self@.tag_browser.unwrap().matches =~= Seq::<(Seq<char>, Seq<char>)>::empty());
                Command::Nothing
            },
            _ => Command::Nothing,
        }
    }

    /// Finishes a rescan: `exists[i][j]` tells whether path `j` of crate `i`
    /// exists, `scans[i]` is the fresh scan of crate `i`. Saves next, and the
    /// message then names the crates with missing paths.
    pub fn after_rescan(&mut self, exists: &Vec<Vec<bool>>, scans: Vec<Vec<Playlist>>) -> (cmd: Command)
        requires
            old(self).wf(),
            shaped_like(exists_view(exists@), old(self)@.crates),
            scans.len() == old(self).crates.len(),
        ensures
            final(self)@ == rescanned(old(self)@, exists_view(exists@), scans_view(scans@)),
            cmd@ == CommandView::Save(
                SaveNoteView::Rescanned { missing: unavailable_names(final(self)@.crates) },
            ),
            final(self).wf(),
    {
        refresh_availability(&mut self.crates, exists);
        rescan_playlists(&mut self.crates, scans);
        let count = self.current_playlist_count();
        self.selected_playlist = if count == 0 {
            0
        } else if self.selected_playlist <= count - 1 {
            self.selected_playlist
        } else {
            count - 1
        };
        let missing = missing_names(&self.crates);
        Command::Save(SaveNote::Rescanned { missing })
    }

    /// Applies a disk check and rescan without reporting anything (as at
    /// start-up), then saves quietly: the message stays as it was.
    pub fn apply_disk_state(&mut self, exists: &Vec<Vec<bool>>, scans: Vec<Vec<Playlist>>) -> (cmd: Command)
        requires
            old(self).wf(),
            shaped_like(exists_view(exists@), old(self)@.crates),
            scans.len() == old(self).crates.len(),
        ensures
            final(self)@ == (AppView {
                crates: with_scans(with_availability(old(self)@.crates, exists_view(exists@)), scans_view(scans@)),
                ..old(self)@
            }),
            final(self).wf(),
            cmd@ == CommandView::Save(SaveNoteView::Quiet),
    {
        refresh_availability(&mut self.crates, exists);
        rescan_playlists(&mut self.crates, scans);
        Command::Save(SaveNote::Quiet)
    }

    /// Marks each crate available exactly when all its paths exist.
    pub fn set_availability(&mut self, exists: &Vec<Vec<bool>>)
        requires
            old(self).wf(),
            shaped_like(exists_view(exists@), old(self)@.crates),
        ensures
            final(self)@ == (AppView {
                crates: with_availability(old(self)@.crates, exists_view(exists@)),
                ..old(self)@
            }),
            final(self).wf(),
    {
        refresh_availability(&mut self.crates, exists);
    }

    /// Opens the track list of a playlist, once the shell has listed its tracks;
    /// the details of the first track are loaded next.
    pub fn show_tracks(
        &mut self,
        crate_index: usize,
        playlist_index: usize,
        tracks: Vec<TrackFile>,
        from_browser: bool,
    ) -> (cmd: Command)
        requires
            old(self).wf(),
            crate_index < old(self).crates.len(),
            playlist_index < old(self)@.crates[crate_index as int].playlists.len(),
        ensures
            final(self)@ == (AppView {
                tracks: Some(
                    TrackPageView {
                        crate_name: old(self)@.crates[crate_index as int].name,
                        playlist: old(self)@.crates[crate_index as int].playlists[playlist_index as int],
                        tracks: tracks_view(tracks@),
                        selected: 0,
                        metadata: None,
                    },
                ),
                tag_browser: if from_browser { None } else { old(self)@.tag_browser },
                ..old(self)@
            }),
            cmd@ == CommandView::LoadTrackDetails,
            final(self).wf(),
    {
        let crate_location = &self.crates[crate_index];
        assert(crates_view(self.crates@)[crate_index as int] == crate_location@);
        let playlist = crate_location.playlists[playlist_index].duplicate();
        assert(crate_location@.playlists[playlist_index as int] == crate_location.playlists@[playlist_index as int]@);
        self.tracks = Some(
            TrackView {
                crate_name: crate_location.name.clone(),
                playlist,
                tracks,
                selected: 0,
                metadata: None,
            },
        );
        if from_browser {
            self.tag_browser = None;
        }
        Command::LoadTrackDetails
    }
}

} // verus!
