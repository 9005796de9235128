//! The crate screen: each crate's name and paths, listed and edited in place.

use vstd::prelude::*;

use crate::catalog::{exists_view, merge_playlists, merge_view, refresh_availability, shaped_like, with_availability};
use crate::commands::{Command, CommandView, FieldCommit, FieldCommitView, SaveNote, SaveNoteView};
use crate::dashboard::{clamp_index, next_index, prev_index, step_forward};
use crate::keys::{edit_line, is_edit_key, line_edit, line_key_ok, Key};
use crate::model::{crates_view, locations_view, new_crate_view, playlists_view, CrateLocation, CrateView, Location, LocationView, Playlist};
use crate::session::{App, AppView, Screen};
use crate::text::{char_count, join3, owned};

verus! {

/// The text of row `field` of the selected crate: its name (row 0) or a path.
pub open spec fn config_value_of(s: AppView, field: usize) -> Seq<char> {
    if s.selected_crate >= s.crates.len() {
        Seq::empty()
    } else if field == 0 {
        s.crates[s.selected_crate as int].name
    } else if field - 1 < s.crates[s.selected_crate as int].locations.len() {
        s.crates[s.selected_crate as int].locations[field - 1].path
    } else {
        Seq::empty()
    }
}

/// Row `field` clamped to the rows of the selected crate.
pub open spec fn clamp_field(s: AppView, field: usize) -> usize {
    if field <= s.field_count() - 1 {
        field
    } else {
        (s.field_count() - 1) as usize
    }
}

/// Every crate has fewer than `usize::MAX` paths, so its row count fits in a `usize`.
pub open spec fn locations_fit(s: AppView) -> bool {
    forall|i: int| 0 <= i < s.crates.len() ==> #[trigger] s.crates[i].locations.len() < usize::MAX
}

/// The keys of the crate screen can be handled without overflow.
pub open spec fn config_key_ok(s: AppView, key: Key) -> bool {
    if s.editing_config {
        line_key_ok(s.config_buffer, s.config_cursor, key)
    } else {
        locations_fit(s)
    }
}

/// The selected crate replaced by `c`.
pub open spec fn update_selected(s: AppView, c: CrateView) -> Seq<CrateView> {
    s.crates.update(s.selected_crate as int, c)
}

/// Keys on the crate screen when no row is being edited.
#[verifier::opaque]
pub open spec fn config_browse_step(s: AppView, key: Key) -> (AppView, CommandView) {
    let n = s.crates.len() as int;
    let cf = s.config_field;
    match key {
        Key::Char('q') => (AppView { should_quit: true, ..s }, CommandView::Nothing),
        Key::Esc | Key::Char('c') => (
            AppView { screen: Screen::Dashboard, message: "Back at the crate desk."@, ..s },
            CommandView::Nothing,
        ),
        Key::Up | Key::Char('k') => (
            AppView { config_field: if cf >= 1 { (cf - 1) as usize } else { (s.field_count() - 1) as usize }, ..s },
            CommandView::Nothing,
        ),
        Key::Down | Key::Char('j') | Key::Tab => (
            AppView { config_field: next_index(cf, s.field_count()), ..s },
            CommandView::Nothing,
        ),
        Key::Left | Key::Char('h') => if n > 0 {
            let t = AppView { selected_crate: prev_index(s.selected_crate, n), ..s };
            (AppView { config_field: clamp_field(t, cf), ..t }, CommandView::Nothing)
        } else {
            (s, CommandView::Nothing)
        },
        Key::Right | Key::Char('l') => if n > 0 {
            let t = AppView { selected_crate: next_index(s.selected_crate, n), ..s };
            (AppView { config_field: clamp_field(t, cf), ..t }, CommandView::Nothing)
        } else {
            (s, CommandView::Nothing)
        },
        Key::Char('a') => if n > 0 {
            let c = s.crates[s.selected_crate as int];
            let c2 = CrateView { locations: c.locations.push(LocationView { path: Seq::empty(), removable: false }), ..c };
            (
                AppView {
                    crates: update_selected(s, c2),
                    config_field: c2.locations.len() as usize,
                    message: "New path added. Type it in, then Enter to save."@,
                    ..s
                },
                CommandView::Nothing,
            )
        } else {
            (s, CommandView::Nothing)
        },
        Key::Char('x') => if n > 0 && cf > 0 {
            let c = s.crates[s.selected_crate as int];
            if c.locations.len() > 1 {
                let c2 = CrateView { locations: c.locations.remove(cf - 1), ..c };
                (
                    AppView {
                        crates: update_selected(s, c2),
                        config_field: if cf <= c2.locations.len() { cf } else { c2.locations.len() as usize },
                        message: "Path removed."@,
                        ..s
                    },
                    CommandView::Nothing,
                )
            } else {
                (AppView { message: "A crate needs at least one path."@, ..s }, CommandView::Nothing)
            }
        } else {
            (s, CommandView::Nothing)
        },
        Key::Char('e') => if n > 0 && cf > 0 {
            let c = s.crates[s.selected_crate as int];
            if cf - 1 < c.locations.len() {
                let loc = c.locations[cf - 1];
                let removable = !loc.removable;
                let c2 = CrateView { locations: c.locations.update(cf - 1, LocationView { removable, ..loc }), ..c };
                (
                    AppView {
                        crates: update_selected(s, c2),
                        message: "Marked as "@ + (if removable { "external drive"@ } else { "regular path"@ }) + "."@,
                        ..s
                    },
                    CommandView::RefreshAndSave,
                )
            } else {
                (s, CommandView::RefreshAndSave)
            }
        } else {
            (s, CommandView::Nothing)
        },
        Key::Char('n') => (
            AppView {
                crates: s.crates.push(new_crate_view()),
                selected_crate: n as usize,
                config_field: 0,
                message: "New crate added. Name it, then Enter to save."@,
                ..s
            },
            CommandView::Nothing,
        ),
        Key::Char('X') => if n > 0 {
            (AppView { pending_delete: Some(s.selected_crate), ..s }, CommandView::Nothing)
        } else {
            (s, CommandView::Nothing)
        },
        Key::Enter => if n > 0 {
            let v = config_value_of(s, cf);
            (
                AppView { config_buffer: v, config_cursor: v.len() as usize, editing_config: true, ..s },
                CommandView::Nothing,
            )
        } else {
            (s, CommandView::Nothing)
        },
        _ => (s, CommandView::Nothing),
    }
}

/// Enter while editing a row: the value is stored, then checked and rescanned.
#[verifier::opaque]
pub open spec fn commit_step(s: AppView) -> (AppView, CommandView) {
    let value = s.config_buffer;
    let t = AppView { config_buffer: Seq::empty(), editing_config: false, ..s };
    if s.selected_crate >= s.crates.len() {
        (t, CommandView::Nothing)
    } else {
        let c = s.crates[s.selected_crate as int];
        let cf = s.config_field;
        if cf == 0 {
            (
                AppView { crates: update_selected(s, CrateView { name: value, ..c }), ..t },
                CommandView::CommitField(FieldCommitView { edited_path: None, path_changed: false }),
            )
        } else if cf - 1 < c.locations.len() {
            let loc = c.locations[cf - 1];
            (
                AppView {
                    crates: update_selected(
                        s,
                        CrateView { locations: c.locations.update(cf - 1, LocationView { path: value, ..loc }), ..c },
                    ),
                    ..t
                },
                CommandView::CommitField(FieldCommitView { edited_path: Some(value), path_changed: true }),
            )
        } else {
            (t, CommandView::CommitField(FieldCommitView { edited_path: None, path_changed: true }))
        }
    }
}

/// The crate screen after `key`, and what the shell must do.
pub open spec fn config_step(s: AppView, key: Key) -> (AppView, CommandView) {
    if s.editing_config {
        match key {
            Key::Esc => (
                AppView { editing_config: false, config_buffer: Seq::empty(), config_cursor: 0, ..s },
                CommandView::Nothing,
            ),
            Key::Enter => commit_step(s),
            _ => if is_edit_key(key) {
                let (b, c) = line_edit(s.config_buffer, s.config_cursor, key);
                (AppView { config_buffer: b, config_cursor: c, ..s }, CommandView::Nothing)
            } else {
                (s, CommandView::Nothing)
            },
        }
    } else {
        config_browse_step(s, key)
    }
}

/// On the crate screen, while no row is being edited, every key keeps the
/// selection sound: the selected crate is one of the crates (when there are
/// any) and the selected row names the crate or one of its existing paths.
#[verifier::rlimit(80)]
#[verifier::spinoff_prover]
pub proof fn lemma_config_row_in_range(s: AppView, key: Key)
    requires
        !s.editing_config,
        s.crates.len() == 0 || s.selected_crate < s.crates.len(),
        s.config_field < s.field_count(),
    ensures
        ({
            let t = config_step(s, key).0;
            &&& t.crates.len() == 0 || t.selected_crate < t.crates.len()
            &&& t.config_field < t.field_count()
        }),
{
    reveal(config_browse_step);
    let n = s.crates.len() as int;
    let fc = s.field_count();
    let cf = s.config_field as int;
    match key {
        Key::Down | Key::Char('j') | Key::Tab => {
            assert(0 <= (cf + 1) % fc < fc) by (nonlinear_arith)
                requires
                    fc >= 1,
                    cf >= 0,
            ;
            if fc <= usize::MAX + 1 {
                assert(((cf + 1) % fc) as usize == (cf + 1) % fc);
            }
        },
        Key::Up | Key::Char('k') => {
            if fc <= usize::MAX + 1 {
                assert((fc - 1) as usize == fc - 1);
            }
        },
        Key::Left | Key::Char('h') | Key::Right | Key::Char('l') => {
            if n > 0 {
                let sc = s.selected_crate as int;
                assert(0 <= (sc + 1) % n < n) by (nonlinear_arith)
                    requires
                        n >= 1,
                        sc >= 0,
                ;
                let t = config_step(s, key).0;
                assert(t.selected_crate < t.crates.len());
                let ft = t.field_count();
                if ft <= usize::MAX + 1 {
                    assert((ft - 1) as usize == ft - 1);
                }
            }
        },
        Key::Char('a') => {
            if n > 0 {
                let c = s.crates[s.selected_crate as int];
                let l = c.locations.len() + 1;
                if l <= usize::MAX {
                    assert(l as usize == l);
                }
            }
        },
        Key::Char('x') => {
            if n > 0 && cf > 0 {
                let c = s.crates[s.selected_crate as int];
                let l = c.locations.len() - 1;
                if 0 <= l <= usize::MAX {
                    assert(l as usize == l);
                }
            }
        },
        _ => {},
    }
}

/// The state once an edited row has been checked: availability refreshed, the
/// crate rescanned when a path changed, and the edit closed.
pub open spec fn field_finished(
    s: AppView,
    commit: FieldCommitView,
    exists: Seq<Seq<bool>>,
    scanned: Seq<crate::model::PlaylistView>,
) -> AppView {
    let crates = with_availability(s.crates, exists);
    let crates = if commit.path_changed && s.selected_crate < crates.len() {
        let c = crates[s.selected_crate as int];
        crates.update(s.selected_crate as int, CrateView { playlists: merge_view(c.playlists, scanned), ..c })
    } else {
        crates
    };
    let t = AppView { crates: crates, editing_config: false, ..s };
    if commit.path_changed {
        AppView { selected_playlist: clamp_index(s.selected_playlist, t.current_playlists().len() as int), ..t }
    } else {
        t
    }
}

impl App {
    /// The text of row `field` of the selected crate.
    pub fn config_value(&self, field: usize) -> (r: String)
        ensures
            r@ == config_value_of(self@, field),
    {
        if self.selected_crate >= self.crates.len() {
            return String::new();
        }
        let c = &self.crates[self.selected_crate];
        assert(self@.crates[self.selected_crate as int] == c@);
        if field == 0 {
            return c.name.clone();
        }
        if field - 1 < c.locations.len() {
            assert(c@.locations[field - 1] == c.locations@[field - 1]@);
            c.locations[field - 1].path.clone()
        } else {
            String::new()
        }
    }

    /// The text of the selected row.
    pub fn config_field_value(&self) -> (r: String)
        ensures
            r@ == config_value_of(self@, self.config_field),
    {
        self.config_value(self.config_field)
    }

    /// The number of rows of the selected crate: its name and each of its paths.
    pub fn field_count(&self) -> (n: usize)
        requires
            locations_fit(self@),
        ensures
            n == self@.field_count(),
    {
        if self.selected_crate < self.crates.len() {
            assert(self@.crates[self.selected_crate as int] == self.crates@[self.selected_crate as int]@);
            assert(self@.crates[self.selected_crate as int].locations.len() < usize::MAX);
            1 + self.crates[self.selected_crate].locations.len()
        } else {
            1
        }
    }

    /// Handles a key on the crate screen.
    pub fn handle_config_key(&mut self, key: Key) -> (cmd: Command)
        requires
            old(self).wf(),
            old(self).screen == Screen::Config,
            config_key_ok(old(self)@, key),
        ensures
            (final(self)@, cmd@) == config_step(old(self)@, key),
            final(self).wf(),
    {
        if self.editing_config {
            match key {
                Key::Esc => {
                    self.editing_config = false;
                    self.config_buffer = String::new();
                    self.config_cursor = 0;
                    Command::Nothing
                },
                Key::Enter => self.save_config_field(),
                _ => {
                    edit_line(&mut self.config_buffer, &mut self.config_cursor, key);
                    Command::Nothing
                },
            }
        } else {
            self.handle_config_browse_key(key)
        }
    }

    fn handle_config_browse_key(&mut self, key: Key) -> (cmd: Command)
        requires
            old(self).wf(),
            old(self).screen == Screen::Config,
            !old(self).editing_config,
            locations_fit(old(self)@),
        ensures
            (final(self)@, cmd@) == config_browse_step(old(self)@, key),
            final(self).wf(),
    {
        match key {
            Key::Char('a') | Key::Char('x') | Key::Char('e') => self.edit_locations_key(key),
            _ => self.config_nav_key(key),
        }
    }

    #[verifier::rlimit(60)]
    #[verifier::spinoff_prover]
    fn config_nav_key(&mut self, key: Key) -> (cmd: Command)
        requires
            old(self).wf(),
            old(self).screen == Screen::Config,
            !old(self).editing_config,
            locations_fit(old(self)@),
            key != Key::Char('a') && key != Key::Char('x') && key != Key::Char('e'),
        ensures
            (final(self)@, cmd@) == config_browse_step(old(self)@, key),
            final(self).wf(),
    {
        reveal(config_browse_step);
        let ghost s = self@;
        let n = self.crates.len();
        let sc = self.selected_crate;
        match key {
            Key::Char('q') => {
                self.should_quit = true;
                Command::Nothing
            },
            Key::Esc | Key::Char('c') => {
                self.screen = Screen::Dashboard;
                self.message = owned("Back at the crate desk.");
                Command::Nothing
            },
            Key::Up | Key::Char('k') => {
                let count = self.field_count();
                self.config_field = if self.config_field >= 1 { self.config_field - 1 } else { count - 1 };
                Command::Nothing
            },
            Key::Down | Key::Char('j') | Key::Tab => {
                let count = self.field_count();
                self.config_field = step_forward(self.config_field, count);
                Command::Nothing
            },
            Key::Left | Key::Char('h') => {
                if n > 0 {
                    self.selected_crate = if sc >= 1 { sc - 1 } else { n - 1 };
                    let count = self.field_count();
                    self.config_field = if self.config_field <= count - 1 { self.config_field } else { count - 1 };
                }
                Command::Nothing
            },
            Key::Right | Key::Char('l') => {
                if n > 0 {
                    self.selected_crate = step_forward(sc, n);
                    let count = self.field_count();
                    self.config_field = if self.config_field <= count - 1 { self.config_field } else { count - 1 };
                }
                Command::Nothing
            },
            Key::Char('n') => {
                self.crates.push(CrateLocation::new_default());
                assert(crates_view(self.crates@) =~= s.crates.push(new_crate_view()));
                self.selected_crate = self.crates.len() - 1;
                self.config_field = 0;
                self.message = owned("New crate added. Name it, then Enter to save.");
                Command::Nothing
            },
            Key::Char('X') => {
                if n > 0 {
                    self.pending_delete = Some(sc);
                }
                Command::Nothing
            },
            Key::Enter => {
                if n > 0 {
                    let value = self.config_value(self.config_field);
                    self.config_cursor = char_count(&value);
                    self.config_buffer = value;
                    self.editing_config = true;
                }
                Command::Nothing
            },
            _ => Command::Nothing,
        }
    }

    #[verifier::rlimit(60)]
    #[verifier::spinoff_prover]
    fn edit_locations_key(&mut self, key: Key) -> (cmd: Command)
        requires
            old(self).wf(),
            old(self).screen == Screen::Config,
            !old(self).editing_config,
            key == Key::Char('a') || key == Key::Char('x') || key == Key::Char('e'),
        ensures
            (final(self)@, cmd@) == config_browse_step(old(self)@, key),
            final(self).wf(),
    {
        reveal(config_browse_step);
        let n = self.crates.len();
        let sc = self.selected_crate;
        match key {
            Key::Char('a') => {
                if n > 0 {
                    assert(crates_view(self.crates@)[sc as int] == self.crates@[sc as int]@);
                    let ghost before = self.crates@;
                    self.crates[sc].locations.push(Location { path: String::new(), removable: false });
                    assert(self.crates@[sc as int]@.locations =~= before[sc as int]@.locations.push(
                        LocationView { path: Seq::empty(), removable: false },
                    ));
                    assert(crates_view(self.crates@) =~= crates_view(before).update(sc as int, self.crates@[sc as int]@));
                    self.config_field = self.crates[sc].locations.len();
                    self.message = owned("New path added. Type it in, then Enter to save.");
                }
                Command::Nothing
            },
            Key::Char('x') => {
                if n > 0 && self.config_field > 0 {
                    assert(crates_view(self.crates@)[sc as int] == self.crates@[sc as int]@);
                    if self.crates[sc].locations.len() > 1 {
                        let ghost before = self.crates@;
                        let cf = self.config_field;
                        self.crates[sc].locations.remove(cf - 1);
                        assert(self.crates@[sc as int]@.locations =~= before[sc as int]@.locations.remove(cf - 1));
                        assert(crates_view(self.crates@) =~= crates_view(before).update(sc as int, self.crates@[sc as int]@));
                        let len = self.crates[sc].locations.len();
                        self.config_field = if cf <= len { cf } else { len };
                        self.message = owned("Path removed.");
                    } else {
                        self.message = owned("A crate needs at least one path.");
                    }
                }
                Command::Nothing
            },
            Key::Char('e') => {
                if n > 0 && self.config_field > 0 {
                    let cf = self.config_field;
                    assert(crates_view(self.crates@)[sc as int] == self.crates@[sc as int]@);
                    if cf - 1 < self.crates[sc].locations.len() {
                        let ghost before = self.crates@;
                        assert(before[sc as int]@.locations[cf - 1] == before[sc as int].locations@[cf - 1]@);
                        let removable = !self.crates[sc].locations[cf - 1].removable;
                        self.crates[sc].locations[cf - 1].removable = removable;
                        assert(self.crates@[sc as int]@.locations =~= before[sc as int]@.locations.update(
                            cf - 1,
                            LocationView { removable, ..before[sc as int]@.locations[cf - 1] },
                        ));
                        assert(crates_view(self.crates@) =~= crates_view(before).update(sc as int, self.crates@[sc as int]@));
                        let state: &str = if removable { "external drive" } else { "regular path" };
                        self.message = join3("Marked as ", state, ".");
                    }
                    Command::RefreshAndSave
                } else {
                    Command::Nothing
                }
            },
            _ => Command::Nothing,
        }
    }

    #[verifier::rlimit(40)]
    fn save_config_field(&mut self) -> (cmd: Command)
        requires
            old(self).wf(),
            old(self).screen == Screen::Config,
            old(self).editing_config,
        ensures
            (final(self)@, cmd@) == commit_step(old(self)@),
            final(self).wf(),
    {
        reveal(commit_step);
        let mut value = String::new();
        std::mem::swap(&mut value, &mut self.config_buffer);
        self.editing_config = false;
        let sc = self.selected_crate;
        if sc >= self.crates.len() {
            return Command::Nothing;
        }
        let cf = self.config_field;
        let ghost before = self.crates@;
        assert(crates_view(before)[sc as int] == before[sc as int]@);
        if cf == 0 {
            self.crates[sc].name = value;
            assert(crates_view(self.crates@) =~= crates_view(before).update(sc as int, self.crates@[sc as int]@));
            return Command::CommitField(FieldCommit { edited_path: None, path_changed: false });
        }
        if cf - 1 < self.crates[sc].locations.len() {
            assert(before[sc as int]@.locations[cf - 1] == before[sc as int].locations@[cf - 1]@);
            let edited = value.clone();
            self.crates[sc].locations[cf - 1].path = value;
            assert(self.crates@[sc as int]@.locations =~= before[sc as int]@.locations.update(
                cf - 1,
                LocationView { path: edited@, ..before[sc as int]@.locations[cf - 1] },
            ));
            assert(crates_view(self.crates@) =~= crates_view(before).update(sc as int, self.crates@[sc as int]@));
            Command::CommitField(FieldCommit { edited_path: Some(edited), path_changed: true })
        } else {
            Command::CommitField(FieldCommit { edited_path: None, path_changed: true })
        }
    }

    /// Finishes an edited row: `path_exists` tells whether the edited path exists,
    /// `exists` whether each crate's paths exist, `scanned` is the fresh scan of
    /// the selected crate when a path changed. Saves next.
    #[verifier::rlimit(60)]
    #[verifier::spinoff_prover]
    pub fn finish_field_edit(
        &mut self,
        commit: FieldCommit,
        path_exists: bool,
        exists: &Vec<Vec<bool>>,
        scanned: Vec<Playlist>,
    ) -> (cmd: Command)
        requires
            old(self).wf(),
            shaped_like(exists_view(exists@), old(self)@.crates),
        ensures
            final(self)@ == field_finished(old(self)@, commit@, exists_view(exists@), playlists_view(scanned@)),
            cmd@ == CommandView::Save(
                SaveNoteView::FieldSaved {
                    missing_path: match commit@.edited_path {
                        Some(p) => if path_exists { None } else { Some(p) },
                        None => None,
                    },
                    path_changed: commit.path_changed,
                },
            ),
            final(self).wf(),
    {
        let ghost s = self@;
        refresh_availability(&mut self.crates, exists);
        let sc = self.selected_crate;
        if commit.path_changed {
            if sc < self.crates.len() {
                let ghost before = self.crates@;
                assert(crates_view(before)[sc as int] == before[sc as int]@);
                let merged = merge_playlists(&self.crates[sc].playlists, scanned);
                self.crates[sc].playlists = merged;
                assert(crates_view(self.crates@) =~= crates_view(before).update(sc as int, self.crates@[sc as int]@));
            }
        }
        self.editing_config = false;
        if commit.path_changed {
            let count = if sc < self.crates.len() {
                self.crates[sc].playlists.len()
            } else {
                0
            };
            self.selected_playlist = if count == 0 {
                0
            } else if self.selected_playlist <= count - 1 {
                self.selected_playlist
            } else {
                count - 1
            };
        }
        let missing_path = match commit.edited_path {
            Some(p) => if path_exists { None } else { Some(p) },
            None => None,
        };
        Command::Save(SaveNote::FieldSaved { missing_path, path_changed: commit.path_changed })
    }
}

} // verus!
