//! The key dispatcher: which part of the interface a key press goes to.

use vstd::prelude::*;

use crate::browse::{confirm_delete_step, tag_browser_step, tag_edit_step, tracks_step};
use crate::commands::{Command, CommandView};
use crate::crate_editor::{config_key_ok, config_step, locations_fit};
use crate::dashboard::dashboard_step;
use crate::import_flow::{import_key_ok, import_playlist_count, import_step, move_ok};
use crate::keys::{line_key_ok, wrap_ok, Key};
use crate::model::SERVICE_COUNT;
use crate::session::{App, AppView, ImportStep, ImportView, Screen};
use crate::settings::settings_step;
use crate::text::{char_count, owned};

verus! {

/// The keys that can be handled without overflowing a cursor or a list position.
pub open spec fn key_ok(s: AppView, key: Key) -> bool {
    if s.fetch_waiting || s.pending_delete is Some {
        true
    } else if s.editing_tags {
        line_key_ok(s.tag_buffer, s.tag_cursor, key)
    } else if s.tag_browser is Some || s.tracks is Some {
        true
    } else {
        match s.screen {
            Screen::Config => config_key_ok(s, key),
            Screen::Import => import_key_ok(s, key),
            Screen::Settings => !s.login_waiting && s.editing_settings ==> line_key_ok(
                s.settings_buffer,
                s.settings_cursor,
                key,
            ),
            Screen::Dashboard => true,
        }
    }
}

/// The state and command after `key`: a running online import takes the key
/// first, then a pending deletion, the tag editor, the tag browser, the track
/// list, and last the current screen.
pub open spec fn key_step(s: AppView, key: Key) -> (AppView, CommandView) {
    if s.fetch_waiting {
        match key {
            Key::Char('q') => (AppView { should_quit: true, ..s }, CommandView::Nothing),
            Key::Esc | Key::Char('c') => (
                AppView { fetch_waiting: false, pending_import: None, message: "Import cancelled."@, ..s },
                CommandView::CancelFetch,
            ),
            _ => (s, CommandView::Nothing),
        }
    } else if s.pending_delete is Some {
        confirm_delete_step(s, s.pending_delete.unwrap(), key)
    } else if s.editing_tags {
        tag_edit_step(s, key)
    } else if s.tag_browser is Some {
        tag_browser_step(s, s.tag_browser.unwrap(), key)
    } else if s.tracks is Some {
        tracks_step(s, s.tracks.unwrap(), key)
    } else {
        match s.screen {
            Screen::Config => config_step(s, key),
            Screen::Import => import_step(s, key),
            Screen::Settings => settings_step(s, key),
            Screen::Dashboard => dashboard_step(s, key),
        }
    }
}

/// Whether moving `delta` rows from `current` in a list of `len` stays within `i32`.
pub fn wrap_fits(current: usize, delta: i32, len: usize) -> (r: bool)
    ensures
        r == wrap_ok(current, delta, len),
{
    if len == 0 {
        return true;
    }
    let c = current as i32 as i64;
    let l = len as i32 as i64;
    let d = delta as i64;
    if c + d < -2147483648i64 || c + d > 2147483647i64 || l <= 0 {
        return false;
    }
    (c + d) % l + l <= 2147483647i64
}

/// Whether an editing key keeps the cursor of a text field in range.
pub fn line_key_fits(buffer: &String, cursor: usize, key: Key) -> (r: bool)
    ensures
        r == line_key_ok(buffer@, cursor, key),
{
    if cursor > char_count(buffer) {
        return false;
    }
    match key {
        Key::Char(_) | Key::Right => cursor < usize::MAX,
        _ => true,
    }
}

impl App {
    fn import_move_fits(&self, i: &crate::session::ImportState, delta: i32) -> (r: bool)
        requires
            self.import == Some(*i),
        ensures
            r == move_ok(self@, i@, delta),
    {
        match i.step {
            ImportStep::Service => wrap_fits(i.service_index, delta, SERVICE_COUNT),
            ImportStep::Mode => wrap_fits(i.mode_index, delta, 2),
            ImportStep::Crate => self.crates.len() == 0 || wrap_fits(i.crate_index, delta, self.crates.len()),
            ImportStep::Playlist => {
                let count = if i.crate_index < self.crates.len() {
                    self.crates[i.crate_index].playlists.len()
                } else {
                    0
                };
                assert(count == import_playlist_count(self@, i@));
                count == 0 || wrap_fits(i.playlist_index, delta, count)
            },
            ImportStep::Name => true,
        }
    }

    fn locations_fit_all(&self) -> (r: bool)
        ensures
            r == locations_fit(self@),
    {
        let mut i: usize = 0;
        while i < self.crates.len()
            invariant
                i <= self.crates.len(),
                forall|j: int| 0 <= j < i ==> #[trigger] self@.crates[j].locations.len() < usize::MAX,
            decreases self.crates.len() - i,
        {
            assert(self@.crates[i as int].locations.len() == self.crates@[i as int].locations.len());
            if self.crates[i].locations.len() == usize::MAX {
                return false;
            }
            i = i + 1;
        }
        true
    }

    /// Whether `handle_key` can take `key` in the current state: every key can,
    /// but for one that would step a cursor or a list position past the largest
    /// machine integer.
    pub fn key_allowed(&self, key: Key) -> (r: bool)
        ensures
            r == key_ok(self@, key),
    {
        if self.fetch_waiting || self.pending_delete.is_some() {
            return true;
        }
        if self.editing_tags {
            return line_key_fits(&self.tag_buffer, self.tag_cursor, key);
        }
        if self.tag_browser.is_some() || self.tracks.is_some() {
            return true;
        }
        match self.screen {
            Screen::Config => if self.editing_config {
                line_key_fits(&self.config_buffer, self.config_cursor, key)
            } else {
                self.locations_fit_all()
            },
            Screen::Import => match &self.import {
                None => true,
                Some(i) => if i.step == ImportStep::Name {
                    line_key_fits(&i.name_buffer, i.name_cursor, key)
                } else {
                    let up = match key {
                        Key::Up | Key::Char('k') => self.import_move_fits(i, -1i32),
                        _ => true,
                    };
                    let down = match key {
                        Key::Down | Key::Char('j') => self.import_move_fits(i, 1i32),
                        _ => true,
                    };
                    up && down
                },
            },
            Screen::Settings => if !self.login_waiting && self.editing_settings {
                line_key_fits(&self.settings_buffer, self.settings_cursor, key)
            } else {
                true
            },
            Screen::Dashboard => true,
        }
    }

    /// Handles one key press and says what the shell should do next.
    pub fn handle_key(&mut self, key: Key) -> (cmd: Command)
        requires
            old(self).wf(),
            key_ok(old(self)@, key),
        ensures
            (final(self)@, cmd@) == key_step(old(self)@, key),
            final(self).wf(),
    {
        if self.fetch_waiting {
            return match key {
                Key::Char('q') => {
                    self.should_quit = true;
                    Command::Nothing
                },
                Key::Esc | Key::Char('c') => {
                    self.fetch_waiting = false;
                    self.pending_import = None;
                    self.message = owned("Import cancelled.");
                    Command::CancelFetch
                },
                _ => Command::Nothing,
            };
        }
        if let Some(index) = self.pending_delete {
            return self.handle_confirm_delete(key, index);
        }
        if self.editing_tags {
            return self.handle_tag_edit_key(key);
        }
        if self.tag_browser.is_some() {
            return self.handle_tag_browser_key(key);
        }
        if self.tracks.is_some() {
            return self.handle_tracks_key(key);
        }
        match self.screen {
            Screen::Config => self.handle_config_key(key),
            Screen::Import => self.handle_import_key(key),
            Screen::Settings => self.handle_settings_key(key),
            Screen::Dashboard => self.handle_dashboard_key(key),
        }
    }
}

} // verus!
