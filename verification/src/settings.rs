//! The settings screen: the Spotify client id and the Spotify session.

use vstd::prelude::*;

use crate::commands::{Command, CommandView, SaveNote, SaveNoteView};
use crate::keys::{edit_line, is_edit_key, line_edit, line_key_ok, Key};
use crate::session::{App, AppView, Screen};
use crate::text::{char_count, join2, owned, trim, trimmed};
use crate::tracks::opt_view;

verus! {

/// What the background Spotify login reports.
#[derive(Debug)]
pub enum LoginOutcome {
    /// Logged in; the session's refresh token.
    Connected(String),
    Failed(String),
    /// The login thread ended without reporting.
    Crashed,
}

pub enum LoginOutcomeView {
    Connected(Seq<char>),
    Failed(Seq<char>),
    Crashed,
}

impl View for LoginOutcome {
    type V = LoginOutcomeView;

    open spec fn view(&self) -> LoginOutcomeView {
        match self {
            LoginOutcome::Connected(t) => LoginOutcomeView::Connected(t@),
            LoginOutcome::Failed(e) => LoginOutcomeView::Failed(e@),
            LoginOutcome::Crashed => LoginOutcomeView::Crashed,
        }
    }
}

/// Starting the Spotify login (the `l` key).
pub open spec fn login_step(s: AppView) -> (AppView, CommandView) {
    match s.spotify_client_id {
        None => (AppView { message: "Set a Spotify Client ID first (press e)."@, ..s }, CommandView::Nothing),
        Some(id) => if s.login_waiting {
            (AppView { message: "Already waiting on a Spotify login."@, ..s }, CommandView::Nothing)
        } else {
            (
                AppView {
                    message: "Opening your browser to log in to Spotify\u{2026} (up to 2 min \u{2014} Esc to cancel)"@,
                    login_waiting: true,
                    ..s
                },
                CommandView::StartLogin { client_id: id },
            )
        },
    }
}

/// The settings screen after `key`, and what the shell must do.
pub open spec fn settings_step(s: AppView, key: Key) -> (AppView, CommandView) {
    if s.login_waiting {
        match key {
            Key::Char('q') => (AppView { should_quit: true, ..s }, CommandView::Nothing),
            Key::Esc | Key::Char('c') => (
                AppView { login_waiting: false, message: "Spotify login cancelled."@, ..s },
                CommandView::CancelLogin,
            ),
            _ => (s, CommandView::Nothing),
        }
    } else if s.editing_settings {
        match key {
            Key::Esc => (
                AppView { editing_settings: false, settings_buffer: Seq::empty(), settings_cursor: 0, ..s },
                CommandView::Nothing,
            ),
            Key::Enter => {
                let value = trimmed(s.settings_buffer);
                (
                    AppView {
                        spotify_client_id: if value.len() == 0 { None } else { Some(value) },
                        editing_settings: false,
                        settings_buffer: Seq::empty(),
                        settings_cursor: 0,
                        ..s
                    },
                    CommandView::Save(SaveNoteView::ClientIdSaved),
                )
            },
            _ => if is_edit_key(key) {
                let (b, c) = line_edit(s.settings_buffer, s.settings_cursor, key);
                (AppView { settings_buffer: b, settings_cursor: c, ..s }, CommandView::Nothing)
            } else {
                (s, CommandView::Nothing)
            },
        }
    } else {
        match key {
            Key::Char('q') => (AppView { should_quit: true, ..s }, CommandView::Nothing),
            Key::Esc | Key::Char('s') => (AppView { screen: Screen::Dashboard, ..s }, CommandView::Nothing),
            Key::Char('e') => {
                let buffer = match s.spotify_client_id {
                    Some(id) => id,
                    None => Seq::empty(),
                };
                (
                    AppView {
                        settings_buffer: buffer,
                        settings_cursor: buffer.len() as usize,
                        editing_settings: true,
                        ..s
                    },
                    CommandView::Nothing,
                )
            },
            Key::Char('l') => login_step(s),
            Key::Char('L') => if s.spotify_refresh_token is Some {
                (AppView { spotify_refresh_token: None, ..s }, CommandView::Save(SaveNoteView::Disconnected))
            } else {
                (s, CommandView::Nothing)
            },
            _ => (s, CommandView::Nothing),
        }
    }
}

/// The state once the background login has reported.
pub open spec fn login_result_step(s: AppView, outcome: LoginOutcomeView) -> (AppView, CommandView) {
    if !s.login_waiting {
        (s, CommandView::Nothing)
    } else {
        match outcome {
            LoginOutcomeView::Connected(token) => (
                AppView { spotify_refresh_token: Some(token), login_waiting: false, ..s },
                CommandView::Save(SaveNoteView::Connected),
            ),
            LoginOutcomeView::Failed(e) => (
                AppView { message: "Spotify login failed: "@ + e, login_waiting: false, ..s },
                CommandView::Nothing,
            ),
            LoginOutcomeView::Crashed => (
                AppView { message: "Spotify login thread crashed unexpectedly."@, login_waiting: false, ..s },
                CommandView::Nothing,
            ),
        }
    }
}

impl App {
    /// Whether a Spotify login is running in the background.
    pub fn spotify_login_pending(&self) -> (r: bool)
        ensures
            r == self.login_waiting,
    {
        self.login_waiting
    }

    fn spotify_login(&mut self) -> (cmd: Command)
        ensures
            (final(self)@, cmd@) == login_step(old(self)@),
    {
        match &self.spotify_client_id {
            None => {
                self.message = owned("Set a Spotify Client ID first (press e).");
                Command::Nothing
            },
            Some(id) => {
                if self.login_waiting {
                    self.message = owned("Already waiting on a Spotify login.");
                    return Command::Nothing;
                }
                let client_id = id.clone();
                self.message = owned(
                    "Opening your browser to log in to Spotify\u{2026} (up to 2 min \u{2014} Esc to cancel)",
                );
                self.login_waiting = true;
                Command::StartLogin { client_id }
            },
        }
    }

    /// Handles a key on the settings screen.
    pub fn handle_settings_key(&mut self, key: Key) -> (cmd: Command)
        requires
            old(self).wf(),
            old(self).screen == Screen::Settings,
            !old(self).login_waiting && old(self).editing_settings ==> line_key_ok(
                old(self).settings_buffer@,
                old(self).settings_cursor,
                key,
            ),
        ensures
            (final(self)@, cmd@) == settings_step(old(self)@, key),
            final(self).wf(),
    {
        if self.login_waiting {
            return match key {
                Key::Char('q') => {
                    self.should_quit = true;
                    Command::Nothing
                },
                Key::Esc | Key::Char('c') => {
                    self.login_waiting = false;
                    self.message = owned("Spotify login cancelled.");
                    Command::CancelLogin
                },
                _ => Command::Nothing,
            };
        }
        if self.editing_settings {
            return match key {
                Key::Esc => {
                    self.editing_settings = false;
                    self.settings_buffer = String::new();
                    self.settings_cursor = 0;
                    Command::Nothing
                },
                Key::Enter => {
                    let value = trim(self.settings_buffer.as_str());
                    self.spotify_client_id = if value.as_str().is_empty() { None } else { Some(value) };
                    self.editing_settings = false;
                    self.settings_buffer = String::new();
                    self.settings_cursor = 0;
                    Command::Save(SaveNote::ClientIdSaved)
                },
                _ => {
                    edit_line(&mut self.settings_buffer, &mut self.settings_cursor, key);
                    Command::Nothing
                },
            };
        }
        match key {
            Key::Char('q') => {
                self.should_quit = true;
                Command::Nothing
            },
            Key::Esc | Key::Char('s') => {
                self.screen = Screen::Dashboard;
                Command::Nothing
            },
            Key::Char('e') => {
                let buffer = match &self.spotify_client_id {
                    Some(id) => id.clone(),
                    None => String::new(),
                };
                self.settings_cursor = char_count(&buffer);
                self.settings_buffer = buffer;
                self.editing_settings = true;
                Command::Nothing
            },
            Key::Char('l') => self.spotify_login(),
            Key::Char('L') => {
                if self.spotify_refresh_token.is_some() {
                    self.spotify_refresh_token = None;
                    Command::Save(SaveNote::Disconnected)
                } else {
                    Command::Nothing
                }
            },
            _ => Command::Nothing,
        }
    }

    /// Reports the outcome of the background Spotify login.
    pub fn on_login(&mut self, outcome: LoginOutcome) -> (cmd: Command)
        requires
            old(self).wf(),
        ensures
            (final(self)@, cmd@) == login_result_step(old(self)@, outcome@),
            final(self).wf(),
    {
        if !self.login_waiting {
            return Command::Nothing;
        }
        match outcome {
            LoginOutcome::Connected(token) => {
                self.spotify_refresh_token = Some(token);
                self.login_waiting = false;
                Command::Save(SaveNote::Connected)
            },
            LoginOutcome::Failed(e) => {
                self.message = join2("Spotify login failed: ", e.as_str());
                self.login_waiting = false;
                Command::Nothing
            },
            LoginOutcome::Crashed => {
                self.message = owned("Spotify login thread crashed unexpectedly.");
                self.login_waiting = false;
                Command::Nothing
            },
        }
    }
}

} // verus!
