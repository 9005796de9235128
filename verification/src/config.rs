//! The saved configuration, where it lives, and the state the program starts in.
//!
//! Reading and writing the file, and reading the environment, belong to the
//! shell; this module decides the file's path from the environment's values
//! and what the program shows for each way loading can end.

use vstd::prelude::*;
use vstd::string::*;

use crate::commands::{Command, CommandView};
use crate::model::{copy_crates, crates_view, CrateLocation, CrateView};
use crate::session::{App, AppView, Screen};
use crate::text::{char_count, join3, owned};
use crate::tracks::{copy_opt, opt_view};

verus! {

broadcast use vstd::string::group_string_axioms;

/// What the configuration file holds.
#[derive(Debug)]
pub struct AppConfig {
    pub crates: Vec<CrateLocation>,
    pub spotify_client_id: Option<String>,
    pub spotify_refresh_token: Option<String>,
    pub tidal_client_id: Option<String>,
    pub tidal_client_secret: Option<String>,
}

pub struct AppConfigView {
    pub crates: Seq<CrateView>,
    pub spotify_client_id: Option<Seq<char>>,
    pub spotify_refresh_token: Option<Seq<char>>,
    pub tidal_client_id: Option<Seq<char>>,
    pub tidal_client_secret: Option<Seq<char>>,
}

impl View for AppConfig {
    type V = AppConfigView;

    open spec fn view(&self) -> AppConfigView {
        AppConfigView {
            crates: crates_view(self.crates@),
            spotify_client_id: opt_view(self.spotify_client_id),
            spotify_refresh_token: opt_view(self.spotify_refresh_token),
            tidal_client_id: opt_view(self.tidal_client_id),
            tidal_client_secret: opt_view(self.tidal_client_secret),
        }
    }
}

impl Default for AppConfig {
    /// No crates and no credentials.
    fn default() -> (r: AppConfig)
        ensures
            r@.crates.len() == 0,
            r@.spotify_client_id is None,
            r@.spotify_refresh_token is None,
            r@.tidal_client_id is None,
            r@.tidal_client_secret is None,
    {
        AppConfig {
            crates: Vec::new(),
            spotify_client_id: None,
            spotify_refresh_token: None,
            tidal_client_id: None,
            tidal_client_secret: None,
        }
    }
}

/// `part` appended to the path `base` as one more component, with `/` between
/// them unless `base` is empty or already ends in `/`.
pub open spec fn path_join(base: Seq<char>, part: Seq<char>) -> Seq<char> {
    if base.len() == 0 || base.last() == '/' {
        base + part
    } else {
        base + seq!['/'] + part
    }
}

/// The configuration file's path: under `APPDATA` when it is set, else under
/// `XDG_CONFIG_HOME`, else under `~/.config`; an error when none of them is set.
pub open spec fn config_path_of(
    appdata: Option<Seq<char>>,
    xdg_config_home: Option<Seq<char>>,
    home: Option<Seq<char>>,
) -> Result<Seq<char>, Seq<char>> {
    match appdata {
        Some(a) => Ok(path_join(path_join(a, "ratcrate"@), "config.json"@)),
        None => match xdg_config_home {
            Some(x) => Ok(path_join(path_join(x, "ratcrate"@), "config.json"@)),
            None => match home {
                Some(h) => Ok(path_join(path_join(path_join(h, ".config"@), "ratcrate"@), "config.json"@)),
                None => Err("could not find a user config directory"@),
            },
        },
    }
}

/// `part` appended to the path `base` as one more component.
pub fn join_path(base: &str, part: &str) -> (r: String)
    ensures
        r@ == path_join(base@, part@),
{
    let n = base.unicode_len();
    if n == 0 || base.get_char(n - 1) == '/' {
        let r = base.to_string();
        r.concat(part)
    } else {
        let r = join3(base, "/", part);
        proof {
            reveal_strlit("/");
        }
        r
    }
}

fn file_under(base: &str) -> (r: String)
    ensures
        r@ == path_join(path_join(base@, "ratcrate"@), "config.json"@),
{
    let dir = join_path(base, "ratcrate");
    join_path(dir.as_str(), "config.json")
}

/// The configuration file's path, from the values of `APPDATA`,
/// `XDG_CONFIG_HOME` and `HOME` (`None` where a variable is not set).
pub fn config_path(
    appdata: &Option<String>,
    xdg_config_home: &Option<String>,
    home: &Option<String>,
) -> (r: Result<String, String>)
    ensures
        match (r, config_path_of(opt_view(*appdata), opt_view(*xdg_config_home), opt_view(*home))) {
            (Ok(p), Ok(q)) => p@ == q,
            (Err(e), Err(f)) => e@ == f,
            _ => false,
        },
{
    match appdata {
        Some(a) => Ok(file_under(a.as_str())),
        None => match xdg_config_home {
            Some(x) => Ok(file_under(x.as_str())),
            None => match home {
                Some(h) => {
                    let dot = join_path(h.as_str(), ".config");
                    Ok(file_under(dot.as_str()))
                },
                None => Err(owned("could not find a user config directory")),
            },
        },
    }
}

/// The configuration file's path as shown to the user: the path, or
/// "platform config directory" when it cannot be found.
pub fn display_path(
    appdata: &Option<String>,
    xdg_config_home: &Option<String>,
    home: &Option<String>,
) -> (r: String)
    ensures
        r@ == match config_path_of(opt_view(*appdata), opt_view(*xdg_config_home), opt_view(*home)) {
            Ok(p) => p,
            Err(_) => "platform config directory"@,
        },
{
    match config_path(appdata, xdg_config_home, home) {
        Ok(p) => p,
        Err(_) => owned("platform config directory"),
    }
}

/// The state before anything is loaded.
pub open spec fn initial_view(config_location: Seq<char>) -> AppView {
    AppView {
        should_quit: false,
        screen: Screen::Dashboard,
        selected_crate: 0,
        selected_playlist: 0,
        config_field: 1,
        editing_config: false,
        config_buffer: Seq::empty(),
        config_cursor: 0,
        editing_tags: false,
        tag_buffer: Seq::empty(),
        tag_cursor: 0,
        crates: Seq::empty(),
        message: "No crates yet. Press c, then n to add one."@,
        pending_delete: None,
        tag_browser: None,
        import: None,
        tracks: None,
        spotify_client_id: None,
        spotify_refresh_token: None,
        editing_settings: false,
        settings_buffer: Seq::empty(),
        settings_cursor: 0,
        login_waiting: false,
        now_playing: None,
        audio_paused: false,
        fetch_waiting: false,
        pending_import: None,
        config_location: config_location,
    }
}

/// The state once loading the configuration ended with `loaded`.
pub open spec fn loaded_view(config_location: Seq<char>, loaded: Result<Option<AppConfigView>, Seq<char>>) -> AppView {
    let s = initial_view(config_location);
    match loaded {
        Ok(Some(c)) => if c.crates.len() > 0 {
            AppView {
                crates: c.crates,
                spotify_client_id: c.spotify_client_id,
                spotify_refresh_token: c.spotify_refresh_token,
                message: "Welcome back. Your crate map is loaded."@,
                ..s
            }
        } else {
            AppView {
                spotify_client_id: c.spotify_client_id,
                spotify_refresh_token: c.spotify_refresh_token,
                ..s
            }
        },
        Ok(None) => AppView {
            message: "No config yet. Press c, then n to add a crate. ("@ + config_location + ")"@,
            ..s
        },
        Err(e) => AppView { message: "Could not load config: "@ + e + ". Starting with no crates."@, ..s },
    }
}

/// The views of the outcomes of loading.
pub open spec fn loaded_outcome(loaded: Result<Option<AppConfig>, String>) -> Result<Option<AppConfigView>, Seq<char>> {
    match loaded {
        Ok(Some(c)) => Ok(Some(c@)),
        Ok(None) => Ok(None),
        Err(e) => Err(e@),
    }
}

impl App {
    /// The state before anything is loaded: no crates, on the dashboard, and
    /// no configuration path known yet.
    pub fn demo() -> (app: App)
        ensures
            app@ == initial_view(Seq::empty()),
            app.wf(),
    {
        let app = App {
            should_quit: false,
            screen: Screen::Dashboard,
            selected_crate: 0,
            selected_playlist: 0,
            config_field: 1,
            editing_config: false,
            config_buffer: String::new(),
            config_cursor: 0,
            editing_tags: false,
            tag_buffer: String::new(),
            tag_cursor: 0,
            crates: Vec::new(),
            message: owned("No crates yet. Press c, then n to add one."),
            pending_delete: None,
            tag_browser: None,
            import: None,
            tracks: None,
            spotify_client_id: None,
            spotify_refresh_token: None,
            editing_settings: false,
            settings_buffer: String::new(),
            settings_cursor: 0,
            login_waiting: false,
            now_playing: None,
            audio_paused: false,
            fetch_waiting: false,
            pending_import: None,
            config_location: String::new(),
        };
        assert(app@.crates =~= Seq::<CrateView>::empty());
        app
    }

    /// The state once loading the configuration file ended with `loaded`
    /// (`Ok(None)` when there is no file, `Err` with the reason when it could
    /// not be read). The shell then checks the crates' paths and rescans them
    /// (`apply_disk_state`).
    pub fn load(loaded: Result<Option<AppConfig>, String>, config_location: String) -> (r: (App, Command))
        ensures
            r.0@ == loaded_view(config_location@, loaded_outcome(loaded)),
            r.1@ == CommandView::StartupScan,
            r.0.wf(),
    {
        let mut app = App::demo();
        app.config_location = config_location;
        match loaded {
            Ok(Some(c)) => {
                app.spotify_client_id = c.spotify_client_id;
                app.spotify_refresh_token = c.spotify_refresh_token;
                if c.crates.len() > 0 {
                    app.crates = c.crates;
                    app.message = owned("Welcome back. Your crate map is loaded.");
                }
            },
            Ok(None) => {
                app.message = join3("No config yet. Press c, then n to add a crate. (", app.config_location.as_str(), ")");
            },
            Err(e) => {
                app.message = join3("Could not load config: ", e.as_str(), ". Starting with no crates.");
            },
        }
        (app, Command::StartupScan)
    }

    /// What is saved: the crates and the Spotify credentials.
    pub fn config(&self) -> (c: AppConfig)
        ensures
            c@ == (AppConfigView {
                crates: self@.crates,
                spotify_client_id: self@.spotify_client_id,
                spotify_refresh_token: self@.spotify_refresh_token,
                tidal_client_id: None,
                tidal_client_secret: None,
            }),
    {
        AppConfig {
            crates: copy_crates(&self.crates),
            spotify_client_id: copy_opt(&self.spotify_client_id),
            spotify_refresh_token: copy_opt(&self.spotify_refresh_token),
            tidal_client_id: None,
            tidal_client_secret: None,
        }
    }
}

} // verus!
