//! What each screen shows: its lines of text, their colors, and which list row
//! is selected. The terminal shell lays these out and draws them.

use vstd::prelude::*;

use crate::model::{service_label, ImportService};
use crate::session::{App, AppView, ImportStep, ImportView};
use crate::text::{chars_of, join2, owned, seq_strings, string_from_range, StrSeq};

verus! {

/// The colors of the interface.
#[derive(Debug, Clone, Copy, PartialEq, Eq, Structural)]
pub enum Tone {
    Ink,
    Cyan,
    Pink,
    Lime,
    Yellow,
    Blue,
    Panel,
    Backdrop,
    /// The terminal's own color.
    Plain,
}

/// A run of text in one style.
#[derive(Debug, Clone)]
pub struct Span {
    pub text: String,
    pub fg: Tone,
    pub bg: Option<Tone>,
    pub bold: bool,
}

pub struct SpanView {
    pub text: Seq<char>,
    pub fg: Tone,
    pub bg: Option<Tone>,
    pub bold: bool,
}

impl View for Span {
    type V = SpanView;

    open spec fn view(&self) -> SpanView {
        SpanView { text: self.text@, fg: self.fg, bg: self.bg, bold: self.bold }
    }
}

/// A line: spans one after the other.
pub type Line = Vec<Span>;

pub type LineView = Seq<SpanView>;

pub open spec fn line_view(l: Line) -> LineView {
    l@.map_values(|s: Span| s@)
}

pub open spec fn lines_view(v: Seq<Line>) -> Seq<LineView> {
    v.map_values(|l: Line| line_view(l))
}

/// Plain text in a color.
pub open spec fn plain(text: Seq<char>, fg: Tone) -> SpanView {
    SpanView { text: text, fg: fg, bg: None, bold: false }
}

/// Bold text in a color.
pub open spec fn strong(text: Seq<char>, fg: Tone) -> SpanView {
    SpanView { text: text, fg: fg, bg: None, bold: true }
}

/// A key shown as a pill: ` label ` in bold, `fg` on `bg`.
pub open spec fn pill(label: Seq<char>, fg: Tone, bg: Tone) -> SpanView {
    SpanView { text: " "@ + label + " "@, fg: fg, bg: Some(bg), bold: true }
}

pub(crate) fn span(text: String, fg: Tone) -> (r: Span)
    ensures
        r@ == plain(text@, fg),
{
    Span { text, fg, bg: None, bold: false }
}

pub(crate) fn bold(text: String, fg: Tone) -> (r: Span)
    ensures
        r@ == strong(text@, fg),
{
    Span { text, fg, bg: None, bold: true }
}

pub(crate) fn key_pill(label: &str, fg: Tone, bg: Tone) -> (r: Span)
    ensures
        r@ == pill(label@, fg, bg),
{
    let text = crate::text::join3(" ", label, " ");
    Span { text, fg, bg: Some(bg), bold: true }
}

pub(crate) fn one(s: Span) -> (l: Line)
    ensures
        line_view(l) == seq![s@],
{
    let mut l: Line = Vec::new();
    l.push(s);
    assert(line_view(l) =~= seq![s@]);
    l
}

// ---------------------------------------------------------------------------
// Lists and text fields

/// A row of a choice list: `› ` and the label in ink when selected, two
/// spaces and the label in cyan otherwise.
pub open spec fn choice_line(label: Seq<char>, selected: bool) -> LineView {
    if selected {
        seq![plain("› "@ + label, Tone::Ink)]
    } else {
        seq![plain("  "@ + label, Tone::Cyan)]
    }
}

/// The rows of a choice list whose row `selected` is selected.
pub open spec fn choice_lines(labels: StrSeq, selected: int) -> Seq<LineView> {
    Seq::new(labels.len(), |i: int| choice_line(labels[i], i == selected))
}

/// The rows of a choice list.
pub fn choice_list(labels: &Vec<String>, selected: usize) -> (r: Vec<Line>)
    ensures
        lines_view(r@) == choice_lines(seq_strings(labels@), selected as int),
{
    let mut r: Vec<Line> = Vec::new();
    for i in 0..labels.len()
        invariant
            r.len() == i,
            forall|j: int| 0 <= j < i ==> #[trigger] line_view(r@[j]) == choice_line(seq_strings(labels@)[j], j == selected),
    {
        let text = if i == selected {
            join2("› ", labels[i].as_str())
        } else {
            join2("  ", labels[i].as_str())
        };
        let tone = if i == selected { Tone::Ink } else { Tone::Cyan };
        let line = one(span(text, tone));
        r.push(line);
    }
    assert(lines_view(r@) =~= choice_lines(seq_strings(labels@), selected as int));
    r
}

/// A text field being edited: the text before the cursor, a block cursor,
/// and the text after it, all in ink.
pub open spec fn cursor_line(buf: Seq<char>, cursor: nat) -> LineView {
    let c = if cursor <= buf.len() { cursor as int } else { buf.len() as int };
    seq![plain(buf.take(c), Tone::Ink), plain("█"@, Tone::Ink), plain(buf.skip(c), Tone::Ink)]
}

/// A text field being edited, with its cursor.
pub fn cursor_spans(buf: &String, cursor: usize) -> (r: Line)
    ensures
        line_view(r) == cursor_line(buf@, cursor as nat),
{
    let v = chars_of(buf.as_str());
    let c = if cursor <= v.len() { cursor } else { v.len() };
    let before = string_from_range(&v, 0, c);
    let after = string_from_range(&v, c, v.len());
    assert(before@ =~= buf@.take(c as int));
    assert(after@ =~= buf@.skip(c as int));
    let mut r: Line = Vec::new();
    r.push(span(before, Tone::Ink));
    r.push(span(owned("█"), Tone::Ink));
    r.push(span(after, Tone::Ink));
    assert(line_view(r) =~= cursor_line(buf@, cursor as nat));
    r
}

// ---------------------------------------------------------------------------
// The import screen

/// The body of a screen panel: a list with a selected row, or lines of text.
#[derive(Debug)]
pub enum Body {
    List { title: String, items: Vec<Line>, selected: usize },
    Text { title: String, lines: Vec<Line> },
}

pub enum BodyView {
    List { title: Seq<char>, items: Seq<LineView>, selected: usize },
    Text { title: Seq<char>, lines: Seq<LineView> },
}

pub open spec fn body_view(b: Body) -> BodyView {
    match b {
        Body::List { title, items, selected } => BodyView::List { title: title@, items: lines_view(items@), selected: selected },
        Body::Text { title, lines } => BodyView::Text { title: title@, lines: lines_view(lines@) },
    }
}

/// What the import screen shows: where the dialog stands, the panel of the
/// current step, and the hint for it.
#[derive(Debug)]
pub struct ImportScreen {
    pub breadcrumb: Line,
    pub body: Body,
    pub footer: Line,
}

/// The breadcrumb of the import dialog: the service and the kind of playlist
/// chosen so far.
pub open spec fn breadcrumb_of(i: ImportView) -> LineView {
    seq![
        strong("Import"@, Tone::Yellow),
        plain(" › "@, Tone::Blue),
        plain(
            match i.service {
                Some(s) => service_label(s),
                None => "service?"@,
            },
            Tone::Cyan,
        ),
        plain(" › "@, Tone::Blue),
        plain(
            match i.is_new {
                Some(true) => "new playlist"@,
                Some(false) => "existing playlist"@,
                None => "new or existing?"@,
            },
            Tone::Cyan,
        ),
    ]
}

/// Whether the dialog asks for a link: an existing playlist is being linked
/// to a Spotify or SoundCloud playlist.
pub open spec fn online(i: ImportView) -> bool {
    (i.service == Some(ImportService::Spotify) || i.service == Some(ImportService::SoundCloud)) && i.is_new
        != Some(true)
}

/// The prompt of the name step.
pub open spec fn name_prompt(i: ImportView) -> Seq<char> {
    if i.is_new == Some(true) {
        "New playlist name (also used as the folder name):"@
    } else if i.service == Some(ImportService::Spotify) {
        "Paste the Spotify playlist link (open.spotify.com/playlist/...):"@
    } else if i.service == Some(ImportService::SoundCloud) {
        "Paste the SoundCloud playlist link (public playlists only):"@
    } else {
        "Playlist name on the service:"@
    }
}

/// The hint shown under the dialog.
pub open spec fn import_hint(i: ImportView) -> Seq<char> {
    if i.step == ImportStep::Name && online(i) {
        "paste the link · Enter confirm · Esc back"@
    } else if i.step == ImportStep::Name {
        "type the name · Enter confirm · Esc back"@
    } else {
        "↑/↓ select · Enter confirm · Esc back"@
    }
}

/// The labels of the services, in the order the dialog lists them.
pub open spec fn service_labels() -> StrSeq {
    seq![service_label(ImportService::Tidal), service_label(ImportService::Spotify), service_label(ImportService::SoundCloud)]
}

/// The names of some crates or playlists.
pub open spec fn names_of_crates(s: AppView) -> StrSeq {
    s.crates.map_values(|c: crate::model::CrateView| c.name)
}

/// The playlists the dialog offers: those of the chosen crate.
pub open spec fn offered_playlists(s: AppView, i: ImportView) -> StrSeq {
    if i.crate_index < s.crates.len() {
        s.crates[i.crate_index as int].playlists.map_values(|p: crate::model::PlaylistView| p.name)
    } else {
        Seq::empty()
    }
}

/// The panel of the current step.
pub open spec fn import_body(s: AppView, i: ImportView) -> BodyView {
    match i.step {
        ImportStep::Service => BodyView::List {
            title: "✦ CHOOSE SERVICE ✦"@,
            items: choice_lines(service_labels(), i.service_index as int),
            selected: i.service_index,
        },
        ImportStep::Mode => BodyView::List {
            title: "✦ NEW OR EXISTING? ✦"@,
            items: choice_lines(seq!["This is a new playlist"@, "Link to an existing playlist"@], i.mode_index as int),
            selected: i.mode_index,
        },
        ImportStep::Crate => if s.crates.len() == 0 {
            BodyView::Text {
                title: "✦ CHOOSE CRATE ✦"@,
                lines: seq![seq![plain("  No crates yet. Esc back, then c to add one."@, Tone::Ink)]],
            }
        } else {
            BodyView::List {
                title: "✦ CHOOSE CRATE ✦"@,
                items: choice_lines(names_of_crates(s), i.crate_index as int),
                selected: i.crate_index,
            }
        },
        ImportStep::Playlist => if offered_playlists(s, i).len() == 0 {
            BodyView::Text {
                title: "✦ CHOOSE PLAYLIST ✦"@,
                lines: seq![seq![plain("  This crate has no playlists yet."@, Tone::Ink)]],
            }
        } else {
            BodyView::List {
                title: "✦ CHOOSE PLAYLIST ✦"@,
                items: choice_lines(offered_playlists(s, i), i.playlist_index as int),
                selected: i.playlist_index,
            }
        },
        ImportStep::Name => BodyView::Text {
            title: if online(i) { "✦ PLAYLIST LINK ✦"@ } else { "✦ PLAYLIST NAME ✦"@ },
            lines: seq![
                seq![plain(name_prompt(i), Tone::Yellow)],
                Seq::empty(),
                cursor_line(i.name_buffer, i.name_cursor as nat),
            ],
        },
    }
}

/// The footer of the import screen: the back key and the hint.
pub open spec fn import_footer(i: ImportView) -> LineView {
    seq![pill("Esc"@, Tone::Backdrop, Tone::Pink), plain(" back   "@, Tone::Cyan), plain(import_hint(i), Tone::Yellow)]
}

fn labels_of_crates(app: &App) -> (r: Vec<String>)
    ensures
        seq_strings(r@) == names_of_crates(app@),
{
    let mut r: Vec<String> = Vec::new();
    for k in 0..app.crates.len()
        invariant
            r.len() == k,
            forall|j: int| 0 <= j < k ==> #[trigger] r@[j]@ == app@.crates[j].name,
    {
        assert(app@.crates[k as int] == app.crates@[k as int]@);
        r.push(app.crates[k].name.clone());
    }
    assert(seq_strings(r@) =~= names_of_crates(app@));
    r
}

fn labels_of_playlists(app: &App, crate_index: usize) -> (r: Vec<String>)
    ensures
        seq_strings(r@) == (if crate_index < app@.crates.len() {
            app@.crates[crate_index as int].playlists.map_values(|p: crate::model::PlaylistView| p.name)
        } else {
            Seq::<Seq<char>>::empty()
        }),
{
    let mut r: Vec<String> = Vec::new();
    if crate_index >= app.crates.len() {
        assert(seq_strings(r@) =~= Seq::<Seq<char>>::empty());
        return r;
    }
    let c = &app.crates[crate_index];
    assert(app@.crates[crate_index as int] == c@);
    for k in 0..c.playlists.len()
        invariant
            r.len() == k,
            forall|j: int| 0 <= j < k ==> #[trigger] r@[j]@ == c@.playlists[j].name,
    {
        assert(c@.playlists[k as int] == c.playlists@[k as int]@);
        r.push(c.playlists[k].name.clone());
    }
    assert(seq_strings(r@) =~= c@.playlists.map_values(|p: crate::model::PlaylistView| p.name));
    r
}

fn text_body(title: &str, line: Line) -> (b: Body)
    ensures
        body_view(b) == (BodyView::Text { title: title@, lines: seq![line_view(line)] }),
{
    let mut lines: Vec<Line> = Vec::new();
    lines.push(line);
    assert(lines_view(lines@) =~= seq![line_view(line)]);
    Body::Text { title: owned(title), lines }
}

impl App {
    /// What the import screen shows, when the dialog is open.
    pub fn import_screen(&self) -> (r: Option<ImportScreen>)
        ensures
            match (self@.import, r) {
                (Some(i), Some(sc)) => line_view(sc.breadcrumb) == breadcrumb_of(i) && body_view(sc.body) == import_body(self@, i)
                    && line_view(sc.footer) == import_footer(i),
                (None, None) => true,
                _ => false,
            },
    {
        let i = match &self.import {
            Some(i) => i,
            None => return None,
        };
        let ghost iv = i@;
        let mut crumb: Line = Vec::new();
        crumb.push(bold(owned("Import"), Tone::Yellow));
        crumb.push(span(owned(" › "), Tone::Blue));
        crumb.push(span(
            match i.service {
                Some(s) => owned(s.label()),
                None => owned("service?"),
            },
            Tone::Cyan,
        ));
        crumb.push(span(owned(" › "), Tone::Blue));
        crumb.push(span(
            match i.is_new {
                Some(true) => owned("new playlist"),
                Some(false) => owned("existing playlist"),
                None => owned("new or existing?"),
            },
            Tone::Cyan,
        ));
        assert(line_view(crumb) =~= breadcrumb_of(iv));
        let is_online = match i.service {
            Some(ImportService::Spotify) | Some(ImportService::SoundCloud) => i.is_new != Some(true),
            _ => false,
        };
        let body = match i.step {
            ImportStep::Service => {
                let mut labels: Vec<String> = Vec::new();
                labels.push(owned(ImportService::Tidal.label()));
                labels.push(owned(ImportService::Spotify.label()));
                labels.push(owned(ImportService::SoundCloud.label()));
                assert(seq_strings(labels@) =~= service_labels());
                Body::List { title: owned("✦ CHOOSE SERVICE ✦"), items: choice_list(&labels, i.service_index), selected: i.service_index }
            },
            ImportStep::Mode => {
                let mut labels: Vec<String> = Vec::new();
                labels.push(owned("This is a new playlist"));
                labels.push(owned("Link to an existing playlist"));
                assert(seq_strings(labels@) =~= seq!["This is a new playlist"@, "Link to an existing playlist"@]);
                Body::List { title: owned("✦ NEW OR EXISTING? ✦"), items: choice_list(&labels, i.mode_index), selected: i.mode_index }
            },
            ImportStep::Crate => if self.crates.len() == 0 {
                text_body("✦ CHOOSE CRATE ✦", one(span(owned("  No crates yet. Esc back, then c to add one."), Tone::Ink)))
            } else {
                let labels = labels_of_crates(self);
                Body::List { title: owned("✦ CHOOSE CRATE ✦"), items: choice_list(&labels, i.crate_index), selected: i.crate_index }
            },
            ImportStep::Playlist => {
                let labels = labels_of_playlists(self, i.crate_index);
                if labels.len() == 0 {
                    text_body("✦ CHOOSE PLAYLIST ✦", one(span(owned("  This crate has no playlists yet."), Tone::Ink)))
                } else {
                    Body::List { title: owned("✦ CHOOSE PLAYLIST ✦"), items: choice_list(&labels, i.playlist_index), selected: i.playlist_index }
                }
            },
            ImportStep::Name => {
                let prompt = if i.is_new == Some(true) {
                    owned("New playlist name (also used as the folder name):")
                } else {
                    match i.service {
                        Some(ImportService::Spotify) => owned("Paste the Spotify playlist link (open.spotify.com/playlist/...):"),
                        Some(ImportService::SoundCloud) => owned("Paste the SoundCloud playlist link (public playlists only):"),
                        _ => owned("Playlist name on the service:"),
                    }
                };
                let mut lines: Vec<Line> = Vec::new();
                lines.push(one(span(prompt, Tone::Yellow)));
                lines.push(Vec::new());
                lines.push(cursor_spans(&i.name_buffer, i.name_cursor));
                assert(line_view(lines@[1]) =~= Seq::<SpanView>::empty());
                assert(lines_view(lines@) =~= seq![
                    seq![plain(name_prompt(iv), Tone::Yellow)],
                    Seq::<SpanView>::empty(),
                    cursor_line(iv.name_buffer, iv.name_cursor as nat),
                ]);
                let title = if is_online { owned("✦ PLAYLIST LINK ✦") } else { owned("✦ PLAYLIST NAME ✦") };
                Body::Text { title, lines }
            },
        };
        let hint = if i.step == ImportStep::Name && is_online {
            owned("paste the link · Enter confirm · Esc back")
        } else if i.step == ImportStep::Name {
            owned("type the name · Enter confirm · Esc back")
        } else {
            owned("↑/↓ select · Enter confirm · Esc back")
        };
        let mut footer: Line = Vec::new();
        footer.push(key_pill("Esc", Tone::Backdrop, Tone::Pink));
        footer.push(span(owned(" back   "), Tone::Cyan));
        footer.push(span(hint, Tone::Yellow));
        assert(line_view(footer) =~= import_footer(iv));
        Some(ImportScreen { breadcrumb: crumb, body, footer })
    }
}

// ---------------------------------------------------------------------------
// The settings screen

/// The number of playlists of all crates.
pub open spec fn playlist_total(cs: Seq<crate::model::CrateView>) -> nat
    decreases cs.len(),
{
    if cs.len() == 0 {
        0
    } else {
        playlist_total(cs.drop_last()) + cs.last().playlists.len()
    }
}

/// The number of paths of all crates.
pub open spec fn path_total(cs: Seq<crate::model::CrateView>) -> nat
    decreases cs.len(),
{
    if cs.len() == 0 {
        0
    } else {
        path_total(cs.drop_last()) + cs.last().locations.len()
    }
}

/// A section heading.
pub open spec fn heading(text: Seq<char>) -> LineView {
    seq![strong(text, Tone::Yellow)]
}

/// The keys listed at the end of the settings screen.
pub open spec fn keybinding_lines() -> Seq<LineView> {
    seq![
        seq![plain("  j/k, ↑/↓    navigate playlists"@, Tone::Ink)],
        seq![plain("  tab         change crate"@, Tone::Ink)],
        seq![plain("  c           manage crates"@, Tone::Ink)],
        seq![plain("  n           new crate"@, Tone::Ink)],
        seq![plain("  i           import / link a playlist"@, Tone::Ink)],
        seq![plain("  t / T       browse tags / edit tags"@, Tone::Ink)],
        seq![plain("  r           rescan playlists from disk"@, Tone::Ink)],
        seq![plain("  s           this screen"@, Tone::Ink)],
        seq![plain("  q           quit"@, Tone::Ink)],
    ]
}

/// The line of the Spotify Client ID: the field being edited, or the id (or
/// a note that it is not set).
pub open spec fn client_id_line(s: AppView) -> LineView {
    if s.editing_settings {
        cursor_line(s.settings_buffer, s.settings_cursor as nat)
    } else {
        match s.spotify_client_id {
            Some(id) => seq![plain("  "@ + id, Tone::Cyan)],
            None => seq![plain("  (not set \u{2014} press e to add it)"@, Tone::Blue)],
        }
    }
}

/// Whether a Spotify session is stored.
pub open spec fn session_line(s: AppView) -> LineView {
    if s.spotify_refresh_token is Some {
        seq![strong("  ● connected"@, Tone::Lime), plain("   (press L to disconnect)"@, Tone::Blue)]
    } else {
        seq![strong("  ○ not connected"@, Tone::Pink), plain("   (press l to log in)"@, Tone::Blue)]
    }
}

/// The lines of the settings panel.
pub open spec fn settings_lines(s: AppView) -> Seq<LineView> {
    seq![
        heading("Status"@),
        seq![plain("  "@ + s.message, Tone::Ink)],
        Seq::empty(),
        heading("Config file"@),
        seq![plain("  "@ + s.config_location, Tone::Cyan)],
        Seq::empty(),
        heading("Spotify Client ID"@),
        client_id_line(s),
        Seq::empty(),
        heading("Spotify session"@),
        session_line(s),
        Seq::empty(),
        heading("Overview"@),
        seq![plain(
            "  "@ + crate::text::decimal(s.crates.len()) + " crates · "@ + crate::text::decimal(path_total(s.crates))
                + " paths · "@ + crate::text::decimal(playlist_total(s.crates)) + " playlists"@,
            Tone::Ink,
        )],
        Seq::empty(),
        heading("Keybindings"@),
    ] + keybinding_lines()
}

/// The footer of the settings screen.
pub open spec fn settings_footer(s: AppView) -> LineView {
    if s.login_waiting {
        seq![
            plain("waiting for Spotify login…   "@, Tone::Yellow),
            pill("Esc / c"@, Tone::Backdrop, Tone::Pink),
            plain(" cancel   "@, Tone::Cyan),
            pill("q"@, Tone::Panel, Tone::Ink),
            plain(" quit"@, Tone::Cyan),
        ]
    } else if s.editing_settings {
        seq![
            pill("Enter"@, Tone::Backdrop, Tone::Pink),
            plain(" save   "@, Tone::Cyan),
            pill("Esc"@, Tone::Panel, Tone::Ink),
            plain(" cancel"@, Tone::Cyan),
        ]
    } else {
        seq![
            pill("Esc / s"@, Tone::Backdrop, Tone::Pink),
            plain(" back   "@, Tone::Cyan),
            pill("e"@, Tone::Panel, Tone::Ink),
            plain(" client id   "@, Tone::Cyan),
            pill("l / L"@, Tone::Panel, Tone::Ink),
            plain(" connect / disconnect Spotify"@, Tone::Cyan),
        ]
    }
}

pub(crate) fn empty_line() -> (l: Line)
    ensures
        line_view(l) == Seq::<SpanView>::empty(),
{
    let l: Line = Vec::new();
    assert(line_view(l) =~= Seq::<SpanView>::empty());
    l
}

pub(crate) fn heading_line(text: &str) -> (l: Line)
    ensures
        line_view(l) == heading(text@),
{
    one(bold(owned(text), Tone::Yellow))
}

pub(crate) fn push_line(v: &mut Vec<Line>, l: Line)
    ensures
        lines_view(final(v)@) == lines_view(old(v)@).push(line_view(l)),
{
    let ghost before = lines_view(v@);
    v.push(l);
    assert(lines_view(v@) =~= before.push(line_view(l)));
}

impl App {
    fn totals(&self) -> (r: (usize, usize))
        requires
            path_total(self@.crates) <= usize::MAX,
            playlist_total(self@.crates) <= usize::MAX,
        ensures
            r.0 == path_total(self@.crates),
            r.1 == playlist_total(self@.crates),
    {
        let ghost cs = self@.crates;
        let mut paths: usize = 0;
        let mut playlists: usize = 0;
        for k in 0..self.crates.len()
            invariant
                cs == self@.crates,
                path_total(cs) <= usize::MAX,
                playlist_total(cs) <= usize::MAX,
                paths == path_total(cs.take(k as int)),
                playlists == playlist_total(cs.take(k as int)),
        {
            assert(cs.take(k + 1).drop_last() =~= cs.take(k as int));
            assert(cs[k as int] == self.crates@[k as int]@);
            proof {
                lemma_totals_monotone(cs, k + 1);
            }
            paths = paths + self.crates[k].locations.len();
            playlists = playlists + self.crates[k].playlists.len();
        }
        assert(cs.take(self.crates.len() as int) =~= cs);
        (paths, playlists)
    }

    /// The lines of the settings panel, and the footer under it.
    pub fn settings_screen(&self) -> (r: (Vec<Line>, Line))
        requires
            path_total(self@.crates) <= usize::MAX,
            playlist_total(self@.crates) <= usize::MAX,
        ensures
            lines_view(r.0@) == settings_lines(self@),
            line_view(r.1) == settings_footer(self@),
    {
        let (paths, playlists) = self.totals();
        let mut lines: Vec<Line> = Vec::new();
        push_line(&mut lines, heading_line("Status"));
        push_line(&mut lines, one(span(join2("  ", self.message.as_str()), Tone::Ink)));
        push_line(&mut lines, empty_line());
        push_line(&mut lines, heading_line("Config file"));
        push_line(&mut lines, one(span(join2("  ", self.config_location.as_str()), Tone::Cyan)));
        push_line(&mut lines, empty_line());
        push_line(&mut lines, heading_line("Spotify Client ID"));
        let id_line = if self.editing_settings {
            cursor_spans(&self.settings_buffer, self.settings_cursor)
        } else {
            match &self.spotify_client_id {
                Some(id) => one(span(join2("  ", id.as_str()), Tone::Cyan)),
                None => one(span(owned("  (not set \u{2014} press e to add it)"), Tone::Blue)),
            }
        };
        push_line(&mut lines, id_line);
        push_line(&mut lines, empty_line());
        push_line(&mut lines, heading_line("Spotify session"));
        let mut session: Line = Vec::new();
        if self.spotify_refresh_token.is_some() {
            session.push(bold(owned("  ● connected"), Tone::Lime));
            session.push(span(owned("   (press L to disconnect)"), Tone::Blue));
        } else {
            session.push(bold(owned("  ○ not connected"), Tone::Pink));
            session.push(span(owned("   (press l to log in)"), Tone::Blue));
        }
        assert(line_view(session) =~= session_line(self@));
        push_line(&mut lines, session);
        push_line(&mut lines, empty_line());
        push_line(&mut lines, heading_line("Overview"));
        let mut overview = owned("  ");
        overview.append(crate::text::decimal_string(self.crates.len() as u64).as_str());
        overview.append(" crates · ");
        overview.append(crate::text::decimal_string(paths as u64).as_str());
        overview.append(" paths · ");
        overview.append(crate::text::decimal_string(playlists as u64).as_str());
        overview.append(" playlists");
        push_line(&mut lines, one(span(overview, Tone::Ink)));
        push_line(&mut lines, empty_line());
        push_line(&mut lines, heading_line("Keybindings"));
        push_line(&mut lines, one(span(owned("  j/k, ↑/↓    navigate playlists"), Tone::Ink)));
        push_line(&mut lines, one(span(owned("  tab         change crate"), Tone::Ink)));
        push_line(&mut lines, one(span(owned("  c           manage crates"), Tone::Ink)));
        push_line(&mut lines, one(span(owned("  n           new crate"), Tone::Ink)));
        push_line(&mut lines, one(span(owned("  i           import / link a playlist"), Tone::Ink)));
        push_line(&mut lines, one(span(owned("  t / T       browse tags / edit tags"), Tone::Ink)));
        push_line(&mut lines, one(span(owned("  r           rescan playlists from disk"), Tone::Ink)));
        push_line(&mut lines, one(span(owned("  s           this screen"), Tone::Ink)));
        push_line(&mut lines, one(span(owned("  q           quit"), Tone::Ink)));
        assert(lines_view(lines@) =~= settings_lines(self@));
        let mut footer: Line = Vec::new();
        if self.login_waiting {
            footer.push(span(owned("waiting for Spotify login…   "), Tone::Yellow));
            footer.push(key_pill("Esc / c", Tone::Backdrop, Tone::Pink));
            footer.push(span(owned(" cancel   "), Tone::Cyan));
            footer.push(key_pill("q", Tone::Panel, Tone::Ink));
            footer.push(span(owned(" quit"), Tone::Cyan));
        } else if self.editing_settings {
            footer.push(key_pill("Enter", Tone::Backdrop, Tone::Pink));
            footer.push(span(owned(" save   "), Tone::Cyan));
            footer.push(key_pill("Esc", Tone::Panel, Tone::Ink));
            footer.push(span(owned(" cancel"), Tone::Cyan));
        } else {
            footer.push(key_pill("Esc / s", Tone::Backdrop, Tone::Pink));
            footer.push(span(owned(" back   "), Tone::Cyan));
            footer.push(key_pill("e", Tone::Panel, Tone::Ink));
            footer.push(span(owned(" client id   "), Tone::Cyan));
            footer.push(key_pill("l / L", Tone::Panel, Tone::Ink));
            footer.push(span(owned(" connect / disconnect Spotify"), Tone::Cyan));
        }
        assert(line_view(footer) =~= settings_footer(self@));
        (lines, footer)
    }
}

proof fn lemma_totals_monotone(cs: Seq<crate::model::CrateView>, k: int)
    requires
        0 <= k <= cs.len(),
    ensures
        path_total(cs.take(k)) <= path_total(cs),
        playlist_total(cs.take(k)) <= playlist_total(cs),
    decreases cs.len() - k,
{
    if k < cs.len() {
        lemma_totals_monotone(cs, k + 1);
        assert(cs.take(k + 1).drop_last() =~= cs.take(k));
    } else {
        assert(cs.take(k) =~= cs);
    }
}

// ---------------------------------------------------------------------------
// The track list page

/// A value, or a dash when there is none.
pub open spec fn or_dash(v: Option<Seq<char>>) -> Seq<char> {
    match v {
        Some(x) => x,
        None => "—"@,
    }
}

/// The extension of a file name, as `Path::extension` reads it: what follows
/// the last `.`, unless there is no `.` or the only one starts the name.
pub open spec fn extension_of(name: Seq<char>) -> Option<Seq<char>> {
    let after = crate::urls::after_last(name, '.');
    if after.len() == name.len() {
        None
    } else if name.len() > 0 && name[0] == '.' && after.len() + 1 == name.len() {
        None
    } else {
        Some(after)
    }
}

/// A label and its value.
pub open spec fn field_line(label: Seq<char>, value: Seq<char>, fg: Tone) -> LineView {
    seq![plain(label, Tone::Yellow), plain(value, fg)]
}

/// The genre and year of a track, joined with ` · `, or a dash.
pub open spec fn extras_text(m: crate::tracks::TrackMetadataView) -> Seq<char> {
    let parts = match (m.genre, m.year) {
        (Some(g), Some(y)) => seq![g, crate::text::decimal(y as nat)],
        (Some(g), None) => seq![g],
        (None, Some(y)) => seq![crate::text::decimal(y as nat)],
        (None, None) => Seq::empty(),
    };
    if parts.len() == 0 {
        "—"@
    } else {
        crate::text::joined(parts, " · "@)
    }
}

/// The details panel of the selected track: its name, whether it is a local
/// file, its tags (when read), and for a local file its format, size and age.
/// `size` is the size as the shell prints it, `now_secs` the current time in
/// seconds since the Unix epoch.
pub open spec fn details_lines(v: crate::session::TrackPageView, size: Seq<char>, now_secs: u64) -> Seq<LineView> {
    if v.selected >= v.tracks.len() {
        Seq::empty()
    } else {
        let t = v.tracks[v.selected as int];
        let remote = t.remote is Some;
        let head = seq![
            seq![strong(t.name, Tone::Ink)],
            if remote {
                seq![strong("☁ metadata only \u{2014} no local file"@, Tone::Yellow)]
            } else {
                seq![strong("♪ downloaded"@, Tone::Lime)]
            },
            Seq::empty(),
        ];
        let tags = match v.metadata {
            Some(m) => seq![
                field_line("title: "@, or_dash(m.title), Tone::Ink),
                field_line("artist: "@, or_dash(m.artist), Tone::Ink),
                field_line("album: "@, or_dash(m.album), Tone::Ink),
                field_line("genre / year: "@, extras_text(m), Tone::Ink),
                field_line("duration: "@, crate::display::duration_text(m.duration_secs as nat), Tone::Ink),
            ],
            None => seq![seq![plain("no audio tags found"@, Tone::Blue)]],
        };
        let file = if remote {
            Seq::empty()
        } else {
            seq![
                Seq::empty(),
                field_line(
                    "format: "@,
                    match extension_of(t.name) {
                        Some(e) => crate::text::uppercase(e),
                        None => "—"@,
                    },
                    Tone::Cyan,
                ),
                field_line("size: "@, size, Tone::Cyan),
                field_line(
                    "modified: "@,
                    match t.modified {
                        Some(m) => crate::display::age_text(if m <= now_secs { Some((now_secs - m) as u64) } else { None }),
                        None => "—"@,
                    },
                    Tone::Cyan,
                ),
            ]
        };
        head + tags + file
    }
}

pub(crate) fn field(label: &str, value: String, fg: Tone) -> (l: Line)
    ensures
        line_view(l) == field_line(label@, value@, fg),
{
    let mut l: Line = Vec::new();
    l.push(span(owned(label), Tone::Yellow));
    l.push(span(value, fg));
    assert(line_view(l) =~= field_line(label@, value@, fg));
    l
}

fn dash_or(v: &Option<String>) -> (r: String)
    ensures
        r@ == or_dash(crate::tracks::opt_view(*v)),
{
    match v {
        Some(x) => x.clone(),
        None => owned("—"),
    }
}

fn extension(name: &str) -> (r: Option<String>)
    ensures
        crate::tracks::opt_view(r) == extension_of(name@),
{
    let v = chars_of(name);
    let n = v.len();
    let mut k = n;
    assert(v@.subrange(n as int, n as int) =~= Seq::<char>::empty());
    assert(v@.take(n as int) =~= v@);
    assert(crate::urls::after_last(v@.take(n as int), '.') + Seq::<char>::empty() =~= crate::urls::after_last(v@, '.'));
    while k > 0 && v[k - 1] != '.'
        invariant
            k <= n == v.len(),
            v@ == name@,
            crate::urls::after_last(v@, '.') == crate::urls::after_last(v@.take(k as int), '.') + v@.subrange(k as int, n as int),
        decreases k,
    {
        assert(v@.take(k as int).drop_last() =~= v@.take(k - 1));
        assert(v@.subrange(k - 1, n as int) =~= seq![v@[k - 1]] + v@.subrange(k as int, n as int));
        assert(crate::urls::after_last(v@.take(k as int), '.') == crate::urls::after_last(v@.take(k - 1), '.').push(v@[k - 1]));
        k = k - 1;
    }
    if k == 0 {
        assert(v@.take(0) =~= Seq::<char>::empty());
        assert(crate::urls::after_last(v@, '.') =~= v@);
        return None;
    }
    assert(v@.take(k as int).last() == '.');
    assert(crate::urls::after_last(v@.take(k as int), '.') =~= Seq::<char>::empty());
    assert(crate::urls::after_last(v@, '.') =~= v@.subrange(k as int, n as int));
    if v[0] == '.' && k == 1 {
        return None;
    }
    Some(string_from_range(&v, k, n))
}

fn extras(m: &crate::tracks::TrackMetadata) -> (r: String)
    ensures
        r@ == extras_text(m@),
{
    let mut parts: Vec<String> = Vec::new();
    if let Some(g) = &m.genre {
        parts.push(g.clone());
    }
    if let Some(y) = m.year {
        parts.push(crate::text::decimal_string(y as u64));
    }
    if parts.len() == 0 {
        return owned("—");
    }
    let r = crate::text::join(&parts, " · ");
    assert(seq_strings(parts@) =~= match (crate::tracks::opt_view(m.genre), m.year) {
        (Some(g), Some(y)) => seq![g, crate::text::decimal(y as nat)],
        (Some(g), None) => seq![g],
        (None, Some(y)) => seq![crate::text::decimal(y as nat)],
        (None, None) => Seq::<Seq<char>>::empty(),
    });
    r
}

impl App {
    /// The details panel of the selected track (see `details_lines`).
    pub fn track_details_screen(&self, size: &str, now_secs: u64) -> (r: Vec<Line>)
        requires
            self.tracks is Some,
        ensures
            lines_view(r@) == details_lines(self@.tracks.unwrap(), size@, now_secs),
    {
        let view = self.tracks.as_ref().unwrap();
        let mut lines: Vec<Line> = Vec::new();
        if view.selected >= view.tracks.len() {
            assert(lines_view(lines@) =~= Seq::<LineView>::empty());
            return lines;
        }
        let t = &view.tracks[view.selected];
        assert(self@.tracks.unwrap().tracks[view.selected as int] == t@);
        let remote = t.remote_metadata.is_some();
        push_line(&mut lines, one(bold(t.name.clone(), Tone::Ink)));
        if remote {
            push_line(&mut lines, one(bold(owned("☁ metadata only \u{2014} no local file"), Tone::Yellow)));
        } else {
            push_line(&mut lines, one(bold(owned("♪ downloaded"), Tone::Lime)));
        }
        push_line(&mut lines, empty_line());
        match &view.metadata {
            Some(m) => {
                push_line(&mut lines, field("title: ", dash_or(&m.title), Tone::Ink));
                push_line(&mut lines, field("artist: ", dash_or(&m.artist), Tone::Ink));
                push_line(&mut lines, field("album: ", dash_or(&m.album), Tone::Ink));
                push_line(&mut lines, field("genre / year: ", extras(m), Tone::Ink));
                push_line(&mut lines, field("duration: ", crate::display::format_duration(m.duration_secs), Tone::Ink));
            },
            None => {
                push_line(&mut lines, one(span(owned("no audio tags found"), Tone::Blue)));
            },
        }
        if !remote {
            push_line(&mut lines, empty_line());
            let ext = match extension(t.name.as_str()) {
                Some(e) => crate::text::to_uppercase(e.as_str()),
                None => owned("—"),
            };
            push_line(&mut lines, field("format: ", ext, Tone::Cyan));
            push_line(&mut lines, field("size: ", owned(size), Tone::Cyan));
            let age = match t.modified {
                Some(m) => crate::display::format_relative_time(if m <= now_secs { Some(now_secs - m) } else { None }),
                None => owned("—"),
            };
            push_line(&mut lines, field("modified: ", age, Tone::Cyan));
        }
        assert(lines_view(lines@) =~= details_lines(self@.tracks.unwrap(), size@, now_secs));
        lines
    }
}

/// The lines about the open playlist: its name and crate, its sync status,
/// its tags and its link.
pub open spec fn playlist_lines(v: crate::session::TrackPageView) -> Seq<LineView> {
    let p = v.playlist;
    seq![
        seq![plain("♫ "@, Tone::Lime), strong(p.name, Tone::Ink), plain("   ["@ + v.crate_name + "]"@, Tone::Cyan)],
        seq![
            plain("status: "@, Tone::Yellow),
            plain(
                crate::model::status_text(p) + " ("@ + crate::text::decimal(p.synced as nat) + "/"@ + crate::text::decimal(
                    p.track_count as nat,
                ) + " tracks)"@,
                if crate::model::is_synced(p) { Tone::Lime } else { Tone::Pink },
            ),
        ],
        field_line("tags: "@, if p.tags.len() == 0 { "—"@ } else { crate::text::joined(p.tags, ", "@) }, Tone::Ink),
        field_line(
            "linked service: "@,
            match p.link {
                None => "—"@,
                Some(l) => service_label(l.service) + " · \""@ + l.external_name + "\""@,
            },
            Tone::Ink,
        ),
    ]
}

/// The row of track `i` of the list.
pub open spec fn track_row(s: AppView, v: crate::session::TrackPageView, i: int) -> LineView {
    let t = v.tracks[i];
    let playing = s.now_playing == Some(i as usize);
    let marker = if playing {
        if s.audio_paused { "⏸ "@ } else { "▶ "@ }
    } else {
        Seq::empty()
    };
    let prefix = if i == v.selected { "› "@ } else { "  "@ };
    seq![
        plain(prefix + crate::text::decimal((i + 1) as nat) + ". "@ + marker, if playing { Tone::Lime } else { Tone::Blue }),
        plain(t.name, if t.remote is Some { Tone::Blue } else if i == v.selected { Tone::Ink } else { Tone::Cyan }),
        plain(if t.remote is Some { "  ☁"@ } else { Seq::empty() }, Tone::Yellow),
    ]
}

/// The rows of the track list.
pub open spec fn track_rows(s: AppView, v: crate::session::TrackPageView) -> Seq<LineView> {
    Seq::new(v.tracks.len(), |i: int| track_row(s, v, i))
}

/// The footer of the track list page.
pub open spec fn tracks_footer() -> LineView {
    seq![
        pill("Esc"@, Tone::Backdrop, Tone::Pink),
        plain(" back   "@, Tone::Cyan),
        pill("j/k"@, Tone::Panel, Tone::Ink),
        plain(" scroll   "@, Tone::Cyan),
        pill("Enter / p"@, Tone::Panel, Tone::Ink),
        plain(" play / pause   "@, Tone::Cyan),
        pill("x"@, Tone::Panel, Tone::Ink),
        plain(" stop"@, Tone::Cyan),
    ]
}

/// What the track list page shows.
#[derive(Debug)]
pub struct TracksScreen {
    /// The lines about the playlist.
    pub details: Vec<Line>,
    /// The status message.
    pub message: Line,
    /// The rows of the tracks (none when the folder has no tracks).
    pub rows: Vec<Line>,
    pub footer: Line,
}

pub(crate) fn decimal_of(n: usize) -> (r: String)
    ensures
        r@ == crate::text::decimal(n as nat),
{
    crate::text::decimal_string(n as u64)
}

impl App {
    /// What the track list page shows, when it is open.
    pub fn tracks_screen(&self) -> (r: Option<TracksScreen>)
        ensures
            match (self@.tracks, r) {
                (Some(v), Some(sc)) => lines_view(sc.details@) == playlist_lines(v) && line_view(sc.message)
                    == seq![plain("  "@ + self@.message, Tone::Yellow)] && lines_view(sc.rows@) == track_rows(self@, v)
                    && line_view(sc.footer) == tracks_footer(),
                (None, None) => true,
                _ => false,
            },
    {
        let view = match &self.tracks {
            Some(v) => v,
            None => return None,
        };
        let ghost v = view@;
        let p = &view.playlist;
        let mut details: Vec<Line> = Vec::new();
        let mut first: Line = Vec::new();
        first.push(span(owned("♫ "), Tone::Lime));
        first.push(bold(p.name.clone(), Tone::Ink));
        first.push(span(crate::text::join3("   [", view.crate_name.as_str(), "]"), Tone::Cyan));
        assert(line_view(first) =~= playlist_lines(v)[0]);
        push_line(&mut details, first);
        let mut status = owned(p.status());
        status.append(" (");
        status.append(decimal_of(p.synced).as_str());
        status.append("/");
        status.append(decimal_of(p.track_count).as_str());
        status.append(" tracks)");
        let tone = if p.synced == p.track_count { Tone::Lime } else { Tone::Pink };
        push_line(&mut details, field("status: ", status, tone));
        let tags = if p.tags.len() == 0 { owned("—") } else { crate::text::join(&p.tags, ", ") };
        push_line(&mut details, field("tags: ", tags, Tone::Ink));
        let link = match &p.link {
            None => owned("—"),
            Some(l) => {
                let mut t = owned(l.service.label());
                t.append(" · \"");
                t.append(l.external_name.as_str());
                t.append("\"");
                t
            },
        };
        push_line(&mut details, field("linked service: ", link, Tone::Ink));
        assert(lines_view(details@) =~= playlist_lines(v));
        let message = one(span(join2("  ", self.message.as_str()), Tone::Yellow));
        let mut rows: Vec<Line> = Vec::new();
        for i in 0..view.tracks.len()
            invariant
                v == view@,
                self@.tracks == Some(v),
                rows.len() == i,
                forall|j: int| 0 <= j < i ==> #[trigger] line_view(rows@[j]) == track_row(self@, v, j),
        {
            let t = &view.tracks[i];
            assert(v.tracks[i as int] == t@);
            let playing = self.now_playing == Some(i);
            let marker = if playing {
                if self.audio_paused { "⏸ " } else { "▶ " }
            } else {
                ""
            };
            proof {
                reveal_strlit("");
                assert(""@ =~= Seq::<char>::empty());
            }
            let prefix = if i == view.selected { "› " } else { "  " };
            let mut number = owned(prefix);
            number.append(decimal_of(i + 1).as_str());
            number.append(". ");
            number.append(marker);
            let remote = t.remote_metadata.is_some();
            let mut row: Line = Vec::new();
            row.push(span(number, if playing { Tone::Lime } else { Tone::Blue }));
            row.push(span(t.name.clone(), if remote { Tone::Blue } else if i == view.selected { Tone::Ink } else { Tone::Cyan }));
            row.push(span(owned(if remote { "  ☁" } else { "" }), Tone::Yellow));
            assert(line_view(row) =~= track_row(self@, v, i as int));
            rows.push(row);
        }
        assert(lines_view(rows@) =~= track_rows(self@, v));
        let mut footer: Line = Vec::new();
        footer.push(key_pill("Esc", Tone::Backdrop, Tone::Pink));
        footer.push(span(owned(" back   "), Tone::Cyan));
        footer.push(key_pill("j/k", Tone::Panel, Tone::Ink));
        footer.push(span(owned(" scroll   "), Tone::Cyan));
        footer.push(key_pill("Enter / p", Tone::Panel, Tone::Ink));
        footer.push(span(owned(" play / pause   "), Tone::Cyan));
        footer.push(key_pill("x", Tone::Panel, Tone::Ink));
        footer.push(span(owned(" stop"), Tone::Cyan));
        assert(line_view(footer) =~= tracks_footer());
        Some(TracksScreen { details, message, rows, footer })
    }
}

} // verus!
