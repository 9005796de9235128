//! The crate editor screen and the panels of the dashboard: what each row
//! reads, how long paths are cut to fit, and how missing paths are marked.
//!
//! Whether a path exists on disk is asked by the shell, which hands the
//! answers in as flags, one per path.

use vstd::prelude::*;

use crate::crate_editor::config_value_of;
use crate::display::{wrap_text, wrapped};
use crate::model::{CrateLocation, CrateView};
use crate::screens::{
    bold, decimal_of, key_pill, line_view, lines_view, one, pill, plain, push_line, span, strong, Line,
    LineView, SpanView, Tone,
};
use crate::session::{App, AppView};
use crate::text::{char_count, chars_of, decimal, join2, owned, push_char, seq_strings, string_from_range};

verus! {

// ---------------------------------------------------------------------------
// Widths and padding

/// `n` spaces.
pub open spec fn spaces(n: nat) -> Seq<char> {
    Seq::new(n, |i: int| ' ')
}

/// `text` padded with spaces on the right to `width` characters, as
/// `{:<width}` writes it; longer text is left as it is.
pub open spec fn pad_right(text: Seq<char>, width: nat) -> Seq<char> {
    if text.len() < width {
        text + spaces((width - text.len()) as nat)
    } else {
        text
    }
}

/// The columns taken by a row's label in the crate details panel.
pub const LABEL_COLUMN: usize = 18;

/// The width left for a value beside the label column, in a panel
/// `panel_width` columns wide (border and padding take four): never below
/// eight.
pub open spec fn value_width(panel_width: nat) -> nat {
    let w = if panel_width >= 4 + LABEL_COLUMN { panel_width - (4 + LABEL_COLUMN) } else { 0 };
    if w < 8 {
        8
    } else {
        w as nat
    }
}

/// The width left for a crate's paths in a dashboard panel `panel_width`
/// columns wide: the inner width (never below eight) less the indent of two.
pub open spec fn path_width(panel_width: nat) -> nat {
    let inner = if panel_width >= 4 { panel_width - 4 } else { 0 };
    let inner = if inner < 8 { 8 } else { inner };
    (inner - 2) as nat
}

/// Whether path `i` was found on disk. `found` holds one flag per path; a
/// path without a flag counts as found.
pub open spec fn found_at(found: Seq<bool>, i: int) -> bool {
    !(0 <= i < found.len()) || found[i]
}

fn spaces_string(n: usize) -> (r: String)
    ensures
        r@ == spaces(n as nat),
{
    let mut r = String::new();
    let mut k: usize = 0;
    while k < n
        invariant
            k <= n,
            r@ == spaces(k as nat),
        decreases n - k,
    {
        push_char(&mut r, ' ');
        k = k + 1;
        assert(r@ =~= spaces(k as nat));
    }
    r
}

/// `text` padded with spaces on the right to `width` characters.
pub fn pad_text(text: &str, width: usize) -> (r: String)
    ensures
        r@ == pad_right(text@, width as nat),
{
    let mut r = owned(text);
    let n = char_count(&r);
    if n < width {
        let pad = spaces_string(width - n);
        r.append(pad.as_str());
    }
    r
}

/// The width left for a value in the crate details panel.
pub fn value_width_of(panel_width: u16) -> (w: usize)
    ensures
        w == value_width(panel_width as nat),
{
    let p = panel_width as usize;
    let w = if p >= 4 + LABEL_COLUMN { p - (4 + LABEL_COLUMN) } else { 0 };
    if w < 8 {
        8
    } else {
        w
    }
}

/// The width left for paths in the dashboard's crate panel.
pub fn path_width_of(panel_width: u16) -> (w: usize)
    ensures
        w == path_width(panel_width as nat),
{
    let p = panel_width as usize;
    let inner = if p >= 4 { p - 4 } else { 0 };
    let inner = if inner < 8 { 8 } else { inner };
    inner - 2
}

/// Text being typed, with a block cursor at character `cursor` (or at the
/// end, when `cursor` is past it).
pub open spec fn cursor_text(buf: Seq<char>, cursor: nat) -> Seq<char> {
    let c = if cursor <= buf.len() { cursor as int } else { buf.len() as int };
    buf.take(c) + "█"@ + buf.skip(c)
}

fn cursor_string(buf: &String, cursor: usize) -> (r: String)
    ensures
        r@ == cursor_text(buf@, cursor as nat),
{
    let v = chars_of(buf.as_str());
    let c = if cursor <= v.len() { cursor } else { v.len() };
    let mut r = string_from_range(&v, 0, c);
    r.append("█");
    r.append(string_from_range(&v, c, v.len()).as_str());
    assert(v@.subrange(0, c as int) =~= buf@.take(c as int));
    assert(v@.subrange(c as int, v@.len() as int) =~= buf@.skip(c as int));
    r
}

fn found_in(found: &Vec<bool>, i: usize) -> (b: bool)
    ensures
        b == found_at(found@, i as int),
{
    i >= found.len() || found[i]
}

// ---------------------------------------------------------------------------
// The crate editor screen

/// A crate in the editor's list: a full heart when its paths are reachable,
/// an empty one and a cross otherwise; the selected one in ink.
pub open spec fn config_crate_line(c: CrateView, selected: bool) -> LineView {
    seq![
        plain(if c.available { "♥ "@ } else { "♡ "@ }, if c.available { Tone::Lime } else { Tone::Pink }),
        plain(c.name, if selected { Tone::Ink } else { Tone::Cyan }),
    ] + if c.available {
        Seq::<SpanView>::empty()
    } else {
        seq![plain("  ✕"@, Tone::Pink)]
    }
}

/// The editor's list of crates.
pub open spec fn config_crate_lines(s: AppView) -> Seq<LineView> {
    Seq::new(s.crates.len(), |i: int| config_crate_line(s.crates[i], i == s.selected_crate))
}

/// The label of row `index` of crate `c`: its name, then each path, with
/// `[ext]` on those of an external drive.
pub open spec fn field_label(c: CrateView, index: int) -> Seq<char> {
    if index == 0 {
        "crate name"@
    } else {
        "path "@ + decimal(index as nat) + if c.locations[index - 1].removable {
            " [ext]"@
        } else {
            Seq::empty()
        }
    }
}

/// The suffix after a path that was not found: an external drive is
/// disconnected, another path is not found.
pub open spec fn missing_suffix(missing: bool, removable: bool) -> Seq<char> {
    if missing && removable {
        "  🔌 disconnected"@
    } else if missing {
        "  ✕ not found"@
    } else {
        Seq::empty()
    }
}

/// The value shown in row `index` of crate `c`, and its color: the text
/// being typed with its cursor, or the committed text marked when its path
/// is missing.
pub open spec fn field_value(s: AppView, c: CrateView, found: Seq<bool>, index: int) -> (Seq<char>, Tone) {
    let selected = s.config_field == index;
    if selected && s.editing_config {
        (cursor_text(s.config_buffer, s.config_cursor as nat), Tone::Ink)
    } else {
        let committed = config_value_of(s, index as usize);
        let removable = index > 0 && c.locations[index - 1].removable;
        let missing = index > 0 && committed.len() > 0 && !found_at(found, index - 1);
        (
            committed + missing_suffix(missing, removable),
            if missing && removable {
                Tone::Yellow
            } else if missing {
                Tone::Pink
            } else if selected {
                Tone::Ink
            } else {
                Tone::Blue
            },
        )
    }
}

/// The lines of row `index` of crate `c` in a panel `panel_width` wide: the
/// label column and the first part of the value, then the rest of the value
/// under it, cut to the width left.
pub open spec fn field_row(s: AppView, c: CrateView, found: Seq<bool>, panel_width: nat, index: int) -> Seq<LineView> {
    let selected = s.config_field == index;
    let value = field_value(s, c, found, index);
    let parts = wrapped(value.0, value_width(panel_width));
    seq![
        seq![
            strong(
                (if selected { "› "@ } else { "  "@ }) + pad_right(field_label(c, index), 16),
                if selected { Tone::Lime } else { Tone::Cyan },
            ),
            plain(if parts.len() > 0 { parts[0] } else { Seq::empty() }, value.1),
        ],
    ] + parts.skip(1).map_values(|p: Seq<char>| continuation_line(p, value.1))
}

/// A further part of a long value, under the value column.
pub open spec fn continuation_line(part: Seq<char>, fg: Tone) -> LineView {
    seq![plain(spaces(LABEL_COLUMN as nat) + part, fg)]
}

/// The rows of crate `c`: its name and each of its paths.
pub open spec fn field_rows(s: AppView, c: CrateView, found: Seq<bool>, panel_width: nat) -> Seq<Seq<LineView>> {
    Seq::new(c.locations.len() + 1, |i: int| field_row(s, c, found, panel_width, i))
}

/// The hint under the crate details.
pub open spec fn config_hint(s: AppView) -> LineView {
    if s.selected_crate < s.crates.len() {
        seq![
            plain(
                "  "@ + if s.editing_config {
                    "typing... Enter save · Esc cancel"@
                } else {
                    "↑/↓ select · Enter edit · ←/→ crate · a add · x remove · e toggle external drive · n new crate · X delete crate"@
                },
                Tone::Yellow,
            ),
        ]
    } else {
        seq![plain("  n new crate"@, Tone::Yellow)]
    }
}

/// The footer of the crate editor.
pub open spec fn config_footer() -> LineView {
    seq![
        pill("Esc"@, Tone::Backdrop, Tone::Pink),
        plain(" back   "@, Tone::Cyan),
        pill("c"@, Tone::Panel, Tone::Ink),
        plain(" dashboard"@, Tone::Cyan),
    ]
}

/// The views of a list of rows, each of some lines.
pub open spec fn rows_view(v: Seq<Vec<Line>>) -> Seq<Seq<LineView>> {
    v.map_values(|r: Vec<Line>| lines_view(r@))
}

/// The crate details panel: the rows of the selected crate, or a note when
/// there is none.
#[derive(Debug)]
pub enum ConfigDetails {
    Rows(Vec<Vec<Line>>),
    Empty(Line),
}

/// What the crate editor shows.
#[derive(Debug)]
pub struct ConfigScreen {
    /// The list of crates; the selected crate's row is selected.
    pub crates: Vec<Line>,
    /// The rows of the selected crate; the row being edited is selected.
    pub details: ConfigDetails,
    pub hint: Line,
    pub footer: Line,
}

fn config_crate_row(c: &CrateLocation, selected: bool) -> (r: Line)
    ensures
        line_view(r) == config_crate_line(c@, selected),
{
    let mut r: Line = Vec::new();
    let marker = if c.available { "♥ " } else { "♡ " };
    r.push(span(owned(marker), if c.available { Tone::Lime } else { Tone::Pink }));
    r.push(span(c.name.clone(), if selected { Tone::Ink } else { Tone::Cyan }));
    if !c.available {
        r.push(span(owned("  ✕"), Tone::Pink));
    }
    assert(line_view(r) =~= config_crate_line(c@, selected));
    r
}

impl App {
    fn config_crate_rows(&self) -> (r: Vec<Line>)
        ensures
            lines_view(r@) == config_crate_lines(self@),
    {
        let mut r: Vec<Line> = Vec::new();
        for i in 0..self.crates.len()
            invariant
                r.len() == i,
                forall|j: int| 0 <= j < i ==> #[trigger] line_view(r@[j]) == config_crate_line(self@.crates[j], j == self@.selected_crate),
        {
            assert(self@.crates[i as int] == self.crates@[i as int]@);
            r.push(config_crate_row(&self.crates[i], i == self.selected_crate));
        }
        assert(lines_view(r@) =~= config_crate_lines(self@));
        r
    }

    fn field_value_of(&self, c: &CrateLocation, found: &Vec<bool>, index: usize) -> (r: (String, Tone))
        requires
            self@.selected_crate < self@.crates.len(),
            c@ == self@.crates[self@.selected_crate as int],
            index <= c@.locations.len(),
        ensures
            (r.0@, r.1) == field_value(self@, c@, found@, index as int),
    {
        let selected = self.config_field == index;
        if selected && self.editing_config {
            return (cursor_string(&self.config_buffer, self.config_cursor), Tone::Ink);
        }
        let committed = self.config_value(index);
        let removable = index > 0 && c.locations[index - 1].removable;
        proof {
            if index > 0 {
                assert(c@.locations[index - 1] == c.locations@[index - 1]@);
            }
        }
        let missing = index > 0 && char_count(&committed) > 0 && !found_in(found, index - 1);
        let mut text = committed;
        if missing && removable {
            text.append("  🔌 disconnected");
        } else if missing {
            text.append("  ✕ not found");
        }
        proof {
            reveal_strlit("");
            assert(""@ =~= Seq::<char>::empty());
            if !missing {
                assert(text@ =~= config_value_of(self@, index) + Seq::<char>::empty());
            }
        }
        let tone = if missing && removable {
            Tone::Yellow
        } else if missing {
            Tone::Pink
        } else if selected {
            Tone::Ink
        } else {
            Tone::Blue
        };
        (text, tone)
    }

    fn field_row_of(&self, c: &CrateLocation, found: &Vec<bool>, panel_width: u16, index: usize) -> (r: Vec<Line>)
        requires
            self@.selected_crate < self@.crates.len(),
            c@ == self@.crates[self@.selected_crate as int],
            index <= c@.locations.len(),
        ensures
            lines_view(r@) == field_row(self@, c@, found@, panel_width as nat, index as int),
    {
        let selected = self.config_field == index;
        let (value, color) = self.field_value_of(c, found, index);
        let mut label = if index == 0 {
            owned("crate name")
        } else {
            join2("path ", decimal_of(index).as_str())
        };
        if index > 0 {
            assert(c@.locations[index - 1] == c.locations@[index - 1]@);
            if c.locations[index - 1].removable {
                label.append(" [ext]");
            }
        }
        proof {
            reveal_strlit("");
            assert(""@ =~= Seq::<char>::empty());
            assert(label@ =~= field_label(c@, index as int));
        }
        let mut head = owned(if selected { "› " } else { "  " });
        head.append(pad_text(label.as_str(), 16).as_str());
        let parts = wrap_text(value.as_str(), value_width_of(panel_width));
        let ghost ps = seq_strings(parts@);
        let first = if parts.len() > 0 { parts[0].clone() } else { String::new() };
        let mut r: Vec<Line> = Vec::new();
        let mut top: Line = Vec::new();
        top.push(bold(head, if selected { Tone::Lime } else { Tone::Cyan }));
        top.push(span(first, color));
        let ghost top_v = line_view(top);
        proof {
            let fr = field_row(self@, c@, found@, panel_width as nat, index as int);
            assert(label@ == field_label(c@, index as int));
            assert(value@ == field_value(self@, c@, found@, index as int).0);
            assert(ps == wrapped(field_value(self@, c@, found@, index as int).0, value_width(panel_width as nat)));
            assert(top_v[0] == fr[0][0]);
            assert(top_v[1] == fr[0][1]);
            assert(top_v =~= fr[0]);
        }
        push_line(&mut r, top);
        assert(lines_view(r@) =~= field_row(self@, c@, found@, panel_width as nat, index as int).take(1));
        let mut k: usize = 1;
        while k < parts.len()
            invariant
                1 <= k <= parts.len() || parts.len() == 0,
                ps == seq_strings(parts@),
                lines_view(r@) == field_row(self@, c@, found@, panel_width as nat, index as int).take(
                    if k <= parts.len() { k as int } else { 1 },
                ),
                field_row(self@, c@, found@, panel_width as nat, index as int) == seq![top_v]
                    + ps.skip(1).map_values(|p: Seq<char>| continuation_line(p, color)),
            decreases parts.len() - k,
        {
            let line = one(span(join2(spaces_string(LABEL_COLUMN).as_str(), parts[k].as_str()), color));
            assert(ps[k as int] == parts@[k as int]@);
            assert(line_view(line) == continuation_line(ps[k as int], color));
            push_line(&mut r, line);
            k = k + 1;
            assert(lines_view(r@) =~= field_row(self@, c@, found@, panel_width as nat, index as int).take(k as int));
        }
        proof {
            if parts.len() > 0 {
                assert(lines_view(r@) =~= field_row(self@, c@, found@, panel_width as nat, index as int));
            } else {
                assert(ps.skip(1) =~= Seq::<Seq<char>>::empty());
                assert(lines_view(r@) =~= field_row(self@, c@, found@, panel_width as nat, index as int));
            }
        }
        r
    }
}

impl App {
    /// What the crate editor shows, with a details panel `panel_width`
    /// columns wide. `found` tells, for each path of the selected crate,
    /// whether it exists on disk.
    pub fn config_screen(&self, panel_width: u16, found: &Vec<bool>) -> (r: ConfigScreen)
        ensures
            lines_view(r.crates@) == config_crate_lines(self@),
            match r.details {
                ConfigDetails::Rows(rows) => self@.selected_crate < self@.crates.len() && rows_view(rows@) == field_rows(
                    self@,
                    self@.crates[self@.selected_crate as int],
                    found@,
                    panel_width as nat,
                ),
                ConfigDetails::Empty(l) => self@.selected_crate >= self@.crates.len() && line_view(l) == seq![
                    plain("  No crates yet."@, Tone::Ink),
                ],
            },
            line_view(r.hint) == config_hint(self@),
            line_view(r.footer) == config_footer(),
    {
        let crates = self.config_crate_rows();
        let mut footer: Line = Vec::new();
        footer.push(key_pill("Esc", Tone::Backdrop, Tone::Pink));
        footer.push(span(owned(" back   "), Tone::Cyan));
        footer.push(key_pill("c", Tone::Panel, Tone::Ink));
        footer.push(span(owned(" dashboard"), Tone::Cyan));
        assert(line_view(footer) =~= config_footer());
        if self.selected_crate >= self.crates.len() {
            let hint = one(span(owned("  n new crate"), Tone::Yellow));
            let details = ConfigDetails::Empty(one(span(owned("  No crates yet."), Tone::Ink)));
            return ConfigScreen { crates, details, hint, footer };
        }
        let c = &self.crates[self.selected_crate];
        let ghost cv = c@;
        assert(cv == self@.crates[self.selected_crate as int]);
        let ghost want = field_rows(self@, cv, found@, panel_width as nat);
        let mut rows: Vec<Vec<Line>> = Vec::new();
        rows.push(self.field_row_of(c, found, panel_width, 0));
        for k in 0..c.locations.len()
            invariant
                self@.selected_crate < self@.crates.len(),
                cv == c@,
                cv == self@.crates[self@.selected_crate as int],
                want == field_rows(self@, cv, found@, panel_width as nat),
                rows.len() == k + 1,
                forall|j: int| 0 <= j <= k ==> #[trigger] lines_view(rows@[j]@) == want[j],
        {
            rows.push(self.field_row_of(c, found, panel_width, k + 1));
        }
        assert(rows_view(rows@) =~= want);
        let hint = one(span(
            join2("  ", if self.editing_config {
                "typing... Enter save · Esc cancel"
            } else {
                "↑/↓ select · Enter edit · ←/→ crate · a add · x remove · e toggle external drive · n new crate · X delete crate"
            }),
            Tone::Yellow,
        ));
        ConfigScreen { crates, details: ConfigDetails::Rows(rows), hint, footer }
    }
}

// ---------------------------------------------------------------------------
// The dashboard

/// The title bar shown above the dashboard and the crate editor.
pub open spec fn header_lines() -> Seq<LineView> {
    seq![
        seq![
            SpanView { text: "rat"@, fg: Tone::Panel, bg: Some(Tone::Pink), bold: true },
            SpanView { text: "crate"@, fg: Tone::Panel, bg: Some(Tone::Lime), bold: true },
            plain(" crate manager"@, Tone::Cyan),
        ],
        seq![plain("🐀 🐁 🐭 🐹"@, Tone::Yellow)],
    ]
}

/// The title bar.
pub fn header() -> (r: Vec<Line>)
    ensures
        lines_view(r@) == header_lines(),
{
    let mut title: Line = Vec::new();
    title.push(crate::screens::Span { text: owned("rat"), fg: Tone::Panel, bg: Some(Tone::Pink), bold: true });
    title.push(crate::screens::Span { text: owned("crate"), fg: Tone::Panel, bg: Some(Tone::Lime), bold: true });
    title.push(span(owned(" crate manager"), Tone::Cyan));
    assert(line_view(title) =~= header_lines()[0]);
    let mut r: Vec<Line> = Vec::new();
    push_line(&mut r, title);
    push_line(&mut r, one(span(owned("🐀 🐁 🐭 🐹"), Tone::Yellow)));
    assert(lines_view(r@) =~= header_lines());
    r
}

/// The lines of one path of a crate in the dashboard: the path cut to
/// `width`, each part indented by two, the last part marked when the path is
/// missing; cyan when found, yellow for a missing external drive, pink
/// otherwise.
pub open spec fn path_lines(l: crate::model::LocationView, found: bool, width: nat) -> Seq<LineView> {
    let parts = wrapped(l.path, width);
    let fg = if found {
        Tone::Cyan
    } else if l.removable {
        Tone::Yellow
    } else {
        Tone::Pink
    };
    Seq::new(
        parts.len(),
        |k: int| seq![plain("  "@ + parts[k] + missing_suffix(!found && k == parts.len() - 1, l.removable), fg)],
    )
}

/// The lines of the first `n` paths of crate `c`.
pub open spec fn paths_lines(c: CrateView, found: Seq<bool>, width: nat, n: nat) -> Seq<LineView>
    decreases n,
{
    if n == 0 {
        Seq::empty()
    } else {
        paths_lines(c, found, width, (n - 1) as nat) + path_lines(
            c.locations[n - 1],
            found_at(found, n - 1),
            width,
        )
    }
}

/// A crate in the dashboard list: a heart and its name, lime when its paths
/// are reachable and blue otherwise, then its paths.
pub open spec fn dashboard_crate_item(c: CrateView, found: Seq<bool>, width: nat) -> Seq<LineView> {
    seq![seq![plain((if c.available { "♥ "@ } else { "♡ "@ }) + c.name, if c.available { Tone::Lime } else { Tone::Blue })]]
        + paths_lines(c, found, width, c.locations.len())
}

/// The flags of crate `i`: `found` holds one list of flags per crate; a crate
/// without one has all its paths found.
pub open spec fn flags_of(found: Seq<Seq<bool>>, i: int) -> Seq<bool> {
    if 0 <= i < found.len() {
        found[i]
    } else {
        Seq::empty()
    }
}

/// The dashboard's list of crates, in a panel `panel_width` wide.
pub open spec fn dashboard_crate_items(s: AppView, found: Seq<Seq<bool>>, panel_width: nat) -> Seq<Seq<LineView>> {
    Seq::new(
        s.crates.len(),
        |i: int| dashboard_crate_item(s.crates[i], flags_of(found, i), path_width(panel_width)),
    )
}

/// The name cell of a playlist: its name, and the service it is linked to.
pub open spec fn name_cell(p: crate::model::PlaylistView) -> Seq<char> {
    match p.link {
        None => p.name,
        Some(l) => p.name + " ["@ + crate::model::service_label(l.service) + "]"@,
    }
}

/// The cells of a playlist's row: name, synced and total tracks, status and
/// tags.
pub open spec fn playlist_cells(p: crate::model::PlaylistView) -> Seq<Seq<char>> {
    seq![
        name_cell(p),
        decimal(p.synced as nat) + "/"@ + decimal(p.track_count as nat),
        crate::model::status_text(p),
        crate::text::joined(p.tags, "  "@),
    ]
}

/// The color of a playlist's row: lime when synced, pink otherwise.
pub open spec fn playlist_tone(p: crate::model::PlaylistView) -> Tone {
    if crate::model::is_synced(p) {
        Tone::Lime
    } else {
        Tone::Pink
    }
}

/// A row of the playlist table.
#[derive(Debug)]
pub struct TableRow {
    pub cells: Vec<String>,
    pub tone: Tone,
}

/// The view of a row: its cells and its color.
pub open spec fn row_view(r: TableRow) -> (Seq<Seq<char>>, Tone) {
    (seq_strings(r.cells@), r.tone)
}

/// The dashboard's playlist panel: the table of the selected crate's
/// playlists, or a note when no crate is selected.
#[derive(Debug)]
pub enum PlaylistPanel {
    Table { title: String, header: Vec<String>, rows: Vec<TableRow>, selected: usize },
    Empty { title: String, note: Line },
}

/// The title of the playlist table of crate `c`.
pub open spec fn table_title(c: CrateView) -> Seq<char> {
    if c.locations.len() > 1 {
        "♫ PLAYLISTS (shared across paths) ♫"@
    } else {
        "♫ PLAYLISTS ♫"@
    }
}

/// The column names of the playlist table.
pub open spec fn table_header() -> Seq<Seq<char>> {
    seq!["PLAYLIST"@, "TRACKS"@, "STATUS"@, "TAGS"@]
}

/// The rows of the playlist table of crate `c`.
pub open spec fn table_rows(c: CrateView) -> Seq<(Seq<Seq<char>>, Tone)> {
    Seq::new(c.playlists.len(), |i: int| (playlist_cells(c.playlists[i]), playlist_tone(c.playlists[i])))
}

/// The status bar: the tag editor while tags are typed, otherwise the
/// message and the selected crate's name.
pub open spec fn status_line(s: AppView) -> LineView {
    if s.editing_tags {
        seq![plain("  🏷 "@, Tone::Yellow), strong("tags (comma separated): "@, Tone::Yellow)] + crate::screens::cursor_line(
            s.tag_buffer,
            s.tag_cursor as nat,
        ) + seq![plain("   (Enter save · Esc cancel)"@, Tone::Cyan)]
    } else {
        seq![plain("  ✦ "@, Tone::Lime), plain(s.message, Tone::Ink)] + if s.selected_crate < s.crates.len() {
            seq![plain("   "@, Tone::Plain), pill(s.crates[s.selected_crate as int].name, Tone::Panel, Tone::Pink)]
        } else {
            Seq::<SpanView>::empty()
        }
    }
}

/// The keys listed at the foot of the dashboard.
pub open spec fn dashboard_footer() -> LineView {
    seq![
        pill("q"@, Tone::Backdrop, Tone::Pink),
        plain(" quit   "@, Tone::Cyan),
        pill("j/k"@, Tone::Panel, Tone::Ink),
        plain(" navigate   "@, Tone::Cyan),
        pill("tab"@, Tone::Panel, Tone::Ink),
        plain(" change crate   "@, Tone::Cyan),
        pill("c"@, Tone::Panel, Tone::Ink),
        plain(" crates   "@, Tone::Cyan),
        pill("n"@, Tone::Panel, Tone::Ink),
        plain(" new crate   "@, Tone::Cyan),
        pill("Enter"@, Tone::Panel, Tone::Ink),
        plain(" view tracks   "@, Tone::Cyan),
        pill("i"@, Tone::Panel, Tone::Ink),
        plain(" import   "@, Tone::Cyan),
        pill("t"@, Tone::Panel, Tone::Ink),
        plain(" browse tags   "@, Tone::Cyan),
        pill("T"@, Tone::Panel, Tone::Ink),
        plain(" edit tags   "@, Tone::Cyan),
        pill("s"@, Tone::Panel, Tone::Ink),
        plain(" settings"@, Tone::Cyan),
    ]
}

/// What the dashboard shows.
#[derive(Debug)]
pub struct DashboardScreen {
    /// The crates, each with its paths; the selected crate's item is selected.
    pub crates: Vec<Vec<Line>>,
    pub playlists: PlaylistPanel,
    pub status: Line,
    pub footer: Line,
}

fn push_path_rows(r: &mut Vec<Line>, l: &crate::model::Location, found: bool, width: usize)
    ensures
        lines_view(final(r)@) == lines_view(old(r)@) + path_lines(l@, found, width as nat),
{
    let ghost start = lines_view(r@);
    let parts = wrap_text(l.path.as_str(), width);
    let ghost ps = seq_strings(parts@);
    let fg = if found {
        Tone::Cyan
    } else if l.removable {
        Tone::Yellow
    } else {
        Tone::Pink
    };
    for k in 0..parts.len()
        invariant
            ps == seq_strings(parts@),
            ps == wrapped(l@.path, width as nat),
            fg == (if found {
                Tone::Cyan
            } else if l.removable {
                Tone::Yellow
            } else {
                Tone::Pink
            }),
            lines_view(r@) == start + path_lines(l@, found, width as nat).take(k as int),
    {
        assert(ps[k as int] == parts@[k as int]@);
        let last = k + 1 == parts.len();
        let mut text = join2("  ", parts[k].as_str());
        if !found && last {
            if l.removable {
                text.append("  🔌 disconnected");
            } else {
                text.append("  ✕ not found");
            }
        }
        proof {
            reveal_strlit("");
            assert(""@ =~= Seq::<char>::empty());
            if !(!found && last) {
                assert(text@ =~= "  "@ + ps[k as int] + Seq::<char>::empty());
            }
        }
        let line = one(span(text, fg));
        assert(ps.len() == parts.len());
        assert(text@ == "  "@ + ps[k as int] + missing_suffix(!found && k == ps.len() - 1, l@.removable));
        assert(line_view(line) =~= path_lines(l@, found, width as nat)[k as int]);
        push_line(r, line);
        assert(lines_view(r@) =~= start + path_lines(l@, found, width as nat).take(k + 1));
    }
    assert(path_lines(l@, found, width as nat).take(parts.len() as int) =~= path_lines(l@, found, width as nat));
}

fn dashboard_item(c: &CrateLocation, found: &Vec<bool>, width: usize) -> (r: Vec<Line>)
    ensures
        lines_view(r@) == dashboard_crate_item(c@, found@, width as nat),
{
    let mut r: Vec<Line> = Vec::new();
    let marker = if c.available { "♥ " } else { "♡ " };
    push_line(&mut r, one(span(join2(marker, c.name.as_str()), if c.available { Tone::Lime } else { Tone::Blue })));
    let ghost head = lines_view(r@);
    assert(lines_view(r@) =~= head + paths_lines(c@, found@, width as nat, 0));
    for i in 0..c.locations.len()
        invariant
            lines_view(r@) == head + paths_lines(c@, found@, width as nat, i as nat),
    {
        assert(c@.locations[i as int] == c.locations@[i as int]@);
        push_path_rows(&mut r, &c.locations[i], found_in(found, i), width);
        assert(lines_view(r@) =~= head + paths_lines(c@, found@, width as nat, (i + 1) as nat));
    }
    assert(lines_view(r@) =~= dashboard_crate_item(c@, found@, width as nat));
    r
}

/// The views of the flags handed in for each crate.
pub open spec fn flags_view(v: Seq<Vec<bool>>) -> Seq<Seq<bool>> {
    v.map_values(|f: Vec<bool>| f@)
}

/// The views of the rows of the playlist table.
pub open spec fn table_view(v: Seq<TableRow>) -> Seq<(Seq<Seq<char>>, Tone)> {
    v.map_values(|r: TableRow| row_view(r))
}

fn playlist_row(p: &crate::model::Playlist) -> (r: TableRow)
    ensures
        row_view(r) == (playlist_cells(p@), playlist_tone(p@)),
{
    let name = match &p.link {
        None => p.name.clone(),
        Some(l) => {
            let mut t = p.name.clone();
            t.append(" [");
            t.append(l.service.label());
            t.append("]");
            t
        },
    };
    let mut counts = decimal_of(p.synced);
    counts.append("/");
    counts.append(decimal_of(p.track_count).as_str());
    let mut cells: Vec<String> = Vec::new();
    cells.push(name);
    cells.push(counts);
    cells.push(owned(p.status()));
    cells.push(crate::text::join(&p.tags, "  "));
    assert(seq_strings(cells@) =~= playlist_cells(p@));
    TableRow { cells, tone: if p.synced == p.track_count { Tone::Lime } else { Tone::Pink } }
}

impl App {
    fn status_bar(&self) -> (r: Line)
        ensures
            line_view(r) == status_line(self@),
    {
        let mut r: Line = Vec::new();
        if self.editing_tags {
            r.push(span(owned("  🏷 "), Tone::Yellow));
            r.push(bold(owned("tags (comma separated): "), Tone::Yellow));
            let ghost head = line_view(r);
            let mut cur = crate::screens::cursor_spans(&self.tag_buffer, self.tag_cursor);
            let ghost cv = line_view(cur);
            r.append(&mut cur);
            assert(line_view(r) =~= head + cv);
            r.push(span(owned("   (Enter save · Esc cancel)"), Tone::Cyan));
        } else {
            r.push(span(owned("  ✦ "), Tone::Lime));
            r.push(span(self.message.clone(), Tone::Ink));
            if self.selected_crate < self.crates.len() {
                assert(self@.crates[self.selected_crate as int] == self.crates@[self.selected_crate as int]@);
                r.push(span(owned("   "), Tone::Plain));
                r.push(key_pill(self.crates[self.selected_crate].name.as_str(), Tone::Panel, Tone::Pink));
            }
        }
        assert(line_view(r) =~= status_line(self@));
        r
    }

    /// What the dashboard shows, with a crate panel `crates_width` columns
    /// wide. `found` holds, for each crate, one flag per path telling whether
    /// it exists on disk.
    pub fn dashboard_screen(&self, crates_width: u16, found: &Vec<Vec<bool>>) -> (r: DashboardScreen)
        ensures
            rows_view(r.crates@) == dashboard_crate_items(self@, flags_view(found@), crates_width as nat),
            match r.playlists {
                PlaylistPanel::Table { title, header, rows, selected } => {
                    &&& self@.selected_crate < self@.crates.len()
                    &&& title@ == table_title(self@.crates[self@.selected_crate as int])
                    &&& seq_strings(header@) == table_header()
                    &&& table_view(rows@) == table_rows(self@.crates[self@.selected_crate as int])
                    &&& selected == self@.selected_playlist
                },
                PlaylistPanel::Empty { title, note } => {
                    &&& self@.selected_crate >= self@.crates.len()
                    &&& title@ == "♫ PLAYLISTS ♫"@
                    &&& line_view(note) == seq![plain("  Add a crate with c, then n."@, Tone::Ink)]
                },
            },
            line_view(r.status) == status_line(self@),
            line_view(r.footer) == dashboard_footer(),
    {
        let width = path_width_of(crates_width);
        let empty: Vec<bool> = Vec::new();
        let mut crates: Vec<Vec<Line>> = Vec::new();
        for i in 0..self.crates.len()
            invariant
                width == path_width(crates_width as nat),
                empty@ == Seq::<bool>::empty(),
                crates.len() == i,
                forall|j: int| 0 <= j < i ==> #[trigger] lines_view(crates@[j]@) == dashboard_crate_items(
                    self@,
                    flags_view(found@),
                    crates_width as nat,
                )[j],
        {
            assert(self@.crates[i as int] == self.crates@[i as int]@);
            let flags = if i < found.len() { &found[i] } else { &empty };
            assert(flags@ == flags_of(flags_view(found@), i as int));
            crates.push(dashboard_item(&self.crates[i], flags, width));
        }
        assert(rows_view(crates@) =~= dashboard_crate_items(self@, flags_view(found@), crates_width as nat));
        let playlists = if self.selected_crate < self.crates.len() {
            let c = &self.crates[self.selected_crate];
            let ghost cv = c@;
            assert(cv == self@.crates[self.selected_crate as int]);
            let title = owned(if c.locations.len() > 1 { "♫ PLAYLISTS (shared across paths) ♫" } else { "♫ PLAYLISTS ♫" });
            let mut header: Vec<String> = Vec::new();
            header.push(owned("PLAYLIST"));
            header.push(owned("TRACKS"));
            header.push(owned("STATUS"));
            header.push(owned("TAGS"));
            assert(seq_strings(header@) =~= table_header());
            let mut rows: Vec<TableRow> = Vec::new();
            for k in 0..c.playlists.len()
                invariant
                    cv == c@,
                    rows.len() == k,
                    forall|j: int| 0 <= j < k ==> #[trigger] row_view(rows@[j]) == table_rows(cv)[j],
            {
                assert(cv.playlists[k as int] == c.playlists@[k as int]@);
                rows.push(playlist_row(&c.playlists[k]));
            }
            assert(table_view(rows@) =~= table_rows(cv));
            PlaylistPanel::Table { title, header, rows, selected: self.selected_playlist }
        } else {
            PlaylistPanel::Empty {
                title: owned("♫ PLAYLISTS ♫"),
                note: one(span(owned("  Add a crate with c, then n."), Tone::Ink)),
            }
        };
        let mut footer: Line = Vec::new();
        footer.push(key_pill("q", Tone::Backdrop, Tone::Pink));
        footer.push(span(owned(" quit   "), Tone::Cyan));
        footer.push(key_pill("j/k", Tone::Panel, Tone::Ink));
        footer.push(span(owned(" navigate   "), Tone::Cyan));
        footer.push(key_pill("tab", Tone::Panel, Tone::Ink));
        footer.push(span(owned(" change crate   "), Tone::Cyan));
        footer.push(key_pill("c", Tone::Panel, Tone::Ink));
        footer.push(span(owned(" crates   "), Tone::Cyan));
        footer.push(key_pill("n", Tone::Panel, Tone::Ink));
        footer.push(span(owned(" new crate   "), Tone::Cyan));
        footer.push(key_pill("Enter", Tone::Panel, Tone::Ink));
        footer.push(span(owned(" view tracks   "), Tone::Cyan));
        footer.push(key_pill("i", Tone::Panel, Tone::Ink));
        footer.push(span(owned(" import   "), Tone::Cyan));
        footer.push(key_pill("t", Tone::Panel, Tone::Ink));
        footer.push(span(owned(" browse tags   "), Tone::Cyan));
        footer.push(key_pill("T", Tone::Panel, Tone::Ink));
        footer.push(span(owned(" edit tags   "), Tone::Cyan));
        footer.push(key_pill("s", Tone::Panel, Tone::Ink));
        footer.push(span(owned(" settings"), Tone::Cyan));
        assert(line_view(footer) =~= dashboard_footer());
        DashboardScreen { crates, playlists, status: self.status_bar(), footer }
    }
}

} // verus!
