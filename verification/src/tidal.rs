//! Tidal: finding tracks in the catalog, reading a playlist's tracklist, and
//! handing downloads to the `tidal-dl-ng` tool.
//!
//! Requests, waiting and processes belong to the shell. The searches here are
//! machines: each step says which request to make next, and takes its answer.

use vstd::prelude::*;
use vstd::string::*;

use crate::json::{at, deref, get, items, json_at, json_get, json_items, json_text, text, Json};
use crate::text::{
    chars_of, contains_str, decimal, decimal_string, has_substring, is_whitespace_char, char_is_whitespace,
    join, join2, join3, joined, lowercase, occurs_at, owned, same_text, seq_strings, starts_with, string_from_range,
    to_lowercase, trim, trimmed, StrSeq,
};
use crate::urls::{after_last, before_either, tidal_playlist_id, trim_trailing};

verus! {

broadcast use vstd::string::group_string_axioms;

/// The address of a Tidal track page, as `tidal-dl-ng` takes it.
pub open spec fn track_page(id: Seq<char>) -> Seq<char> {
    "https://tidal.com/browse/track/"@ + id
}

/// The `tidal.com/browse/track/<id>` address of a track whose id is known.
pub fn track_url(id: &str) -> (r: String)
    ensures
        r@ == track_page(id@),
{
    join2("https://tidal.com/browse/track/", id)
}

/// Whether a request error is Tidal refusing the credentials (HTTP 401 or 403)
/// rather than a miss.
pub open spec fn auth_error(error: Seq<char>) -> bool {
    has_substring(error, "HTTP 401"@) || has_substring(error, "HTTP 403"@)
}

/// Whether a request error says HTTP 401 or HTTP 403.
pub fn is_auth_error(error: &str) -> (r: bool)
    ensures
        r == auth_error(error@),
{
    contains_str(error, "HTTP 401") || contains_str(error, "HTTP 403")
}

/// A `links.next` value made absolute: kept when it starts with `http`, else
/// put under `https://openapi.tidal.com/v2/` (one leading `/` dropped).
pub open spec fn resolved_url(next: Seq<char>) -> Seq<char> {
    if occurs_at(next, "http"@, 0) {
        next
    } else if next.len() > 0 && next[0] == '/' {
        "https://openapi.tidal.com/v2/"@ + next.drop_first()
    } else {
        "https://openapi.tidal.com/v2/"@ + next
    }
}

/// The absolute address of a `links.next` value, which Tidal gives relative to
/// `openapi.tidal.com` and without the `/v2` prefix.
pub fn resolve_tidal_url(next: &str) -> (r: String)
    ensures
        r@ == resolved_url(next@),
{
    if starts_with(next, "http") {
        return owned(next);
    }
    let v = chars_of(next);
    if v.len() > 0 && v[0] == '/' {
        let rest = string_from_range(&v, 1, v.len());
        assert(rest@ =~= next@.drop_first());
        join2("https://openapi.tidal.com/v2/", rest.as_str())
    } else {
        join2("https://openapi.tidal.com/v2/", next)
    }
}

/// The id of a Tidal playlist link: its last path segment, without a query
/// string, a fragment or a trailing `/`.
pub fn extract_playlist_id(playlist_url: &str) -> (r: Option<String>)
    ensures
        match r {
            Some(id) => tidal_playlist_id(playlist_url@) == Some(id@),
            None => tidal_playlist_id(playlist_url@) is None,
        },
{
    crate::urls::tidal_extract_playlist_id(playlist_url)
}

// ---------------------------------------------------------------------------
// tidal-dl-ng runs

/// One run of `tidal-dl-ng`: its arguments, and how long it may take.
#[derive(Debug)]
pub struct TidalDlRun {
    pub args: Vec<String>,
    pub timeout_secs: u64,
}

/// Seconds a single-track run may take.
pub const TRACK_TIMEOUT_SECS: u64 = 180;

/// Seconds a whole-playlist run may take.
pub const PLAYLIST_TIMEOUT_SECS: u64 = 1800;

/// The file name pattern that puts tracks straight into the download folder.
pub open spec fn flat_format() -> Seq<char> {
    "{artist_name} - {track_title}{track_explicit}"@
}

fn run_of(args: Vec<String>, timeout_secs: u64) -> (r: TidalDlRun)
    ensures
        r.args@ == args@,
        r.timeout_secs == timeout_secs,
{
    TidalDlRun { args, timeout_secs }
}

fn two(a: &str, b: &str) -> (v: Vec<String>)
    ensures
        seq_strings(v@) == seq![a@, b@],
{
    let mut v: Vec<String> = Vec::new();
    v.push(owned(a));
    v.push(owned(b));
    assert(seq_strings(v@) =~= seq![a@, b@]);
    v
}

fn three(a: &str, b: &str, c: &str) -> (v: Vec<String>)
    ensures
        seq_strings(v@) == seq![a@, b@, c@],
{
    let mut v: Vec<String> = Vec::new();
    v.push(owned(a));
    v.push(owned(b));
    v.push(owned(c));
    assert(seq_strings(v@) =~= seq![a@, b@, c@]);
    v
}

/// Downloading one track: `tidal-dl-ng dl <track_url>`, for at most three minutes,
/// into the folder set by `set_tidal_dl_ng_download_path`.
pub fn download_via_tidal_dl_ng(track_url: &str) -> (r: TidalDlRun)
    ensures
        seq_strings(r.args@) == seq!["dl"@, track_url@],
        r.timeout_secs == TRACK_TIMEOUT_SECS,
{
    run_of(two("dl", track_url), TRACK_TIMEOUT_SECS)
}

/// Downloading a whole playlist: `tidal-dl-ng dl <playlist_url>`, for at most
/// half an hour, into the folder set by `set_tidal_dl_ng_download_path`.
pub fn download_playlist_via_tidal_dl_ng(playlist_url: &str) -> (r: TidalDlRun)
    ensures
        seq_strings(r.args@) == seq!["dl"@, playlist_url@],
        r.timeout_secs == PLAYLIST_TIMEOUT_SECS,
{
    run_of(two("dl", playlist_url), PLAYLIST_TIMEOUT_SECS)
}

/// The configuration runs, in order, that make `tidal-dl-ng` download into
/// `dest_dir` with tracks straight in it (no `Tracks/` or `Playlists/`
/// subfolder) and lossless tracks kept in their container. The shell creates
/// the folder first and stops at the first run that fails.
pub fn set_tidal_dl_ng_download_path(dest_dir: &str) -> (r: Vec<TidalDlRun>)
    ensures
        r.len() == 4,
        seq_strings(r@[0].args@) == seq!["cfg"@, "download_base_path"@, dest_dir@],
        seq_strings(r@[1].args@) == seq!["cfg"@, "format_track"@, flat_format()],
        seq_strings(r@[2].args@) == seq!["cfg"@, "format_playlist"@, flat_format()],
        seq_strings(r@[3].args@) == seq!["cfg"@, "extract_flac"@, "False"@],
        forall|i: int| 0 <= i < 4 ==> #[trigger] r@[i].timeout_secs == TRACK_TIMEOUT_SECS,
{
    let pattern = "{artist_name} - {track_title}{track_explicit}";
    let mut r: Vec<TidalDlRun> = Vec::new();
    r.push(run_of(three("cfg", "download_base_path", dest_dir), TRACK_TIMEOUT_SECS));
    r.push(run_of(three("cfg", "format_track", pattern), TRACK_TIMEOUT_SECS));
    r.push(run_of(three("cfg", "format_playlist", pattern), TRACK_TIMEOUT_SECS));
    r.push(run_of(three("cfg", "extract_flac", "False"), TRACK_TIMEOUT_SECS));
    r
}

/// The line shown before a run: `$ tidal-dl-ng` and its arguments.
pub fn command_echo(args: &Vec<String>) -> (r: String)
    ensures
        r@ == "$ tidal-dl-ng "@ + joined(seq_strings(args@), " "@),
{
    let line = join(args, " ");
    join2("$ tidal-dl-ng ", line.as_str())
}

/// How a run ended, as the shell saw it.
#[derive(Debug)]
pub enum RunEnd {
    /// The process exited; `status` is how its exit status prints.
    Exited { success: bool, status: String },
    /// The process was stopped at its deadline, or could no longer be waited on.
    Stopped,
}

/// The outcome of a run that took at most `timeout_secs`.
pub open spec fn run_outcome(exited: Option<(bool, Seq<char>)>, timeout_secs: u64) -> Result<(), Seq<char>> {
    match exited {
        Some((true, _)) => Ok(()),
        Some((false, status)) => Err("tidal-dl-ng exited with "@ + status),
        None => Err(
            "tidal-dl-ng timed out after "@ + decimal((timeout_secs / 60) as nat)
                + " minutes (likely stuck waiting on a prompt)"@,
        ),
    }
}

/// The outcome of a run: success when the process exited successfully, else
/// the reason.
pub fn run_result(end: &RunEnd, timeout_secs: u64) -> (r: Result<(), String>)
    ensures
        match (r, run_outcome(
            match end {
                RunEnd::Exited { success, status } => Some((*success, status@)),
                RunEnd::Stopped => None,
            },
            timeout_secs,
        )) {
            (Ok(()), Ok(())) => true,
            (Err(e), Err(f)) => e@ == f,
            _ => false,
        },
{
    match end {
        RunEnd::Exited { success, status } => if *success {
            Ok(())
        } else {
            Err(join2("tidal-dl-ng exited with ", status.as_str()))
        },
        RunEnd::Stopped => {
            let minutes = decimal_string(timeout_secs / 60);
            Err(join3("tidal-dl-ng timed out after ", minutes.as_str(), " minutes (likely stuck waiting on a prompt)"))
        },
    }
}

/// The line echoed before a `dl` run of `url`.
proof fn lemma_dl_echo(url: Seq<char>)
    ensures
        "$ tidal-dl-ng "@ + joined(seq!["dl"@, url], " "@) == "$ tidal-dl-ng dl "@ + url,
{
    reveal_strlit("$ tidal-dl-ng ");
    reveal_strlit("$ tidal-dl-ng dl ");
    reveal_strlit("dl");
    reveal_strlit(" ");
    let parts = seq!["dl"@, url];
    assert(parts.drop_last() =~= seq!["dl"@]);
    assert(joined(seq!["dl"@], " "@) == "dl"@);
    assert(parts.last() == url);
    assert(joined(parts, " "@) == joined(parts.drop_last(), " "@) + " "@ + parts.last());
    assert(joined(parts, " "@) == "dl"@ + " "@ + url);
    assert("$ tidal-dl-ng "@ + ("dl"@ + " "@ + url) =~= "$ tidal-dl-ng dl "@ + url);
}

/// Downloading one track with `tidal-dl-ng`: the run of
/// `download_via_tidal_dl_ng(url)` (arguments `dl` and `url`, three minutes),
/// whatever its output `lines`, shows `$ tidal-dl-ng dl <url>` first (its
/// transcript, as a `DlSession` records it), succeeds exactly when the tool
/// exits successfully in time, and otherwise reports how it ended; stopped at
/// its deadline, it reports a timeout after 3 minutes.
pub proof fn lemma_track_download_run(url: Seq<char>, lines: Seq<Seq<char>>, exited: Option<(bool, Seq<char>)>)
    ensures
        echo_of(seq!["dl"@, url]) == "$ tidal-dl-ng dl "@ + url,
        run_transcript(echo_of(seq!["dl"@, url]), lines)[0] == "$ tidal-dl-ng dl "@ + url,
        run_outcome(exited, TRACK_TIMEOUT_SECS) is Ok <==> exited matches Some((true, _)),
        exited is None ==> run_outcome(exited, TRACK_TIMEOUT_SECS) == Err::<(), Seq<char>>(
            "tidal-dl-ng timed out after "@ + "3"@ + " minutes (likely stuck waiting on a prompt)"@,
        ),
{
    lemma_dl_echo(url);
    reveal_strlit("3");
    assert(decimal(3) == "3"@);
}

/// Downloading a whole playlist with `tidal-dl-ng`: the run of
/// `download_playlist_via_tidal_dl_ng(url)` (arguments `dl` and `url`, half an
/// hour), whatever its output `lines`, shows `$ tidal-dl-ng dl <url>` first, succeeds exactly when the
/// tool exits successfully in time, and stopped at its deadline it reports a
/// timeout after 30 minutes.
pub proof fn lemma_playlist_download_run(url: Seq<char>, lines: Seq<Seq<char>>, exited: Option<(bool, Seq<char>)>)
    ensures
        echo_of(seq!["dl"@, url]) == "$ tidal-dl-ng dl "@ + url,
        run_transcript(echo_of(seq!["dl"@, url]), lines)[0] == "$ tidal-dl-ng dl "@ + url,
        run_outcome(exited, PLAYLIST_TIMEOUT_SECS) is Ok <==> exited matches Some((true, _)),
        exited is None ==> run_outcome(exited, PLAYLIST_TIMEOUT_SECS) == Err::<(), Seq<char>>(
            "tidal-dl-ng timed out after "@ + "30"@ + " minutes (likely stuck waiting on a prompt)"@,
        ),
{
    lemma_dl_echo(url);
    reveal_strlit("30");
    assert(decimal(3) == "3"@) by {
        reveal_strlit("3");
    }
    assert(decimal(30) =~= "30"@);
}

/// The message when the tool could not be started.
pub fn spawn_error(error: &str) -> (r: String)
    ensures
        r@ == "could not run tidal-dl-ng (is it installed and on PATH?): "@ + error@,
{
    join2("could not run tidal-dl-ng (is it installed and on PATH?): ", error)
}

// ---------------------------------------------------------------------------
// Hiding traceback noise

/// The border characters of the tool's traceback panels.
pub open spec fn is_border_char(c: char) -> bool {
    c == '│' || c == '┃' || c == '|' || c == '┌' || c == '└' || c == '├' || c == '─' || c == '╭' || c == '╰'
        || c == '┐' || c == '┘'
}

/// `s` without its leading whitespace and border characters.
pub open spec fn strip_border(s: Seq<char>) -> Seq<char>
    decreases s.len(),
{
    if s.len() > 0 && (is_whitespace_char(s[0]) || is_border_char(s[0])) {
        strip_border(s.drop_first())
    } else {
        s
    }
}

/// A name as Python writes one: ASCII letters, digits and `_`.
pub open spec fn is_name_char(c: char) -> bool {
    ('a' <= c <= 'z') || ('A' <= c <= 'Z') || ('0' <= c <= '9') || c == '_'
}

/// Whether a line of the tool's output is part of a dump of local variables:
/// once its border is stripped and it is trimmed, it is empty, or it reads
/// `name = value` with a non-empty name made of letters, digits and `_`.
pub open spec fn locals_dump_line(line: Seq<char>) -> bool {
    let t = trimmed(strip_border(line));
    t.len() == 0 || match crate::urls::first_match(t, " = "@, 0) {
        Some(k) => k > 0 && forall|i: int| 0 <= i < k ==> is_name_char(#[trigger] t[i]),
        None => false,
    }
}

fn border_char(c: char) -> (r: bool)
    ensures
        r == is_border_char(c),
{
    c == '│' || c == '┃' || c == '|' || c == '┌' || c == '└' || c == '├' || c == '─' || c == '╭' || c == '╰'
        || c == '┐' || c == '┘'
}

/// Whether a line of `tidal-dl-ng` output belongs to a traceback's dump of
/// local variables (a blank panel row, or `name = value`).
pub fn is_locals_dump_line(line: &str) -> (r: bool)
    ensures
        r == locals_dump_line(line@),
{
    let v = chars_of(line);
    let mut i: usize = 0;
    assert(v@.skip(0) =~= v@);
    while i < v.len() && (char_is_whitespace(v[i]) || border_char(v[i]))
        invariant
            i <= v.len(),
            v@ == line@,
            strip_border(line@) == strip_border(v@.skip(i as int)),
        decreases v.len() - i,
    {
        assert(v@.skip(i as int).drop_first() =~= v@.skip(i + 1));
        i = i + 1;
    }
    let rest = string_from_range(&v, i, v.len());
    assert(rest@ =~= v@.skip(i as int));
    if i < v.len() {
        assert(v@.skip(i as int)[0] == v@[i as int]);
    }
    assert(strip_border(line@) == rest@);
    let t = trim(rest.as_str());
    let tv = chars_of(t.as_str());
    if tv.len() == 0 {
        return true;
    }
    let marker = chars_of(" = ");
    proof {
        reveal_strlit(" = ");
    }
    let k = match crate::urls::locate(&tv, &marker, 0) {
        Some(k) => k,
        None => return false,
    };
    if k == 0 {
        return false;
    }
    let mut j: usize = 0;
    proof {
        crate::urls::lemma_first_match_occurs(tv@, marker@, 0);
    }
    while j < k
        invariant
            j <= k <= tv.len(),
            k > 0,
            tv@ == trimmed(strip_border(line@)),
            crate::urls::first_match(tv@, " = "@, 0) == Some(k as int),
            forall|m: int| 0 <= m < j ==> is_name_char(#[trigger] tv@[m]),
        decreases k - j,
    {
        let c = tv[j];
        if !(('a' <= c && c <= 'z') || ('A' <= c && c <= 'Z') || ('0' <= c && c <= '9') || c == '_') {
            assert(!is_name_char(tv@[j as int]));
            return false;
        }
        j = j + 1;
    }
    true
}

/// Collapses runs of traceback noise in the tool's output into one line that
/// says how many lines were hidden.
#[derive(Debug)]
pub struct NoiseFilter {
    pub hidden: usize,
}

/// The line that stands for `n` hidden lines.
pub open spec fn hidden_note(n: nat) -> Seq<char> {
    "  … ("@ + decimal(n) + " internal debug line(s) hidden)"@
}

impl NoiseFilter {
    /// A filter that has hidden nothing yet.
    pub fn new() -> (f: NoiseFilter)
        ensures
            f.hidden == 0,
    {
        NoiseFilter { hidden: 0 }
    }

    /// The lines to show for one more line of output: none when it is noise
    /// (it is counted), else the note for the noise hidden before it, if any,
    /// then the line itself.
    pub fn filter(&mut self, line: &str) -> (shown: Vec<String>)
        requires
            old(self).hidden < usize::MAX,
        ensures
            locals_dump_line(line@) ==> final(self).hidden == old(self).hidden + 1 && shown.len() == 0,
            !locals_dump_line(line@) ==> final(self).hidden == 0 && seq_strings(shown@) == (if old(self).hidden > 0 {
                seq![hidden_note(old(self).hidden as nat), line@]
            } else {
                seq![line@]
            }),
    {
        let mut shown: Vec<String> = Vec::new();
        if is_locals_dump_line(line) {
            self.hidden = self.hidden + 1;
            return shown;
        }
        if let Some(note) = self.flush() {
            shown.push(note);
        }
        shown.push(owned(line));
        proof {
            if old(self).hidden > 0 {
                assert(seq_strings(shown@) =~= seq![hidden_note(old(self).hidden as nat), line@]);
            } else {
                assert(seq_strings(shown@) =~= seq![line@]);
            }
        }
        shown
    }

    /// The note for the noise hidden since the last line shown, if any; the
    /// count starts over.
    pub fn flush(&mut self) -> (note: Option<String>)
        ensures
            final(self).hidden == 0,
            match note {
                Some(n) => old(self).hidden > 0 && n@ == hidden_note(old(self).hidden as nat),
                None => old(self).hidden == 0,
            },
    {
        if self.hidden > 0 {
            let count = decimal_string(self.hidden as u64);
            let note = join3("  … (", count.as_str(), " internal debug line(s) hidden)");
            self.hidden = 0;
            Some(note)
        } else {
            None
        }
    }
}

// ---------------------------------------------------------------------------
// A run of the tool

/// The lines shown for the output `lines` of a run, traceback noise
/// collapsed, and how many noise lines are still pending at the end.
pub open spec fn filtered(lines: Seq<Seq<char>>) -> (StrSeq, nat)
    decreases lines.len(),
{
    if lines.len() == 0 {
        (Seq::empty(), 0)
    } else {
        let (shown, h) = filtered(lines.drop_last());
        let l = lines.last();
        if locals_dump_line(l) {
            (shown, h + 1)
        } else {
            (shown + if h > 0 {
                seq![hidden_note(h), l]
            } else {
                seq![l]
            }, 0)
        }
    }
}

/// Everything a run shows, given its command line `echo` and its output
/// `lines`: the command first, then the output with noise collapsed, then the
/// note for noise left at the end.
pub open spec fn run_transcript(echo: Seq<char>, lines: Seq<Seq<char>>) -> StrSeq {
    let (shown, h) = filtered(lines);
    seq![echo] + shown + if h > 0 {
        seq![hidden_note(h)]
    } else {
        Seq::empty()
    }
}

/// The line shown before a run with arguments `args`.
pub open spec fn echo_of(args: StrSeq) -> Seq<char> {
    "$ tidal-dl-ng "@ + joined(args, " "@)
}

/// A run of `tidal-dl-ng` in progress, as the shell reports its output and
/// its end. The ghost fields record the command line, the output so far and
/// the lines shown so far.
pub struct DlSession {
    pub timeout_secs: u64,
    pub filter: NoiseFilter,
    pub echo: Ghost<Seq<char>>,
    pub output: Ghost<Seq<Seq<char>>>,
    pub shown: Ghost<StrSeq>,
}

impl DlSession {
    /// What was shown so far is the command, then the output taken so far with
    /// its noise collapsed; the filter holds the noise still pending.
    pub open spec fn wf(&self) -> bool {
        &&& self.shown@ == seq![self.echo@] + filtered(self.output@).0
        &&& self.filter.hidden == filtered(self.output@).1
    }

    /// Takes one more line of output: the lines to show now.
    pub fn on_output(&mut self, line: &str) -> (shown: Vec<String>)
        requires
            old(self).wf(),
            old(self).filter.hidden < usize::MAX,
        ensures
            final(self).wf(),
            final(self).output@ == old(self).output@.push(line@),
            final(self).shown@ == old(self).shown@ + seq_strings(shown@),
            final(self).echo@ == old(self).echo@,
            final(self).timeout_secs == old(self).timeout_secs,
    {
        let out = self.filter.filter(line);
        proof {
            let o2 = old(self).output@.push(line@);
            assert(o2.drop_last() =~= old(self).output@);
            self.output@ = o2;
            self.shown@ = old(self).shown@ + seq_strings(out@);
            if locals_dump_line(line@) {
                assert(seq_strings(out@) =~= Seq::<Seq<char>>::empty());
            }
            assert(self.shown@ =~= seq![self.echo@] + filtered(self.output@).0);
        }
        out
    }

    /// Takes the end of the run: the note for the noise left, if any, and the
    /// outcome. Everything shown over the run is then its transcript.
    pub fn finish(&mut self, end: &RunEnd) -> (r: (Vec<String>, Result<(), String>))
        requires
            old(self).wf(),
        ensures
            final(self).shown@ == old(self).shown@ + seq_strings(r.0@),
            final(self).shown@ == run_transcript(old(self).echo@, old(self).output@),
            match (r.1, run_outcome(
                match end {
                    RunEnd::Exited { success, status } => Some((*success, status@)),
                    RunEnd::Stopped => None,
                },
                old(self).timeout_secs,
            )) {
                (Ok(()), Ok(())) => true,
                (Err(e), Err(f)) => e@ == f,
                _ => false,
            },
    {
        let mut notes: Vec<String> = Vec::new();
        if let Some(note) = self.filter.flush() {
            notes.push(note);
        }
        proof {
            self.shown@ = old(self).shown@ + seq_strings(notes@);
            if old(self).filter.hidden > 0 {
                assert(seq_strings(notes@) =~= seq![hidden_note(old(self).filter.hidden as nat)]);
            } else {
                assert(seq_strings(notes@) =~= Seq::<Seq<char>>::empty());
            }
            assert(self.shown@ =~= run_transcript(old(self).echo@, old(self).output@));
        }
        (notes, run_result(end, self.timeout_secs))
    }
}

/// Starts a run as `run` says: the session, and the first line to show, the
/// command itself.
pub fn start_dl(run: &TidalDlRun) -> (r: (DlSession, String))
    ensures
        r.1@ == echo_of(seq_strings(run.args@)),
        r.0.wf(),
        r.0.echo@ == r.1@,
        r.0.output@ == Seq::<Seq<char>>::empty(),
        r.0.shown@ == seq![r.1@],
        r.0.timeout_secs == run.timeout_secs,
{
    let echo = command_echo(&run.args);
    let session = DlSession {
        timeout_secs: run.timeout_secs,
        filter: NoiseFilter::new(),
        echo: Ghost(echo@),
        output: Ghost(Seq::empty()),
        shown: Ghost(Seq::empty().push(echo@)),
    };
    proof {
        assert(seq![echo@] + filtered(Seq::<Seq<char>>::empty()).0 =~= seq![echo@]);
    }
    (session, echo)
}

// ---------------------------------------------------------------------------
// Reading Tidal's answers

/// `response["data"][0]["relationships"][kind]["data"]`.
pub open spec fn related(response: Json, kind: Seq<char>) -> Option<Json> {
    json_get(json_get(json_get(json_at(json_get(Some(response), "data"@), 0), "relationships"@), kind), "data"@)
}

/// The position of the first item whose `type` is `kind`.
pub open spec fn first_of_type(list: Seq<Json>, kind: Seq<char>) -> Option<int>
    decreases list.len(),
{
    if list.len() == 0 {
        None
    } else if json_text(json_get(Some(list[0]), "type"@)) == Some(kind) {
        Some(0)
    } else {
        match first_of_type(list.drop_first(), kind) {
            Some(i) => Some(i + 1),
            None => None,
        }
    }
}

/// The id of the first resource of type `kind` in a search answer: the first
/// related one, else the id of the first included one of that type.
pub open spec fn found_id(response: Json, kind: Seq<char>) -> Option<Seq<char>> {
    match json_text(json_get(json_at(related(response, kind), 0), "id"@)) {
        Some(id) => Some(id),
        None => match json_items(json_get(Some(response), "included"@)) {
            Some(list) => match first_of_type(list, kind) {
                Some(i) => json_text(json_get(Some(list[i]), "id"@)),
                None => None,
            },
            None => None,
        },
    }
}

proof fn lemma_first_of_type_first(list: Seq<Json>, kind: Seq<char>)
    ensures
        match first_of_type(list, kind) {
            Some(k) => 0 <= k < list.len() && json_text(json_get(Some(list[k]), "type"@)) == Some(kind) && forall|j: int|
                0 <= j < k ==> json_text(json_get(Some(#[trigger] list[j]), "type"@)) != Some(kind),
            None => forall|j: int| 0 <= j < list.len() ==> json_text(json_get(Some(#[trigger] list[j]), "type"@)) != Some(kind),
        },
    decreases list.len(),
{
    if list.len() > 0 {
        lemma_first_of_type_first(list.drop_first(), kind);
        assert forall|j: int| 0 < j < list.len() implies list[j] == list.drop_first()[j - 1] by {}
    }
}

/// The top hit wins: when a search answer's related resources of `kind` start
/// with an id, that id is the one found, whatever the included resources
/// hold. Only without it is the first included resource of type `kind`
/// taken, and with neither nothing is found.
pub proof fn lemma_found_id_prefers_top_hit(response: Json, kind: Seq<char>)
    ensures
        json_text(json_get(json_at(related(response, kind), 0), "id"@)) matches Some(id) ==> found_id(response, kind)
            == Some(id),
        json_text(json_get(json_at(related(response, kind), 0), "id"@)) is None ==> match json_items(
            json_get(Some(response), "included"@),
        ) {
            Some(list) => {
                &&& (forall|j: int| 0 <= j < list.len() ==> json_text(json_get(Some(#[trigger] list[j]), "type"@)) != Some(kind))
                    ==> found_id(response, kind) is None
                &&& forall|k: int|
                    0 <= k < list.len() && json_text(json_get(Some(#[trigger] list[k]), "type"@)) == Some(kind) && (forall|j: int|
                        0 <= j < k ==> json_text(json_get(Some(#[trigger] list[j]), "type"@)) != Some(kind)) ==> found_id(
                        response,
                        kind,
                    ) == json_text(json_get(Some(list[k]), "id"@))
            },
            None => found_id(response, kind) is None,
        },
{
    if let Some(list) = json_items(json_get(Some(response), "included"@)) {
        lemma_first_of_type_first(list, kind);
        assert forall|k: int|
            0 <= k < list.len() && json_text(json_get(Some(#[trigger] list[k]), "type"@)) == Some(kind) && (forall|j: int|
                0 <= j < k ==> json_text(json_get(Some(#[trigger] list[j]), "type"@)) != Some(kind)) implies first_of_type(
            list,
            kind,
        ) == Some(k) by {
            if let Some(f) = first_of_type(list, kind) {
                assert(f == k);
            }
        }
    }
}

/// Whether a search answer lists a track: directly, or among the included resources.
pub open spec fn has_track_hits(response: Json) -> bool {
    (match json_items(related(response, "tracks"@)) {
        Some(list) => list.len() > 0,
        None => false,
    }) || (match json_items(json_get(Some(response), "included"@)) {
        Some(list) => first_of_type(list, "tracks"@) is Some,
        None => false,
    })
}

fn related_data<'a>(response: &'a Json, kind: &str) -> (r: Option<&'a Json>)
    ensures
        deref(r) == related(*response, kind@),
{
    let data = get(Some(response), "data");
    let first = at(data, 0);
    let rel = get(first, "relationships");
    let k = get(rel, kind);
    get(k, "data")
}

fn type_position(list: &Vec<Json>, kind: &str) -> (r: Option<usize>)
    ensures
        match r {
            Some(i) => i < list.len() && first_of_type(list@, kind@) == Some(i as int),
            None => first_of_type(list@, kind@) is None,
        },
{
    let mut i: usize = 0;
    assert(list@.skip(0) =~= list@);
    while i < list.len()
        invariant
            i <= list.len(),
            first_of_type(list@, kind@) == crate::sync::shifted(first_of_type(list@.skip(i as int), kind@), i as int),
        decreases list.len() - i,
    {
        assert(list@.skip(i as int).drop_first() =~= list@.skip(i + 1));
        assert(list@.skip(i as int)[0] == list@[i as int]);
        let t = text(get(Some(&list[i]), "type"));
        let hit = match t {
            Some(t) => same_text(t.as_str(), kind),
            None => false,
        };
        if hit {
            return Some(i);
        }
        i = i + 1;
    }
    None
}

/// The id of the first `kind` resource of a search answer (see `found_id`).
pub fn first_id(response: &Json, kind: &str) -> (r: Option<String>)
    ensures
        match r {
            Some(id) => found_id(*response, kind@) == Some(id@),
            None => found_id(*response, kind@) is None,
        },
{
    let direct = text(get(at(related_data(response, kind), 0), "id"));
    if direct.is_some() {
        return direct;
    }
    match items(get(Some(response), "included")) {
        Some(list) => match type_position(list, kind) {
            Some(i) => text(get(Some(&list[i]), "id")),
            None => None,
        },
        None => None,
    }
}

/// Whether a search answer lists a track.
pub fn search_hits(response: &Json) -> (r: bool)
    ensures
        r == has_track_hits(*response),
{
    proof {
        reveal_strlit("tracks");
    }
    let direct = match items(related_data(response, "tracks")) {
        Some(list) => list.len() > 0,
        None => false,
    };
    let included = match items(get(Some(response), "included")) {
        Some(list) => type_position(list, "tracks").is_some(),
        None => false,
    };
    direct || included
}

/// The (title, id) pairs of the tracks included in an answer, titles trimmed
/// and lowercased; tracks without a title or an id are left out.
pub open spec fn catalog_of(list: Seq<Json>) -> Seq<(Seq<char>, Seq<char>)>
    decreases list.len(),
{
    if list.len() == 0 {
        Seq::empty()
    } else {
        let prev = catalog_of(list.drop_last());
        let it = list.last();
        let title = json_text(json_get(json_get(Some(it), "attributes"@), "title"@));
        let id = json_text(json_get(Some(it), "id"@));
        if json_text(json_get(Some(it), "type"@)) == Some("tracks"@) && title is Some && id is Some {
            prev.push((lowercase(trimmed(title.unwrap())), id.unwrap()))
        } else {
            prev
        }
    }
}

/// The catalog an artist answer lists (none when it includes nothing).
pub open spec fn artist_catalog_of(response: Json) -> Seq<(Seq<char>, Seq<char>)> {
    match json_items(json_get(Some(response), "included"@)) {
        Some(list) => catalog_of(list),
        None => Seq::empty(),
    }
}

/// The views of a list of string pairs.
pub open spec fn pair_views(v: Seq<(String, String)>) -> Seq<(Seq<char>, Seq<char>)> {
    v.map_values(|p: (String, String)| (p.0@, p.1@))
}

/// The (lowercased title, id) pairs of the tracks an artist answer includes.
pub fn artist_catalog(response: &Json) -> (r: Vec<(String, String)>)
    ensures
        pair_views(r@) == artist_catalog_of(*response),
{
    let mut r: Vec<(String, String)> = Vec::new();
    let list = match items(get(Some(response), "included")) {
        Some(list) => list,
        None => {
            assert(pair_views(r@) =~= Seq::<(Seq<char>, Seq<char>)>::empty());
            return r;
        },
    };
    assert(list@.take(0) =~= Seq::<Json>::empty());
    assert(pair_views(r@) =~= catalog_of(list@.take(0)));
    for i in 0..list.len()
        invariant
            json_items(json_get(Some(*response), "included"@)) == Some(list@),
            pair_views(r@) == catalog_of(list@.take(i as int)),
    {
        assert(list@.take(i + 1).drop_last() =~= list@.take(i as int));
        assert(list@.take(i + 1).last() == list@[i as int]);
        let it = Some(&list[i]);
        let is_track = match text(get(it, "type")) {
            Some(t) => same_text(t.as_str(), "tracks"),
            None => false,
        };
        proof {
            reveal_strlit("tracks");
        }
        if is_track {
            let title = text(get(get(it, "attributes"), "title"));
            let id = text(get(it, "id"));
            match (title, id) {
                (Some(t), Some(id)) => {
                    let trimmed_title = trim(t.as_str());
                    let key = to_lowercase(trimmed_title.as_str());
                    let ghost before = pair_views(r@);
                    r.push((key, id));
                    assert(pair_views(r@) =~= before.push((key@, id@)));
                },
                _ => {},
            }
        }
    }
    assert(list@.take(list.len() as int) =~= list@);
    r
}

/// The position of the first catalog entry whose title contains `target` or is
/// contained in it.
pub open spec fn title_match(catalog: Seq<(Seq<char>, Seq<char>)>, target: Seq<char>) -> Option<int>
    decreases catalog.len(),
{
    if catalog.len() == 0 {
        None
    } else if has_substring(catalog[0].0, target) || has_substring(target, catalog[0].0) {
        Some(0)
    } else {
        crate::sync::shifted(title_match(catalog.drop_first(), target), 1)
    }
}

/// The id of the track of `catalog` that matches `title`: the first whose
/// title contains the trimmed, lowercased `title`, or is contained in it.
pub open spec fn matched_id(catalog: Seq<(Seq<char>, Seq<char>)>, title: Seq<char>) -> Option<Seq<char>> {
    match title_match(catalog, lowercase(trimmed(title))) {
        Some(i) => Some(catalog[i].1),
        None => None,
    }
}

/// The id of the catalog track matching `title` (see `matched_id`).
pub fn match_title(catalog: &Vec<(String, String)>, title: &str) -> (r: Option<String>)
    ensures
        match r {
            Some(id) => matched_id(pair_views(catalog@), title@) == Some(id@),
            None => matched_id(pair_views(catalog@), title@) is None,
        },
{
    let t = trim(title);
    let target = to_lowercase(t.as_str());
    let ghost cv = pair_views(catalog@);
    let mut i: usize = 0;
    assert(cv.skip(0) =~= cv);
    while i < catalog.len()
        invariant
            i <= catalog.len(),
            cv == pair_views(catalog@),
            target@ == lowercase(trimmed(title@)),
            title_match(cv, target@) == crate::sync::shifted(title_match(cv.skip(i as int), target@), i as int),
        decreases catalog.len() - i,
    {
        assert(cv.skip(i as int).drop_first() =~= cv.skip(i + 1));
        assert(cv.skip(i as int)[0] == cv[i as int]);
        let found = &catalog[i].0;
        if contains_str(found.as_str(), target.as_str()) || contains_str(target.as_str(), found.as_str()) {
            return Some(catalog[i].1.clone());
        }
        i = i + 1;
    }
    None
}

// ---------------------------------------------------------------------------
// Requests

/// A catalog search address: `query` percent-encoded, for `country_code`,
/// including resources of type `kind`.
pub open spec fn search_url(country_code: Seq<char>, query: Seq<char>, kind: Seq<char>) -> Seq<char> {
    "https://openapi.tidal.com/v2/searchResults?filter%5Bquery%5D="@ + crate::urls::percent_encoded(
        vstd::utf8::encode_utf8(query),
    ) + "&countryCode="@ + country_code + "&include="@ + kind
}

/// The query that searches a track: its title, a space, its artist.
pub open spec fn track_query(title: Seq<char>, artist: Seq<char>) -> Seq<char> {
    title + " "@ + artist
}

fn make_search_url(country_code: &str, query: &str, kind: &str) -> (r: String)
    ensures
        r@ == search_url(country_code@, query@, kind@),
{
    let encoded = crate::urls::percent_encode(query);
    crate::text::join5(
        "https://openapi.tidal.com/v2/searchResults?filter%5Bquery%5D=",
        encoded.as_str(),
        "&countryCode=",
        country_code,
        &join2("&include=", kind),
    )
}

/// A request a search machine asks the shell to make.
#[derive(Debug)]
pub enum TidalCall {
    /// Ask for an app token with these credentials (client credentials flow).
    Token { client_id: String, client_secret: String },
    /// GET `url` with `token` once, as a plain catalog search.
    Search { url: String, token: String },
    /// GET `url` with `token`, spacing requests out and retrying while rate limited.
    Get { url: String, token: String },
}

pub enum TidalCallView {
    Token { client_id: Seq<char>, client_secret: Seq<char> },
    Search { url: Seq<char>, token: Seq<char> },
    Get { url: Seq<char>, token: Seq<char> },
}

impl View for TidalCall {
    type V = TidalCallView;

    open spec fn view(&self) -> TidalCallView {
        match self {
            TidalCall::Token { client_id, client_secret } => TidalCallView::Token {
                client_id: client_id@,
                client_secret: client_secret@,
            },
            TidalCall::Search { url, token } => TidalCallView::Search { url: url@, token: token@ },
            TidalCall::Get { url, token } => TidalCallView::Get { url: url@, token: token@ },
        }
    }
}

/// What a search machine does next: make a request, or stop (with the error
/// that ended it, if one did).
#[derive(Debug)]
pub enum SearchStep {
    Call(TidalCall),
    Finished(Result<(), String>),
}

pub enum SearchStepView {
    Call(TidalCallView),
    Finished(Result<(), Seq<char>>),
}

impl View for SearchStep {
    type V = SearchStepView;

    open spec fn view(&self) -> SearchStepView {
        match self {
            SearchStep::Call(c) => SearchStepView::Call(c@),
            SearchStep::Finished(Ok(())) => SearchStepView::Finished(Ok(())),
            SearchStep::Finished(Err(e)) => SearchStepView::Finished(Err(e@)),
        }
    }
}

// ---------------------------------------------------------------------------
// Which tracks Tidal has

/// Looking up, track after track, whether Tidal's catalog has each (title,
/// artist) pair. An expired token is renewed once per track.
#[derive(Debug)]
pub struct FindTracks {
    pub client_id: String,
    pub client_secret: String,
    pub country_code: String,
    pub tracks: Vec<(String, String)>,
    /// One answer per track looked up so far.
    pub results: Vec<bool>,
    pub token: String,
    /// Whether the token was already renewed for the current track.
    pub retried: bool,
}

pub struct FindTracksView {
    pub client_id: Seq<char>,
    pub client_secret: Seq<char>,
    pub country_code: Seq<char>,
    pub tracks: Seq<(Seq<char>, Seq<char>)>,
    pub results: Seq<bool>,
    pub token: Seq<char>,
    pub retried: bool,
}

impl View for FindTracks {
    type V = FindTracksView;

    open spec fn view(&self) -> FindTracksView {
        FindTracksView {
            client_id: self.client_id@,
            client_secret: self.client_secret@,
            country_code: self.country_code@,
            tracks: pair_views(self.tracks@),
            results: self.results@,
            token: self.token@,
            retried: self.retried,
        }
    }
}

/// The next search of a lookup, or its end once every track has an answer.
pub open spec fn tracks_next(s: FindTracksView) -> SearchStepView {
    if s.results.len() >= s.tracks.len() {
        SearchStepView::Finished(Ok(()))
    } else {
        let (title, artist) = s.tracks[s.results.len() as int];
        SearchStepView::Call(
            TidalCallView::Search {
                url: search_url(s.country_code, track_query(title, artist), "tracks"@),
                token: s.token,
            },
        )
    }
}

/// A lookup after the token request answered `r`.
pub open spec fn tracks_on_token(s: FindTracksView, r: Result<Seq<char>, Seq<char>>) -> (FindTracksView, SearchStepView) {
    match r {
        Err(e) => (s, SearchStepView::Finished(Err(e))),
        Ok(t) => {
            let s2 = FindTracksView { token: t, ..s };
            (s2, tracks_next(s2))
        },
    }
}

/// A lookup after the current search answered `r` (`Ok` with the parsed
/// answer, `Err` with what failed).
pub open spec fn tracks_on_search(s: FindTracksView, r: Result<Json, Seq<char>>) -> (FindTracksView, SearchStepView) {
    if s.results.len() >= s.tracks.len() {
        (s, SearchStepView::Finished(Ok(())))
    } else {
        match r {
            Ok(response) => {
                let s2 = FindTracksView { results: s.results.push(has_track_hits(response)), retried: false, ..s };
                (s2, tracks_next(s2))
            },
            Err(e) => if !s.retried && auth_error(e) {
                (
                    FindTracksView { retried: true, ..s },
                    SearchStepView::Call(TidalCallView::Token { client_id: s.client_id, client_secret: s.client_secret }),
                )
            } else {
                let s2 = FindTracksView { results: s.results.push(false), retried: false, ..s };
                (s2, tracks_next(s2))
            },
        }
    }
}

impl FindTracks {
    fn next(&self) -> (step: SearchStep)
        ensures
            step@ == tracks_next(self@),
    {
        let i = self.results.len();
        if i >= self.tracks.len() {
            return SearchStep::Finished(Ok(()));
        }
        let (title, artist) = &self.tracks[i];
        assert(self@.tracks[i as int] == (title@, artist@));
        let query = join3(title.as_str(), " ", artist.as_str());
        proof {
            reveal_strlit(" ");
            reveal_strlit("tracks");
        }
        let url = make_search_url(self.country_code.as_str(), query.as_str(), "tracks");
        SearchStep::Call(TidalCall::Search { url, token: self.token.clone() })
    }

    /// Takes the answer to the token request.
    pub fn on_token(&mut self, r: Result<String, String>) -> (step: SearchStep)
        requires
            old(self).results.len() <= old(self).tracks.len(),
        ensures
            (final(self)@, step@) == tracks_on_token(
                old(self)@,
                match r {
                    Ok(t) => Ok(t@),
                    Err(e) => Err(e@),
                },
            ),
            final(self).results.len() <= final(self).tracks.len(),
            step@ == SearchStepView::Finished(Ok(())) ==> final(self).results.len() == final(self).tracks.len(),
    {
        match r {
            Err(e) => SearchStep::Finished(Err(e)),
            Ok(t) => {
                self.token = t;
                self.next()
            },
        }
    }

    /// Takes the answer to the current search.
    pub fn on_search(&mut self, r: Result<Json, String>) -> (step: SearchStep)
        requires
            old(self).results.len() <= old(self).tracks.len(),
        ensures
            (final(self)@, step@) == tracks_on_search(
                old(self)@,
                match r {
                    Ok(j) => Ok(j),
                    Err(e) => Err(e@),
                },
            ),
            final(self).results.len() <= final(self).tracks.len(),
            step@ == SearchStepView::Finished(Ok(())) ==> final(self).results.len() == final(self).tracks.len(),
    {
        if self.results.len() >= self.tracks.len() {
            return SearchStep::Finished(Ok(()));
        }
        match r {
            Ok(response) => {
                let hit = search_hits(&response);
                self.results.push(hit);
                self.retried = false;
                self.next()
            },
            Err(e) => {
                if !self.retried && is_auth_error(e.as_str()) {
                    self.retried = true;
                    SearchStep::Call(
                        TidalCall::Token { client_id: self.client_id.clone(), client_secret: self.client_secret.clone() },
                    )
                } else {
                    self.results.push(false);
                    self.retried = false;
                    self.next()
                }
            },
        }
    }
}

/// Starts looking up whether Tidal has each (title, artist) pair of `tracks`,
/// with the client credentials `client_id` and `client_secret`: the first
/// request is for a token. The answers gather in `results`, one per track.
pub fn find_tracks(client_id: &str, client_secret: &str, country_code: &str, tracks: Vec<(String, String)>) -> (r: (
    FindTracks,
    TidalCall,
))
    ensures
        r.0@ == (FindTracksView {
            client_id: client_id@,
            client_secret: client_secret@,
            country_code: country_code@,
            tracks: pair_views(tracks@),
            results: Seq::empty(),
            token: Seq::empty(),
            retried: false,
        }),
        r.1@ == (TidalCallView::Token { client_id: client_id@, client_secret: client_secret@ }),
{
    let m = FindTracks {
        client_id: owned(client_id),
        client_secret: owned(client_secret),
        country_code: owned(country_code),
        tracks,
        results: Vec::new(),
        token: String::new(),
        retried: false,
    };
    assert(m@.results =~= Seq::<bool>::empty());
    (m, TidalCall::Token { client_id: owned(client_id), client_secret: owned(client_secret) })
}

// ---------------------------------------------------------------------------
// Tidal addresses of tracks

/// The value of the first entry with key `key`.
pub open spec fn lookup<V>(entries: Seq<(Seq<char>, V)>, key: Seq<char>) -> Option<V>
    decreases entries.len(),
{
    if entries.len() == 0 {
        None
    } else if entries[0].0 == key {
        Some(entries[0].1)
    } else {
        lookup(entries.drop_first(), key)
    }
}

/// Which request of a track's search is outstanding.
#[derive(Debug)]
pub enum UrlPhase {
    /// The search for "title artist".
    Direct,
    /// The search for the artist.
    Artist,
    /// The catalog of the artist with this id.
    Catalog(String),
}

pub enum UrlPhaseView {
    Direct,
    Artist,
    Catalog(Seq<char>),
}

/// Looking up, track after track, the Tidal address of each (title, artist)
/// pair: by searching "title artist", and when that finds nothing, by finding
/// the artist and matching the title in the artist's catalog. Artist ids and
/// catalogs are remembered for the whole batch; an expired token is renewed
/// once per track.
#[derive(Debug)]
pub struct FindTrackUrls {
    pub client_id: String,
    pub client_secret: String,
    pub country_code: String,
    pub tracks: Vec<(String, String)>,
    /// One address (or none) per track looked up so far.
    pub results: Vec<Option<String>>,
    pub token: String,
    /// Whether the first token was received.
    pub started: bool,
    /// Whether the token was already renewed for the current track.
    pub retried: bool,
    pub phase: UrlPhase,
    /// Artist name, and the id found for it (if any).
    pub artist_ids: Vec<(String, Option<String>)>,
    /// Artist id, and the (lowercased title, track id) pairs of its catalog.
    pub artist_tracks: Vec<(String, Vec<(String, String)>)>,
}

pub struct FindTrackUrlsView {
    pub client_id: Seq<char>,
    pub client_secret: Seq<char>,
    pub country_code: Seq<char>,
    pub tracks: Seq<(Seq<char>, Seq<char>)>,
    pub results: Seq<Option<Seq<char>>>,
    pub token: Seq<char>,
    pub started: bool,
    pub retried: bool,
    pub phase: UrlPhaseView,
    pub artist_ids: Seq<(Seq<char>, Option<Seq<char>>)>,
    pub artist_tracks: Seq<(Seq<char>, Seq<(Seq<char>, Seq<char>)>)>,
}

pub open spec fn results_view(v: Seq<Option<String>>) -> Seq<Option<Seq<char>>> {
    v.map_values(|o: Option<String>| crate::tracks::opt_view(o))
}

pub open spec fn ids_view(v: Seq<(String, Option<String>)>) -> Seq<(Seq<char>, Option<Seq<char>>)> {
    v.map_values(|p: (String, Option<String>)| (p.0@, crate::tracks::opt_view(p.1)))
}

pub open spec fn catalogs_view(v: Seq<(String, Vec<(String, String)>)>) -> Seq<(Seq<char>, Seq<(Seq<char>, Seq<char>)>)> {
    v.map_values(|p: (String, Vec<(String, String)>)| (p.0@, pair_views(p.1@)))
}

impl View for FindTrackUrls {
    type V = FindTrackUrlsView;

    open spec fn view(&self) -> FindTrackUrlsView {
        FindTrackUrlsView {
            client_id: self.client_id@,
            client_secret: self.client_secret@,
            country_code: self.country_code@,
            tracks: pair_views(self.tracks@),
            results: results_view(self.results@),
            token: self.token@,
            started: self.started,
            retried: self.retried,
            phase: match self.phase {
                UrlPhase::Direct => UrlPhaseView::Direct,
                UrlPhase::Artist => UrlPhaseView::Artist,
                UrlPhase::Catalog(a) => UrlPhaseView::Catalog(a@),
            },
            artist_ids: ids_view(self.artist_ids@),
            artist_tracks: catalogs_view(self.artist_tracks@),
        }
    }
}

/// One step of an address lookup: lines for the request log of the current
/// track, the 1-based number of the track that now starts (if one does), and
/// what to do next.
#[derive(Debug)]
pub struct UrlStep {
    pub log: Vec<String>,
    pub progress: Option<usize>,
    pub step: SearchStep,
}

pub struct UrlStepView {
    pub log: StrSeq,
    pub progress: Option<usize>,
    pub step: SearchStepView,
}

impl View for UrlStep {
    type V = UrlStepView;

    open spec fn view(&self) -> UrlStepView {
        UrlStepView { log: seq_strings(self.log@), progress: self.progress, step: self.step@ }
    }
}

/// The address of an artist's page with its tracks.
pub open spec fn artist_tracks_url(country_code: Seq<char>, artist_id: Seq<char>) -> Seq<char> {
    "https://openapi.tidal.com/v2/artists/"@ + artist_id + "?countryCode="@ + country_code + "&include=tracks"@
}

pub open spec fn quoted(s: Seq<char>) -> Seq<char> {
    "\""@ + s + "\""@
}

/// Starts track `i`, or ends the batch when every track has an answer.
pub open spec fn url_begin(s: FindTrackUrlsView, log: StrSeq) -> (FindTrackUrlsView, UrlStepView) {
    let i = s.results.len();
    if i >= s.tracks.len() {
        (s, UrlStepView { log: log, progress: None, step: SearchStepView::Finished(Ok(())) })
    } else {
        let (title, artist) = s.tracks[i as int];
        (
            FindTrackUrlsView { phase: UrlPhaseView::Direct, ..s },
            UrlStepView {
                log: log,
                progress: Some((i + 1) as usize),
                step: SearchStepView::Call(
                    TidalCallView::Get { url: search_url(s.country_code, track_query(title, artist), "tracks"@), token: s.token },
                ),
            },
        )
    }
}

/// Records the answer for the current track and starts the next one.
pub open spec fn url_record(s: FindTrackUrlsView, log: StrSeq, found: Option<Seq<char>>) -> (FindTrackUrlsView, UrlStepView) {
    url_begin(FindTrackUrlsView { results: s.results.push(found), retried: false, ..s }, log)
}

/// The line logged once a catalog was searched for the current title.
pub open spec fn match_note(title: Seq<char>, found: Option<Seq<char>>, n: nat) -> Seq<char> {
    match found {
        Some(id) => "matched track_id="@ + id + " for title="@ + quoted(title) + " in artist's catalog ("@ + decimal(n)
            + " tracks)"@,
        None => "no title match for "@ + quoted(title) + " among "@ + decimal(n) + " tracks in artist's catalog"@,
    }
}

/// Matches the current title in an artist's catalog.
pub open spec fn url_catalog(s: FindTrackUrlsView, log: StrSeq, catalog: Seq<(Seq<char>, Seq<char>)>) -> (FindTrackUrlsView, UrlStepView) {
    let title = s.tracks[s.results.len() as int].0;
    let m = matched_id(catalog, title);
    url_record(
        s,
        log.push(match_note(title, m, catalog.len())),
        match m {
            Some(id) => Some(track_page(id)),
            None => None,
        },
    )
}

/// Goes on once the current artist's id is known (or known to be missing).
pub open spec fn url_after_artist(s: FindTrackUrlsView, log: StrSeq, artist_id: Option<Seq<char>>) -> (FindTrackUrlsView, UrlStepView) {
    let artist = s.tracks[s.results.len() as int].1;
    match artist_id {
        None => url_record(s, log.push("no artist id found for artist="@ + quoted(artist)), None),
        Some(a) => {
            let log2 = log.push("resolved artist_id="@ + a + " for artist="@ + quoted(artist));
            match lookup(s.artist_tracks, a) {
                Some(catalog) => url_catalog(s, log2.push("(cached track list for artist "@ + a + ")"@), catalog),
                None => (
                    FindTrackUrlsView { phase: UrlPhaseView::Catalog(a), ..s },
                    UrlStepView {
                        log: log2,
                        progress: None,
                        step: SearchStepView::Call(
                            TidalCallView::Get { url: artist_tracks_url(s.country_code, a), token: s.token },
                        ),
                    },
                ),
            }
        },
    }
}

/// Falls back to the current artist's catalog.
pub open spec fn url_via_artist(s: FindTrackUrlsView, log: StrSeq) -> (FindTrackUrlsView, UrlStepView) {
    let artist = s.tracks[s.results.len() as int].1;
    if trimmed(artist).len() == 0 {
        url_record(s, log, None)
    } else {
        match lookup(s.artist_ids, artist) {
            Some(cached) => url_after_artist(s, log.push("(cached artist id for "@ + quoted(artist) + ")"@), cached),
            None => (
                FindTrackUrlsView { phase: UrlPhaseView::Artist, ..s },
                UrlStepView {
                    log: log,
                    progress: None,
                    step: SearchStepView::Call(
                        TidalCallView::Get { url: search_url(s.country_code, artist, "artists"@), token: s.token },
                    ),
                },
            ),
        }
    }
}

/// A lookup after the token request answered `r`.
pub open spec fn urls_on_token(s: FindTrackUrlsView, r: Result<Seq<char>, Seq<char>>) -> (FindTrackUrlsView, UrlStepView) {
    match r {
        Err(e) => (s, UrlStepView { log: Seq::empty(), progress: None, step: SearchStepView::Finished(Err(e)) }),
        Ok(t) => if !s.started {
            url_begin(FindTrackUrlsView { token: t, started: true, ..s }, Seq::empty())
        } else if s.results.len() < s.tracks.len() {
            let (title, artist) = s.tracks[s.results.len() as int];
            (
                FindTrackUrlsView { token: t, phase: UrlPhaseView::Direct, ..s },
                UrlStepView {
                    log: Seq::empty(),
                    progress: None,
                    step: SearchStepView::Call(
                        TidalCallView::Get { url: search_url(s.country_code, track_query(title, artist), "tracks"@), token: t },
                    ),
                },
            )
        } else {
            (
                FindTrackUrlsView { token: t, ..s },
                UrlStepView { log: Seq::empty(), progress: None, step: SearchStepView::Finished(Ok(())) },
            )
        },
    }
}

/// A lookup after the outstanding request answered `r` (`Ok` with the parsed
/// answer, `Err` with what failed).
pub open spec fn urls_on_response(s: FindTrackUrlsView, r: Result<Json, Seq<char>>) -> (FindTrackUrlsView, UrlStepView) {
    if !s.started || s.results.len() >= s.tracks.len() {
        (s, UrlStepView { log: Seq::empty(), progress: None, step: SearchStepView::Finished(Ok(())) })
    } else {
        match r {
            Err(e) => if !s.retried && auth_error(e) {
                (
                    FindTrackUrlsView { retried: true, ..s },
                    UrlStepView {
                        log: seq!["auth error, refreshing token: "@ + e],
                        progress: None,
                        step: SearchStepView::Call(
                            TidalCallView::Token { client_id: s.client_id, client_secret: s.client_secret },
                        ),
                    },
                )
            } else {
                url_record(s, if s.retried { Seq::empty() } else { seq!["search error: "@ + e] }, None)
            },
            Ok(response) => match s.phase {
                UrlPhaseView::Direct => match found_id(response, "tracks"@) {
                    Some(id) => url_record(s, Seq::empty(), Some(track_page(id))),
                    None => url_via_artist(s, Seq::empty()),
                },
                UrlPhaseView::Artist => {
                    let artist = s.tracks[s.results.len() as int].1;
                    let aid = found_id(response, "artists"@);
                    url_after_artist(
                        FindTrackUrlsView { artist_ids: s.artist_ids.push((artist, aid)), ..s },
                        Seq::empty(),
                        aid,
                    )
                },
                UrlPhaseView::Catalog(a) => {
                    let catalog = artist_catalog_of(response);
                    url_catalog(
                        FindTrackUrlsView { artist_tracks: s.artist_tracks.push((a, catalog)), ..s },
                        Seq::empty(),
                        catalog,
                    )
                },
            },
        }
    }
}

/// No two entries share a key.
pub open spec fn keys_distinct<V>(e: Seq<(Seq<char>, V)>) -> bool {
    forall|i: int, j: int| 0 <= i < j < e.len() ==> #[trigger] e[i].0 != #[trigger] e[j].0
}

/// The artist cache of a lookup is sound: each artist is cached at most once,
/// and while the current track's artist is being searched, that artist is not
/// cached yet.
pub open spec fn cache_ok(s: FindTrackUrlsView) -> bool {
    &&& keys_distinct(s.artist_ids)
    &&& (s.phase is Artist && s.results.len() < s.tracks.len()) ==> lookup(
        s.artist_ids,
        s.tracks[s.results.len() as int].1,
    ) is None
}

proof fn lemma_lookup_none<V>(e: Seq<(Seq<char>, V)>, k: Seq<char>)
    requires
        lookup(e, k) is None,
    ensures
        forall|i: int| 0 <= i < e.len() ==> #[trigger] e[i].0 != k,
    decreases e.len(),
{
    if e.len() > 0 {
        lemma_lookup_none(e.drop_first(), k);
        assert forall|i: int| 0 <= i < e.len() implies #[trigger] e[i].0 != k by {
            if i > 0 {
                assert(e[i] == e.drop_first()[i - 1]);
            }
        }
    }
}

proof fn lemma_lookup_push<V>(e: Seq<(Seq<char>, V)>, k: Seq<char>, v: V, a: Seq<char>)
    ensures
        lookup(e, a) is Some ==> lookup(e.push((k, v)), a) == lookup(e, a),
        lookup(e, a) is None && a == k ==> lookup(e.push((k, v)), a) == Some(v),
        lookup(e, a) is None && a != k ==> lookup(e.push((k, v)), a) is None,
    decreases e.len(),
{
    if e.len() > 0 {
        assert(e.push((k, v)).drop_first() =~= e.drop_first().push((k, v)));
        lemma_lookup_push(e.drop_first(), k, v, a);
    } else {
        assert(e.push((k, v)).drop_first() =~= Seq::<(Seq<char>, V)>::empty());
        assert(lookup(e.push((k, v)).drop_first(), a) is None);
    }
}

proof fn lemma_push_distinct<V>(e: Seq<(Seq<char>, V)>, k: Seq<char>, v: V)
    requires
        keys_distinct(e),
        lookup(e, k) is None,
    ensures
        keys_distinct(e.push((k, v))),
{
    lemma_lookup_none(e, k);
    let f = e.push((k, v));
    assert forall|i: int, j: int| 0 <= i < j < f.len() implies #[trigger] f[i].0 != #[trigger] f[j].0 by {
        if j == e.len() {
            assert(f[i] == e[i]);
        } else {
            assert(f[i] == e[i] && f[j] == e[j]);
        }
    }
}

proof fn lemma_url_begin_cache(s: FindTrackUrlsView)
    requires
        keys_distinct(s.artist_ids),
    ensures
        forall|log: StrSeq| #[trigger] url_begin(s, log).0.artist_ids == s.artist_ids && cache_ok(url_begin(s, log).0),
{
}

proof fn lemma_url_record_cache(s: FindTrackUrlsView)
    requires
        keys_distinct(s.artist_ids),
    ensures
        forall|log: StrSeq, found: Option<Seq<char>>|
            #[trigger] url_record(s, log, found).0.artist_ids == s.artist_ids && cache_ok(url_record(s, log, found).0),
{
    assert forall|log: StrSeq, found: Option<Seq<char>>|
        #[trigger] url_record(s, log, found).0.artist_ids == s.artist_ids && cache_ok(url_record(s, log, found).0) by {
        lemma_url_begin_cache(FindTrackUrlsView { results: s.results.push(found), retried: false, ..s });
        assert(url_record(s, log, found) == url_begin(
            FindTrackUrlsView { results: s.results.push(found), retried: false, ..s },
            log,
        ));
    }
}

proof fn lemma_url_catalog_cache(s: FindTrackUrlsView)
    requires
        keys_distinct(s.artist_ids),
    ensures
        forall|log: StrSeq, catalog: Seq<(Seq<char>, Seq<char>)>|
            #[trigger] url_catalog(s, log, catalog).0.artist_ids == s.artist_ids && cache_ok(
                url_catalog(s, log, catalog).0,
            ),
{
    lemma_url_record_cache(s);
}

proof fn lemma_url_after_artist_cache(s: FindTrackUrlsView)
    requires
        keys_distinct(s.artist_ids),
    ensures
        forall|log: StrSeq, aid: Option<Seq<char>>|
            #[trigger] url_after_artist(s, log, aid).0.artist_ids == s.artist_ids && cache_ok(
                url_after_artist(s, log, aid).0,
            ),
{
    lemma_url_record_cache(s);
    lemma_url_catalog_cache(s);
}

proof fn lemma_url_via_artist_cache(s: FindTrackUrlsView)
    requires
        keys_distinct(s.artist_ids),
    ensures
        forall|log: StrSeq|
            #[trigger] url_via_artist(s, log).0.artist_ids == s.artist_ids && cache_ok(url_via_artist(s, log).0),
{
    lemma_url_record_cache(s);
    lemma_url_after_artist_cache(s);
}

/// The answer to the outstanding request keeps the artist cache sound, and
/// only ever adds to it: what was cached stays cached with the same id.
proof fn lemma_urls_on_response_cache(s: FindTrackUrlsView, r: Result<Json, Seq<char>>)
    requires
        cache_ok(s),
    ensures
        cache_ok(urls_on_response(s, r).0),
        forall|a: Seq<char>|
            #[trigger] lookup(s.artist_ids, a) is Some ==> lookup(urls_on_response(s, r).0.artist_ids, a) == lookup(
                s.artist_ids,
                a,
            ),
{
    lemma_url_record_cache(s);
    lemma_url_via_artist_cache(s);
    if s.started && s.results.len() < s.tracks.len() {
        if let Ok(response) = r {
            if s.phase is Artist {
                let artist = s.tracks[s.results.len() as int].1;
                let aid = found_id(response, "artists"@);
                let t = FindTrackUrlsView { artist_ids: s.artist_ids.push((artist, aid)), ..s };
                lemma_push_distinct(s.artist_ids, artist, aid);
                lemma_url_after_artist_cache(t);
                assert forall|a: Seq<char>| #[trigger] lookup(s.artist_ids, a) is Some implies lookup(
                    urls_on_response(s, r).0.artist_ids,
                    a,
                ) == lookup(s.artist_ids, a) by {
                    lemma_lookup_push(s.artist_ids, artist, aid, a);
                }
            } else if let UrlPhaseView::Catalog(a) = s.phase {
                let catalog = artist_catalog_of(response);
                lemma_url_catalog_cache(FindTrackUrlsView { artist_tracks: s.artist_tracks.push((a, catalog)), ..s });
            }
        }
    }
}

/// The token answer keeps the artist cache as it is.
proof fn lemma_urls_on_token_cache(s: FindTrackUrlsView, r: Result<Seq<char>, Seq<char>>)
    requires
        cache_ok(s),
    ensures
        cache_ok(urls_on_token(s, r).0),
        urls_on_token(s, r).0.artist_ids == s.artist_ids,
{
    if let Ok(t) = r {
        lemma_url_begin_cache(FindTrackUrlsView { token: t, started: true, ..s });
    }
}

/// The artist cache of a track address lookup. An artist already cached is
/// not searched for again: the lookup goes on with the cached id, and no
/// artist search is left outstanding (the phase is not `Artist`); an artist
/// not cached yet is searched for. An answered
/// artist search is cached under that artist's name. And an answer never
/// changes what was cached, so a repeated lookup of an artist gives the same
/// id. Each artist is cached at most once (`cache_ok`, kept by every step).
pub proof fn lemma_artist_cache(s: FindTrackUrlsView, log: StrSeq, r: Result<Json, Seq<char>>)
    requires
        cache_ok(s),
        s.results.len() < s.tracks.len(),
    ensures
        ({
            let artist = s.tracks[s.results.len() as int].1;
            trimmed(artist).len() > 0 && lookup(s.artist_ids, artist) is Some ==> url_via_artist(s, log)
                == url_after_artist(
                s,
                log.push("(cached artist id for "@ + quoted(artist) + ")"@),
                lookup(s.artist_ids, artist).unwrap(),
            )
        }),
        ({
            let artist = s.tracks[s.results.len() as int].1;
            trimmed(artist).len() > 0 && lookup(s.artist_ids, artist) is Some && !(s.phase is Artist) ==> !(url_via_artist(
                s,
                log,
            ).0.phase is Artist)
        }),
        ({
            let artist = s.tracks[s.results.len() as int].1;
            trimmed(artist).len() > 0 && lookup(s.artist_ids, artist) is None ==> url_via_artist(s, log).0.phase is Artist
                && url_via_artist(s, log).1.step == SearchStepView::Call(
                TidalCallView::Get { url: search_url(s.country_code, artist, "artists"@), token: s.token },
            )
        }),
        ({
            let artist = s.tracks[s.results.len() as int].1;
            s.started && s.phase is Artist && r is Ok ==> lookup(urls_on_response(s, r).0.artist_ids, artist) == Some(
                found_id(r->Ok_0, "artists"@),
            )
        }),
        forall|a: Seq<char>|
            #[trigger] lookup(s.artist_ids, a) is Some ==> lookup(urls_on_response(s, r).0.artist_ids, a) == lookup(
                s.artist_ids,
                a,
            ),
        cache_ok(urls_on_response(s, r).0),
{
    lemma_urls_on_response_cache(s, r);
    let artist = s.tracks[s.results.len() as int].1;
    if s.started && s.phase is Artist && r is Ok {
        let aid = found_id(r->Ok_0, "artists"@);
        let t = FindTrackUrlsView { artist_ids: s.artist_ids.push((artist, aid)), ..s };
        lemma_url_after_artist_cache(t);
        lemma_lookup_push(s.artist_ids, artist, aid, artist);
    }
}

fn lookup_id(v: &Vec<(String, Option<String>)>, key: &String) -> (r: Option<Option<String>>)
    ensures
        match r {
            Some(o) => lookup(ids_view(v@), key@) == Some(crate::tracks::opt_view(o)),
            None => lookup(ids_view(v@), key@) is None,
        },
{
    let ghost w = ids_view(v@);
    let mut i: usize = 0;
    assert(w.skip(0) =~= w);
    while i < v.len()
        invariant
            i <= v.len(),
            w == ids_view(v@),
            lookup(w, key@) == lookup(w.skip(i as int), key@),
        decreases v.len() - i,
    {
        assert(w.skip(i as int).drop_first() =~= w.skip(i + 1));
        assert(w.skip(i as int)[0] == w[i as int]);
        if v[i].0 == *key {
            return Some(crate::tracks::copy_opt(&v[i].1));
        }
        i = i + 1;
    }
    None
}

fn copy_pairs(v: &Vec<(String, String)>) -> (r: Vec<(String, String)>)
    ensures
        pair_views(r@) == pair_views(v@),
{
    let mut r: Vec<(String, String)> = Vec::new();
    assert(pair_views(r@) =~= pair_views(v@).take(0));
    for i in 0..v.len()
        invariant
            pair_views(r@) == pair_views(v@).take(i as int),
    {
        let ghost before = pair_views(r@);
        r.push((v[i].0.clone(), v[i].1.clone()));
        assert(pair_views(r@) =~= before.push(pair_views(v@)[i as int]));
        assert(pair_views(r@) =~= pair_views(v@).take(i + 1));
    }
    assert(pair_views(r@) =~= pair_views(v@).take(v.len() as int));
    assert(pair_views(v@).take(v.len() as int) =~= pair_views(v@));
    r
}

fn lookup_catalog(v: &Vec<(String, Vec<(String, String)>)>, key: &String) -> (r: Option<Vec<(String, String)>>)
    ensures
        match r {
            Some(c) => lookup(catalogs_view(v@), key@) == Some(pair_views(c@)),
            None => lookup(catalogs_view(v@), key@) is None,
        },
{
    let ghost w = catalogs_view(v@);
    let mut i: usize = 0;
    assert(w.skip(0) =~= w);
    while i < v.len()
        invariant
            i <= v.len(),
            w == catalogs_view(v@),
            lookup(w, key@) == lookup(w.skip(i as int), key@),
        decreases v.len() - i,
    {
        assert(w.skip(i as int).drop_first() =~= w.skip(i + 1));
        assert(w.skip(i as int)[0] == w[i as int]);
        if v[i].0 == *key {
            return Some(copy_pairs(&v[i].1));
        }
        i = i + 1;
    }
    None
}

fn quote(s: &str) -> (r: String)
    ensures
        r@ == quoted(s@),
{
    join3("\"", s, "\"")
}

impl FindTrackUrls {
    /// The invariant of a lookup: no more answers than tracks, and a sound
    /// artist cache.
    pub open spec fn wf(&self) -> bool {
        self.results.len() <= self.tracks.len() && cache_ok(self@)
    }

    fn direct_call(&self, i: usize) -> (c: TidalCall)
        requires
            i < self.tracks.len(),
        ensures
            c@ == (TidalCallView::Get {
                url: search_url(self@.country_code, track_query(self@.tracks[i as int].0, self@.tracks[i as int].1), "tracks"@),
                token: self@.token,
            }),
    {
        let (title, artist) = &self.tracks[i];
        assert(self@.tracks[i as int] == (title@, artist@));
        let query = join3(title.as_str(), " ", artist.as_str());
        proof {
            reveal_strlit(" ");
        }
        let url = make_search_url(self.country_code.as_str(), query.as_str(), "tracks");
        TidalCall::Get { url, token: self.token.clone() }
    }

    fn begin(&mut self, log: Vec<String>) -> (st: UrlStep)
        requires
            old(self).results.len() <= old(self).tracks.len(),
            keys_distinct(old(self)@.artist_ids),
        ensures
            (final(self)@, st@) == url_begin(old(self)@, seq_strings(log@)),
            final(self).wf(),
            st@.step == SearchStepView::Finished(Ok(())) ==> final(self).results.len() == final(self).tracks.len(),
    {
        proof {
            lemma_url_begin_cache(self@);
        }
        let i = self.results.len();
        if i >= self.tracks.len() {
            return UrlStep { log, progress: None, step: SearchStep::Finished(Ok(())) };
        }
        self.phase = UrlPhase::Direct;
        let call = self.direct_call(i);
        UrlStep { log, progress: Some(i + 1), step: SearchStep::Call(call) }
    }

    fn record(&mut self, log: Vec<String>, found: Option<String>) -> (st: UrlStep)
        requires
            keys_distinct(old(self)@.artist_ids),
            old(self).results.len() < old(self).tracks.len(),
        ensures
            (final(self)@, st@) == url_record(old(self)@, seq_strings(log@), crate::tracks::opt_view(found)),
            final(self).wf(),
            st@.step == SearchStepView::Finished(Ok(())) ==> final(self).results.len() == final(self).tracks.len(),
    {
        proof {
            lemma_url_record_cache(self@);
        }
        let ghost before = self.results@;
        self.results.push(found);
        assert(results_view(self.results@) =~= results_view(before).push(crate::tracks::opt_view(found)));
        self.retried = false;
        self.begin(log)
    }

    fn with_catalog(&mut self, log: Vec<String>, catalog: &Vec<(String, String)>) -> (st: UrlStep)
        requires
            keys_distinct(old(self)@.artist_ids),
            old(self).results.len() < old(self).tracks.len(),
        ensures
            (final(self)@, st@) == url_catalog(old(self)@, seq_strings(log@), pair_views(catalog@)),
            final(self).wf(),
            st@.step == SearchStepView::Finished(Ok(())) ==> final(self).results.len() == final(self).tracks.len(),
    {
        proof {
            lemma_url_catalog_cache(self@);
        }
        let i = self.results.len();
        let title = self.tracks[i].0.clone();
        assert(self@.tracks[i as int].0 == title@);
        let m = match_title(catalog, title.as_str());
        let n = decimal_string(catalog.len() as u64);
        let mut log = log;
        let ghost before = seq_strings(log@);
        let note = match &m {
            Some(id) => {
                let mut t = owned("matched track_id=");
                t.append(id.as_str());
                t.append(" for title=");
                t.append(quote(title.as_str()).as_str());
                t.append(" in artist's catalog (");
                t.append(n.as_str());
                t.append(" tracks)");
                t
            },
            None => {
                let mut t = owned("no title match for ");
                t.append(quote(title.as_str()).as_str());
                t.append(" among ");
                t.append(n.as_str());
                t.append(" tracks in artist's catalog");
                t
            },
        };
        log.push(note);
        assert(seq_strings(log@) =~= before.push(match_note(title@, crate::tracks::opt_view(m), catalog@.len())));
        let found = match m {
            Some(id) => Some(track_url(id.as_str())),
            None => None,
        };
        self.record(log, found)
    }

    fn after_artist(&mut self, log: Vec<String>, artist_id: Option<String>) -> (st: UrlStep)
        requires
            keys_distinct(old(self)@.artist_ids),
            old(self).results.len() < old(self).tracks.len(),
        ensures
            (final(self)@, st@) == url_after_artist(old(self)@, seq_strings(log@), crate::tracks::opt_view(artist_id)),
            final(self).wf(),
            st@.step == SearchStepView::Finished(Ok(())) ==> final(self).results.len() == final(self).tracks.len(),
    {
        proof {
            lemma_url_after_artist_cache(self@);
        }
        let i = self.results.len();
        let artist = self.tracks[i].1.clone();
        assert(self@.tracks[i as int].1 == artist@);
        let mut log = log;
        let ghost before = seq_strings(log@);
        match artist_id {
            None => {
                let mut t = owned("no artist id found for artist=");
                t.append(quote(artist.as_str()).as_str());
                log.push(t);
                assert(seq_strings(log@) =~= before.push("no artist id found for artist="@ + quoted(artist@)));
                self.record(log, None)
            },
            Some(a) => {
                let mut t = owned("resolved artist_id=");
                t.append(a.as_str());
                t.append(" for artist=");
                t.append(quote(artist.as_str()).as_str());
                log.push(t);
                let ghost log2 = seq_strings(log@);
                assert(log2 =~= before.push("resolved artist_id="@ + a@ + " for artist="@ + quoted(artist@)));
                match lookup_catalog(&self.artist_tracks, &a) {
                    Some(catalog) => {
                        let mut u = owned("(cached track list for artist ");
                        u.append(a.as_str());
                        u.append(")");
                        log.push(u);
                        assert(seq_strings(log@) =~= log2.push("(cached track list for artist "@ + a@ + ")"@));
                        self.with_catalog(log, &catalog)
                    },
                    None => {
                        let url = crate::text::join5(
                            "https://openapi.tidal.com/v2/artists/",
                            a.as_str(),
                            "?countryCode=",
                            self.country_code.as_str(),
                            "&include=tracks",
                        );
                        let token = self.token.clone();
                        self.phase = UrlPhase::Catalog(a);
                        UrlStep { log, progress: None, step: SearchStep::Call(TidalCall::Get { url, token }) }
                    },
                }
            },
        }
    }

    fn via_artist(&mut self, log: Vec<String>) -> (st: UrlStep)
        requires
            keys_distinct(old(self)@.artist_ids),
            old(self).results.len() < old(self).tracks.len(),
        ensures
            (final(self)@, st@) == url_via_artist(old(self)@, seq_strings(log@)),
            final(self).wf(),
            st@.step == SearchStepView::Finished(Ok(())) ==> final(self).results.len() == final(self).tracks.len(),
    {
        proof {
            lemma_url_via_artist_cache(self@);
        }
        let i = self.results.len();
        let artist = self.tracks[i].1.clone();
        assert(self@.tracks[i as int].1 == artist@);
        let t = trim(artist.as_str());
        if t.as_str().is_empty() {
            return self.record(log, None);
        }
        match lookup_id(&self.artist_ids, &artist) {
            Some(cached) => {
                let mut log = log;
                let ghost before = seq_strings(log@);
                let mut m = owned("(cached artist id for ");
                m.append(quote(artist.as_str()).as_str());
                m.append(")");
                log.push(m);
                assert(seq_strings(log@) =~= before.push("(cached artist id for "@ + quoted(artist@) + ")"@));
                self.after_artist(log, cached)
            },
            None => {
                proof {
                    reveal_strlit("artists");
                }
                let url = make_search_url(self.country_code.as_str(), artist.as_str(), "artists");
                let token = self.token.clone();
                self.phase = UrlPhase::Artist;
                UrlStep { log, progress: None, step: SearchStep::Call(TidalCall::Get { url, token }) }
            },
        }
    }

    /// Takes the answer to the token request.
    pub fn on_token(&mut self, r: Result<String, String>) -> (st: UrlStep)
        requires
            old(self).wf(),
        ensures
            (final(self)@, st@) == urls_on_token(
                old(self)@,
                match r {
                    Ok(t) => Ok(t@),
                    Err(e) => Err(e@),
                },
            ),
            final(self).wf(),
            st@.step == SearchStepView::Finished(Ok(())) ==> final(self).results.len() == final(self).tracks.len(),
    {
        proof {
            lemma_urls_on_token_cache(
                self@,
                match &r {
                    Ok(t) => Ok(t@),
                    Err(e) => Err(e@),
                },
            );
        }
        match r {
            Err(e) => {
                let st = UrlStep { log: Vec::new(), progress: None, step: SearchStep::Finished(Err(e)) };
                assert(st@.log =~= Seq::<Seq<char>>::empty());
                st
            },
            Ok(t) => {
                self.token = t;
                if !self.started {
                    self.started = true;
                    let empty: Vec<String> = Vec::new();
                    assert(seq_strings(empty@) =~= Seq::<Seq<char>>::empty());
                    self.begin(empty)
                } else if self.results.len() < self.tracks.len() {
                    self.phase = UrlPhase::Direct;
                    let call = self.direct_call(self.results.len());
                    let st = UrlStep { log: Vec::new(), progress: None, step: SearchStep::Call(call) };
                    assert(st@.log =~= Seq::<Seq<char>>::empty());
                    st
                } else {
                    let st = UrlStep { log: Vec::new(), progress: None, step: SearchStep::Finished(Ok(())) };
                    assert(st@.log =~= Seq::<Seq<char>>::empty());
                    st
                }
            },
        }
    }

    /// Takes the answer to the outstanding request.
    pub fn on_response(&mut self, r: Result<Json, String>) -> (st: UrlStep)
        requires
            old(self).wf(),
        ensures
            (final(self)@, st@) == urls_on_response(
                old(self)@,
                match r {
                    Ok(j) => Ok(j),
                    Err(e) => Err(e@),
                },
            ),
            final(self).wf(),
            old(self).started && st@.step == SearchStepView::Finished(Ok(())) ==> final(self).results.len()
                == final(self).tracks.len(),
    {
        proof {
            lemma_urls_on_response_cache(
                self@,
                match &r {
                    Ok(j) => Ok(*j),
                    Err(e) => Err(e@),
                },
            );
        }
        let empty: Vec<String> = Vec::new();
        assert(seq_strings(empty@) =~= Seq::<Seq<char>>::empty());
        if !self.started || self.results.len() >= self.tracks.len() {
            return UrlStep { log: empty, progress: None, step: SearchStep::Finished(Ok(())) };
        }
        match r {
            Err(e) => {
                if !self.retried && is_auth_error(e.as_str()) {
                    self.retried = true;
                    let mut log: Vec<String> = Vec::new();
                    log.push(join2("auth error, refreshing token: ", e.as_str()));
                    assert(seq_strings(log@) =~= seq!["auth error, refreshing token: "@ + e@]);
                    UrlStep {
                        log,
                        progress: None,
                        step: SearchStep::Call(
                            TidalCall::Token { client_id: self.client_id.clone(), client_secret: self.client_secret.clone() },
                        ),
                    }
                } else if self.retried {
                    self.record(empty, None)
                } else {
                    let mut log: Vec<String> = Vec::new();
                    log.push(join2("search error: ", e.as_str()));
                    assert(seq_strings(log@) =~= seq!["search error: "@ + e@]);
                    self.record(log, None)
                }
            },
            Ok(response) => {
                proof {
                    reveal_strlit("tracks");
                    reveal_strlit("artists");
                }
                match &self.phase {
                    UrlPhase::Direct => match first_id(&response, "tracks") {
                        Some(id) => {
                            let url = track_url(id.as_str());
                            self.record(empty, Some(url))
                        },
                        None => self.via_artist(empty),
                    },
                    UrlPhase::Artist => {
                        let i = self.results.len();
                        let artist = self.tracks[i].1.clone();
                        assert(self@.tracks[i as int].1 == artist@);
                        let aid = first_id(&response, "artists");
                        let ghost before = ids_view(self.artist_ids@);
                        proof {
                            lemma_push_distinct(before, artist@, crate::tracks::opt_view(aid));
                        }
                        self.artist_ids.push((artist, crate::tracks::copy_opt(&aid)));
                        assert(ids_view(self.artist_ids@) =~= before.push((artist@, crate::tracks::opt_view(aid))));
                        self.after_artist(empty, aid)
                    },
                    UrlPhase::Catalog(a) => {
                        let a = a.clone();
                        let catalog = artist_catalog(&response);
                        let ghost before = catalogs_view(self.artist_tracks@);
                        self.artist_tracks.push((a, copy_pairs(&catalog)));
                        assert(catalogs_view(self.artist_tracks@) =~= before.push((a@, pair_views(catalog@))));
                        self.with_catalog(empty, &catalog)
                    },
                }
            },
        }
    }
}

/// Starts looking up the Tidal address of each (title, artist) pair of
/// `tracks`: the first request is for a token. The addresses gather in
/// `results`, one per track (none where nothing matched).
pub fn find_track_urls(client_id: &str, client_secret: &str, country_code: &str, tracks: Vec<(String, String)>) -> (r: (
    FindTrackUrls,
    TidalCall,
))
    ensures
        r.0@ == (FindTrackUrlsView {
            client_id: client_id@,
            client_secret: client_secret@,
            country_code: country_code@,
            tracks: pair_views(tracks@),
            results: Seq::empty(),
            token: Seq::empty(),
            started: false,
            retried: false,
            phase: UrlPhaseView::Direct,
            artist_ids: Seq::empty(),
            artist_tracks: Seq::empty(),
        }),
        r.0.wf(),
        r.1@ == (TidalCallView::Token { client_id: client_id@, client_secret: client_secret@ }),
{
    let m = FindTrackUrls {
        client_id: owned(client_id),
        client_secret: owned(client_secret),
        country_code: owned(country_code),
        tracks,
        results: Vec::new(),
        token: String::new(),
        started: false,
        retried: false,
        phase: UrlPhase::Direct,
        artist_ids: Vec::new(),
        artist_tracks: Vec::new(),
    };
    assert(m@.results =~= Seq::<Option<Seq<char>>>::empty());
    assert(m@.artist_ids =~= Seq::<(Seq<char>, Option<Seq<char>>)>::empty());
    assert(m@.artist_tracks =~= Seq::<(Seq<char>, Seq<(Seq<char>, Seq<char>)>)>::empty());
    (m, TidalCall::Token { client_id: owned(client_id), client_secret: owned(client_secret) })
}

// ---------------------------------------------------------------------------
// A playlist's tracklist

/// One track as a Tidal playlist lists it.
#[derive(Debug, Clone)]
pub struct PlaylistTrack {
    pub id: String,
    pub title: String,
    pub artist: String,
}

pub struct PlaylistTrackView {
    pub id: Seq<char>,
    pub title: Seq<char>,
    pub artist: Seq<char>,
}

impl View for PlaylistTrack {
    type V = PlaylistTrackView;

    open spec fn view(&self) -> PlaylistTrackView {
        PlaylistTrackView { id: self.id@, title: self.title@, artist: self.artist@ }
    }
}

pub open spec fn playlist_tracks_view(v: Seq<PlaylistTrack>) -> Seq<PlaylistTrackView> {
    v.map_values(|t: PlaylistTrack| t@)
}

/// A Tidal playlist's name and tracklist.
#[derive(Debug)]
pub struct PlaylistInfo {
    pub name: String,
    pub tracks: Vec<PlaylistTrack>,
}

/// The name of an artist with id `id` among included resources: the last
/// artist entry with that id and a name.
pub open spec fn artist_name(list: Seq<Json>, id: Seq<char>) -> Option<Seq<char>>
    decreases list.len(),
{
    if list.len() == 0 {
        None
    } else {
        let it = list.last();
        let name = json_text(json_get(json_get(Some(it), "attributes"@), "name"@));
        if json_text(json_get(Some(it), "type"@)) == Some("artists"@) && json_text(json_get(Some(it), "id"@)) == Some(id)
            && name is Some {
            name
        } else {
            artist_name(list.drop_last(), id)
        }
    }
}

/// The tracks included in one page of a playlist, given the ids already seen:
/// each track with an id not seen before (the id is then seen) and a title,
/// with the name of its first artist (empty when unknown).
pub open spec fn page_tracks(list: Seq<Json>, all: Seq<Json>, seen: StrSeq) -> (Seq<PlaylistTrackView>, StrSeq)
    decreases list.len(),
{
    if list.len() == 0 {
        (Seq::empty(), seen)
    } else {
        let (ts, sn) = page_tracks(list.drop_last(), all, seen);
        let it = list.last();
        let id = json_text(json_get(Some(it), "id"@));
        if json_text(json_get(Some(it), "type"@)) != Some("tracks"@) || id is None || sn.contains(id.unwrap()) {
            (ts, sn)
        } else {
            let sn2 = sn.push(id.unwrap());
            match json_text(json_get(json_get(Some(it), "attributes"@), "title"@)) {
                None => (ts, sn2),
                Some(title) => {
                    let aid = json_text(
                        json_get(json_at(json_get(json_get(json_get(Some(it), "relationships"@), "artists"@), "data"@), 0), "id"@),
                    );
                    let artist = match aid {
                        Some(a) => match artist_name(all, a) {
                            Some(n) => n,
                            None => Seq::empty(),
                        },
                        None => Seq::empty(),
                    };
                    (ts.push(PlaylistTrackView { id: id.unwrap(), title: title, artist: artist }), sn2)
                },
            }
        }
    }
}

/// The included resources of an answer (none when it has no list).
pub open spec fn included(response: Json) -> Seq<Json> {
    match json_items(json_get(Some(response), "included"@)) {
        Some(list) => list,
        None => Seq::empty(),
    }
}

/// The playlist's name in a page, if it has one.
pub open spec fn page_name(response: Json) -> Option<Seq<char>> {
    json_text(json_get(json_get(json_get(Some(response), "data"@), "attributes"@), "name"@))
}

/// The address of the next page, if the page links one: absolute, and asking
/// for the tracks' artists unless it already says what to include.
pub open spec fn next_page(response: Json) -> Option<Seq<char>> {
    let a = json_text(
        json_get(json_get(json_get(json_get(json_get(Some(response), "data"@), "relationships"@), "items"@), "links"@), "next"@),
    );
    let b = json_text(json_get(json_get(Some(response), "links"@), "next"@));
    let next = match a {
        Some(x) => Some(x),
        None => b,
    };
    match next {
        Some(n) => {
            let r = resolved_url(n);
            if has_substring(r, "include="@) {
                Some(r)
            } else {
                Some(r + "&include=items.artists"@)
            }
        },
        None => None,
    }
}

/// How many pages are read at most.
pub const MAX_PAGES: usize = 200;

/// Reading a Tidal playlist's name and tracklist, page after page.
#[derive(Debug)]
pub struct PlaylistFetch {
    pub client_id: String,
    pub client_secret: String,
    pub first_url: String,
    pub token: String,
    /// The number of the page asked for (from 0).
    pub page: usize,
    pub name: Option<String>,
    pub tracks: Vec<PlaylistTrack>,
    pub seen_ids: Vec<String>,
}

pub struct PlaylistFetchView {
    pub client_id: Seq<char>,
    pub client_secret: Seq<char>,
    pub first_url: Seq<char>,
    pub token: Seq<char>,
    pub page: usize,
    pub name: Option<Seq<char>>,
    pub tracks: Seq<PlaylistTrackView>,
    pub seen_ids: StrSeq,
}

impl View for PlaylistFetch {
    type V = PlaylistFetchView;

    open spec fn view(&self) -> PlaylistFetchView {
        PlaylistFetchView {
            client_id: self.client_id@,
            client_secret: self.client_secret@,
            first_url: self.first_url@,
            token: self.token@,
            page: self.page,
            name: crate::tracks::opt_view(self.name),
            tracks: playlist_tracks_view(self.tracks@),
            seen_ids: seq_strings(self.seen_ids@),
        }
    }
}

/// What reading a playlist does next.
#[derive(Debug)]
pub enum PlaylistStep {
    Call(TidalCall),
    Done(Result<PlaylistInfo, String>),
}

/// The view of a step: the request, or the name and tracks read, or the error.
pub open spec fn playlist_step_view(st: PlaylistStep) -> Result<TidalCallView, Result<(Seq<char>, Seq<PlaylistTrackView>), Seq<char>>> {
    match st {
        PlaylistStep::Call(c) => Ok(c@),
        PlaylistStep::Done(Ok(info)) => Err(Ok((info.name@, playlist_tracks_view(info.tracks@)))),
        PlaylistStep::Done(Err(e)) => Err(Err(e@)),
    }
}

/// The address of a playlist's first page.
pub open spec fn first_page_url(country_code: Seq<char>, id: Seq<char>) -> Seq<char> {
    "https://openapi.tidal.com/v2/playlists/"@ + id + "?countryCode="@ + country_code + "&include=items.artists"@
}

/// The end of a reading: the name and tracks, or the error when no page named
/// the playlist.
pub open spec fn playlist_end(s: PlaylistFetchView) -> Result<(Seq<char>, Seq<PlaylistTrackView>), Seq<char>> {
    match s.name {
        Some(n) => Ok((n, s.tracks)),
        None => Err("Tidal's response had no playlist name"@),
    }
}

/// A reading after a page answered `r`.
pub open spec fn playlist_on_page(s: PlaylistFetchView, r: Result<Json, Seq<char>>) -> (
    PlaylistFetchView,
    Result<TidalCallView, Result<(Seq<char>, Seq<PlaylistTrackView>), Seq<char>>>,
) {
    match r {
        Err(e) => if s.page == 0 {
            (s, Err(Err(e)))
        } else {
            (s, Err(playlist_end(s)))
        },
        Ok(response) => {
            let name = match s.name {
                Some(n) => Some(n),
                None => page_name(response),
            };
            let (ts, sn) = page_tracks(included(response), included(response), s.seen_ids);
            let s2 = PlaylistFetchView { name: name, tracks: s.tracks + ts, seen_ids: sn, ..s };
            match next_page(response) {
                Some(url) => if s.page + 1 < MAX_PAGES {
                    (
                        PlaylistFetchView { page: (s.page + 1) as usize, ..s2 },
                        Ok(TidalCallView::Get { url: url, token: s.token }),
                    )
                } else {
                    (s2, Err(playlist_end(s2)))
                },
                None => (s2, Err(playlist_end(s2))),
            }
        },
    }
}

fn artist_name_in(list: &Vec<Json>, id: &String) -> (r: Option<String>)
    ensures
        match r {
            Some(n) => artist_name(list@, id@) == Some(n@),
            None => artist_name(list@, id@) is None,
        },
{
    let mut k = list.len();
    assert(list@.take(k as int) =~= list@);
    while k > 0
        invariant
            k <= list.len(),
            artist_name(list@, id@) == artist_name(list@.take(k as int), id@),
        decreases k,
    {
        assert(list@.take(k as int).drop_last() =~= list@.take(k - 1));
        assert(list@.take(k as int).last() == list@[k - 1]);
        let it = Some(&list[k - 1]);
        let is_artist = match text(get(it, "type")) {
            Some(t) => same_text(t.as_str(), "artists"),
            None => false,
        };
        let same_id = match text(get(it, "id")) {
            Some(t) => t == *id,
            None => false,
        };
        proof {
            reveal_strlit("artists");
        }
        if is_artist && same_id {
            if let Some(n) = text(get(get(it, "attributes"), "name")) {
                return Some(n);
            }
        }
        k = k - 1;
    }
    assert(list@.take(0) =~= Seq::<Json>::empty());
    None
}

/// Reading a page never lists a track twice: the ids seen stay free of
/// repeats, and the tracks taken from the page have distinct ids, none of
/// them seen before the page and all of them seen after it.
pub proof fn lemma_page_tracks_distinct(list: Seq<Json>, all: Seq<Json>, seen: StrSeq)
    requires
        seen.no_duplicates(),
    ensures
        ({
            let (ts, sn) = page_tracks(list, all, seen);
            &&& sn.no_duplicates()
            &&& forall|x: Seq<char>| seen.contains(x) ==> sn.contains(x)
            &&& forall|i: int| 0 <= i < ts.len() ==> sn.contains(#[trigger] ts[i].id) && !seen.contains(ts[i].id)
            &&& forall|i: int, j: int| 0 <= i < j < ts.len() ==> #[trigger] ts[i].id != #[trigger] ts[j].id
        }),
    decreases list.len(),
{
    if list.len() > 0 {
        lemma_page_tracks_distinct(list.drop_last(), all, seen);
        let (ts, sn) = page_tracks(list.drop_last(), all, seen);
        let it = list.last();
        let id = json_text(json_get(Some(it), "id"@));
        if !(json_text(json_get(Some(it), "type"@)) != Some("tracks"@) || id is None || sn.contains(id.unwrap())) {
            let sn2 = sn.push(id.unwrap());
            assert(sn2.no_duplicates()) by {
                assert forall|i: int, j: int| 0 <= i < sn2.len() && 0 <= j < sn2.len() && i != j implies sn2[i]
                    != sn2[j] by {
                    if i == sn.len() {
                        assert(sn.contains(sn2[j]));
                    } else if j == sn.len() {
                        assert(sn.contains(sn2[i]));
                    }
                }
            }
            assert forall|x: Seq<char>| sn.contains(x) implies sn2.contains(x) by {
                let k = choose|k: int| 0 <= k < sn.len() && sn[k] == x;
                assert(sn2[k] == x);
            }
            assert(sn2.contains(id.unwrap())) by {
                assert(sn2[sn.len() as int] == id.unwrap());
            }
        }
    }
}

impl PlaylistFetch {
    fn add_page_tracks(&mut self, list: &Vec<Json>)
        ensures
            ({
                let (ts, sn) = page_tracks(list@, list@, old(self)@.seen_ids);
                &&& final(self)@ == PlaylistFetchView { tracks: old(self)@.tracks + ts, seen_ids: sn, ..old(self)@ }
            }),
    {
        let ghost start = self@;
        assert(list@.take(0) =~= Seq::<Json>::empty());
        assert(self@.tracks =~= start.tracks + Seq::<PlaylistTrackView>::empty());
        for i in 0..list.len()
            invariant
                ({
                    let (ts, sn) = page_tracks(list@.take(i as int), list@, start.seen_ids);
                    &&& self@ == PlaylistFetchView { tracks: start.tracks + ts, seen_ids: sn, ..start }
                }),
        {
            assert(list@.take(i + 1).drop_last() =~= list@.take(i as int));
            assert(list@.take(i + 1).last() == list@[i as int]);
            let it = Some(&list[i]);
            proof {
                reveal_strlit("tracks");
            }
            let is_track = match text(get(it, "type")) {
                Some(t) => same_text(t.as_str(), "tracks"),
                None => false,
            };
            if is_track {
                if let Some(id) = text(get(it, "id")) {
                    let seen = crate::sync::contains_string(&self.seen_ids, &id);
                    if !seen {
                        let ghost before_seen = seq_strings(self.seen_ids@);
                        self.seen_ids.push(id.clone());
                        assert(seq_strings(self.seen_ids@) =~= before_seen.push(id@));
                        if let Some(title) = text(get(get(it, "attributes"), "title")) {
                            let aid = text(get(at(get(get(get(it, "relationships"), "artists"), "data"), 0), "id"));
                            let artist = match aid {
                                Some(a) => match artist_name_in(list, &a) {
                                    Some(n) => n,
                                    None => String::new(),
                                },
                                None => String::new(),
                            };
                            let ghost before = playlist_tracks_view(self.tracks@);
                            let t = PlaylistTrack { id, title, artist };
                            let ghost tv = t@;
                            self.tracks.push(t);
                            assert(playlist_tracks_view(self.tracks@) =~= before.push(tv));
                            assert(start.tracks + page_tracks(list@.take(i + 1), list@, start.seen_ids).0 =~= playlist_tracks_view(self.tracks@));
                        }
                    }
                }
            }
        }
        assert(list@.take(list.len() as int) =~= list@);
    }

    fn end(&mut self) -> (r: Result<PlaylistInfo, String>)
        ensures
            final(self)@.name == old(self)@.name,
            match (r, playlist_end(old(self)@)) {
                (Ok(info), Ok((n, ts))) => info.name@ == n && playlist_tracks_view(info.tracks@) == ts,
                (Err(e), Err(f)) => e@ == f,
                _ => false,
            },
    {
        match &self.name {
            Some(n) => {
                let name = n.clone();
                let mut tracks: Vec<PlaylistTrack> = Vec::new();
                std::mem::swap(&mut tracks, &mut self.tracks);
                Ok(PlaylistInfo { name, tracks })
            },
            None => Err(owned("Tidal's response had no playlist name")),
        }
    }

    /// Takes the answer to the token request: on success the first page is asked for.
    pub fn on_token(&mut self, r: Result<String, String>) -> (st: PlaylistStep)
        ensures
            match r {
                Ok(t) => final(self)@ == (PlaylistFetchView { token: t@, ..old(self)@ }) && playlist_step_view(st) == Ok::<
                    TidalCallView,
                    Result<(Seq<char>, Seq<PlaylistTrackView>), Seq<char>>,
                >(TidalCallView::Get { url: old(self)@.first_url, token: t@ }),
                Err(e) => playlist_step_view(st) == Err::<TidalCallView, Result<(Seq<char>, Seq<PlaylistTrackView>), Seq<char>>>(
                    Err(e@),
                ),
            },
    {
        match r {
            Ok(t) => {
                self.token = t;
                PlaylistStep::Call(TidalCall::Get { url: self.first_url.clone(), token: self.token.clone() })
            },
            Err(e) => PlaylistStep::Done(Err(e)),
        }
    }

    /// Takes the answer to the page asked for: the next page is asked for while
    /// the page links one (up to `MAX_PAGES` pages); a failing first page is an
    /// error, a failing later page ends the reading with what was read.
    pub fn on_page(&mut self, r: Result<Json, String>) -> (st: PlaylistStep)
        ensures
            ({
                let (s2, v) = playlist_on_page(
                    old(self)@,
                    match r {
                        Ok(j) => Ok(j),
                        Err(e) => Err(e@),
                    },
                );
                &&& playlist_step_view(st) == v
                &&& v is Ok ==> final(self)@ == s2
            }),
    {
        match r {
            Err(e) => {
                if self.page == 0 {
                    PlaylistStep::Done(Err(e))
                } else {
                    PlaylistStep::Done(self.end())
                }
            },
            Ok(response) => {
                if self.name.is_none() {
                    self.name = text(get(get(get(Some(&response), "data"), "attributes"), "name"));
                }
                let empty: Vec<Json> = Vec::new();
                let list = match items(get(Some(&response), "included")) {
                    Some(list) => list,
                    None => &empty,
                };
                assert(list@ == included(response));
                self.add_page_tracks(list);
                let a = text(get(get(get(get(get(Some(&response), "data"), "relationships"), "items"), "links"), "next"));
                let next = match a {
                    Some(x) => Some(x),
                    None => text(get(get(Some(&response), "links"), "next")),
                };
                match next {
                    Some(n) => {
                        let resolved = resolve_tidal_url(n.as_str());
                        let url = if contains_str(resolved.as_str(), "include=") {
                            resolved
                        } else {
                            join2(resolved.as_str(), "&include=items.artists")
                        };
                        if self.page < MAX_PAGES - 1 {
                            self.page = self.page + 1;
                            PlaylistStep::Call(TidalCall::Get { url, token: self.token.clone() })
                        } else {
                            PlaylistStep::Done(self.end())
                        }
                    },
                    None => PlaylistStep::Done(self.end()),
                }
            },
        }
    }
}

/// The error when a link holds no playlist id.
pub open spec fn no_id_error(url: Seq<char>) -> Seq<char> {
    "could not find a playlist id in "@ + quoted(url)
}

/// Starts reading the Tidal playlist at `playlist_url`: an error when the link
/// holds no playlist id, else a reading whose first request is for a token.
pub fn fetch_playlist(client_id: &str, client_secret: &str, country_code: &str, playlist_url: &str) -> (r: Result<
    (PlaylistFetch, TidalCall),
    String,
>)
    ensures
        match (r, tidal_playlist_id(playlist_url@)) {
            (Ok((f, c)), Some(id)) => f@ == (PlaylistFetchView {
                client_id: client_id@,
                client_secret: client_secret@,
                first_url: first_page_url(country_code@, id),
                token: Seq::empty(),
                page: 0,
                name: None,
                tracks: Seq::empty(),
                seen_ids: Seq::empty(),
            }) && c@ == (TidalCallView::Token { client_id: client_id@, client_secret: client_secret@ }),
            (Err(e), None) => e@ == no_id_error(playlist_url@),
            _ => false,
        },
{
    let id = match extract_playlist_id(playlist_url) {
        Some(id) => id,
        None => return Err(join2("could not find a playlist id in ", quote(playlist_url).as_str())),
    };
    let first_url = crate::text::join5(
        "https://openapi.tidal.com/v2/playlists/",
        id.as_str(),
        "?countryCode=",
        country_code,
        "&include=items.artists",
    );
    let f = PlaylistFetch {
        client_id: owned(client_id),
        client_secret: owned(client_secret),
        first_url,
        token: String::new(),
        page: 0,
        name: None,
        tracks: Vec::new(),
        seen_ids: Vec::new(),
    };
    assert(f@.tracks =~= Seq::<PlaylistTrackView>::empty());
    assert(f@.seen_ids =~= Seq::<Seq<char>>::empty());
    Ok((f, TidalCall::Token { client_id: owned(client_id), client_secret: owned(client_secret) }))
}

// ---------------------------------------------------------------------------
// The app token

/// The log lines written for the reply to a token request, and what follows:
/// the body when one came in (the token itself is never logged), an error
/// naming the failure otherwise.
pub open spec fn token_outcome(reply: crate::http::GetReplyView) -> (StrSeq, crate::http::GetStepView) {
    match reply {
        crate::http::GetReplyView::Body { status, body } => (
            seq!["  <- "@ + decimal(status as nat), "     (token granted)"@],
            crate::http::GetStepView::Done { status, body },
        ),
        crate::http::GetReplyView::Unreadable { status, error } => (
            seq!["  <- "@ + decimal(status as nat)],
            crate::http::GetStepView::Fail { error: "HTTP "@ + decimal(status as nat) + ": bad response body: "@ + error },
        ),
        crate::http::GetReplyView::Refused { code, retry_after, body } => (
            seq!["  <- "@ + decimal(code as nat) + " "@ + body],
            crate::http::GetStepView::Fail {
                error: "could not authenticate with Tidal: "@ + crate::http::status_error_text(code, body),
            },
        ),
        crate::http::GetReplyView::Failed { error } => (
            seq!["  <- error: "@ + error],
            crate::http::GetStepView::Fail { error: "could not authenticate with Tidal: "@ + error },
        ),
    }
}

/// The log line written before a token request.
pub fn token_request_line() -> (r: String)
    ensures
        r@ == "POST https://auth.tidal.com/v1/oauth2/token (grant_type=client_credentials)"@,
{
    owned("POST https://auth.tidal.com/v1/oauth2/token (grant_type=client_credentials)")
}

/// Decides what follows the reply to a token request (see `token_outcome`);
/// it never asks for another try.
pub fn on_token_reply(reply: crate::http::GetReply) -> (r: crate::http::GetOutcome)
    ensures
        (seq_strings(r.log@), r.step@) == token_outcome(reply@),
        !(r.step is Wait),
{
    let ghost rv = reply@;
    let mut log: Vec<String> = Vec::new();
    let step = match reply {
        crate::http::GetReply::Body { status, body } => {
            log.push(join2("  <- ", decimal_string(status as u64).as_str()));
            log.push(owned("     (token granted)"));
            crate::http::GetStep::Done { status, body }
        },
        crate::http::GetReply::Unreadable { status, error } => {
            let code = decimal_string(status as u64);
            log.push(join2("  <- ", code.as_str()));
            let mut e = join3("HTTP ", code.as_str(), ": bad response body: ");
            e.append(error.as_str());
            crate::http::GetStep::Fail { error: e }
        },
        crate::http::GetReply::Refused { code, retry_after, body } => {
            let mut line = join2("  <- ", decimal_string(code as u64).as_str());
            line.append(" ");
            line.append(body.as_str());
            log.push(line);
            let e = join2("could not authenticate with Tidal: ", crate::http::status_error(code, body.as_str()).as_str());
            crate::http::GetStep::Fail { error: e }
        },
        crate::http::GetReply::Failed { error } => {
            log.push(join2("  <- error: ", error.as_str()));
            crate::http::GetStep::Fail { error: join2("could not authenticate with Tidal: ", error.as_str()) }
        },
    };
    assert(seq_strings(log@) =~= token_outcome(rv).0);
    crate::http::GetOutcome { log, step }
}

/// The message for a token reply that is not JSON.
pub fn bad_token_response(status: u16, error: &str) -> (r: String)
    ensures
        r@ == "HTTP "@ + decimal(status as nat) + ": bad token response: "@ + error@,
{
    join3("HTTP ", decimal_string(status as u64).as_str(), join2(": bad token response: ", error).as_str())
}

/// The access token in a token reply: its `access_token` text, or an error
/// when there is none.
pub fn access_token_of(doc: &Json) -> (r: Result<String, String>)
    ensures
        match json_text(json_get(Some(*doc), "access_token"@)) {
            Some(t) => r matches Ok(k) && k@ == t,
            None => r matches Err(e) && e@ == "no access_token in Tidal's response"@,
        },
{
    match text(get(Some(doc), "access_token")) {
        Some(t) => Ok(t),
        None => Err(owned("no access_token in Tidal's response")),
    }
}

} // verus!
