//! Tag editing, the tag browser, crate deletion and the track list page.

use vstd::prelude::*;

use crate::commands::{Command, CommandView, SaveNote, SaveNoteView};
use crate::dashboard::{next_index, prev_index, step_forward};
use crate::keys::{edit_line, is_edit_key, line_edit, line_key_ok, Key};
use crate::model::{crates_view, playlists_view, CrateLocation, CrateView, PlaylistView};
use crate::session::{pairs_view, App, AppView, NamePair, TagBrowserView, TrackPageView};
use crate::text::{join2, join3, owned, seq_strings, split_char, split_on, string_from, trim, trimmed, StrSeq};
use crate::tracks::{metadata_from_remote, metadata_view, remote_details, tracks_view, TrackMetadata, TrackMetadataView};

verus! {

// ---------------------------------------------------------------------------
// Tag editing

/// The strings of `s` that are not empty, in order.
pub open spec fn non_empty_only(s: StrSeq) -> StrSeq
    decreases s.len(),
{
    if s.len() == 0 {
        Seq::empty()
    } else if s.last().len() == 0 {
        non_empty_only(s.drop_last())
    } else {
        non_empty_only(s.drop_last()).push(s.last())
    }
}

/// The tags typed as comma separated text: each piece trimmed, empty ones dropped.
pub open spec fn tags_from_text(t: Seq<char>) -> StrSeq {
    non_empty_only(split_on(t, ',').map_values(|p: Seq<char>| trimmed(p)))
}

/// The tags typed as comma separated text: each piece trimmed, empty ones dropped.
pub fn parse_tags(text: &str) -> (tags: Vec<String>)
    ensures
        seq_strings(tags@) == tags_from_text(text@),
{
    let pieces = split_char(text, ',');
    let ghost all = split_on(text@, ',').map_values(|p: Seq<char>| trimmed(p));
    let mut tags: Vec<String> = Vec::new();
    assert(all.take(0) =~= Seq::<Seq<char>>::empty());
    for i in 0..pieces.len()
        invariant
            all == split_on(text@, ',').map_values(|p: Seq<char>| trimmed(p)),
            pieces@.map_values(|p: Vec<char>| p@) == split_on(text@, ','),
            seq_strings(tags@) == non_empty_only(all.take(i as int)),
    {
        let piece = string_from(&pieces[i]);
        assert(piece@ == split_on(text@, ',')[i as int]);
        let tag = trim(piece.as_str());
        assert(all[i as int] == tag@);
        assert(all.take(i + 1).drop_last() =~= all.take(i as int));
        if !tag.as_str().is_empty() {
            tags.push(tag);
            assert(seq_strings(tags@) =~= non_empty_only(all.take(i + 1)));
        }
    }
    assert(all.take(pieces.len() as int) =~= all);
    tags
}

/// The tag editor after `key`.
pub open spec fn tag_edit_step(s: AppView, key: Key) -> (AppView, CommandView) {
    match key {
        Key::Esc => (
            AppView {
                editing_tags: false,
                tag_buffer: Seq::empty(),
                tag_cursor: 0,
                message: "Tag edit cancelled."@,
                ..s
            },
            CommandView::Nothing,
        ),
        Key::Enter => if s.selected_crate >= s.crates.len() {
            (AppView { editing_tags: false, ..s }, CommandView::Nothing)
        } else {
            let c = s.crates[s.selected_crate as int];
            let crates = if s.selected_playlist < c.playlists.len() {
                s.crates.update(
                    s.selected_crate as int,
                    CrateView {
                        playlists: c.playlists.update(
                            s.selected_playlist as int,
                            PlaylistView { tags: tags_from_text(s.tag_buffer), ..c.playlists[s.selected_playlist as int] },
                        ),
                        ..c
                    },
                )
            } else {
                s.crates
            };
            (
                AppView { crates: crates, editing_tags: false, tag_buffer: Seq::empty(), tag_cursor: 0, ..s },
                CommandView::Save(SaveNoteView::TagsSaved),
            )
        },
        _ => if is_edit_key(key) {
            let (b, c) = line_edit(s.tag_buffer, s.tag_cursor, key);
            (AppView { tag_buffer: b, tag_cursor: c, ..s }, CommandView::Nothing)
        } else {
            (s, CommandView::Nothing)
        },
    }
}

// ---------------------------------------------------------------------------
// Crate deletion

/// The confirmation of deleting crate `index` after `key`.
pub open spec fn confirm_delete_step(s: AppView, index: usize, key: Key) -> (AppView, CommandView) {
    match key {
        Key::Char('y') | Key::Char('Y') | Key::Enter => if index < s.crates.len() {
            let crates = s.crates.remove(index as int);
            let n = crates.len() as int;
            (
                AppView {
                    crates: crates,
                    selected_crate: if n == 0 { 0 } else if s.selected_crate <= n - 1 { s.selected_crate } else { (n - 1) as usize },
                    config_field: 0,
                    message: "Removed crate "@ + s.crates[index as int].name + "."@,
                    pending_delete: None,
                    ..s
                },
                CommandView::Save(SaveNoteView::RemovedCrate { name: s.crates[index as int].name }),
            )
        } else {
            (AppView { pending_delete: None, ..s }, CommandView::Nothing)
        },
        Key::Char('n') | Key::Char('N') | Key::Esc => (
            AppView { message: "Crate deletion cancelled."@, pending_delete: None, ..s },
            CommandView::Nothing,
        ),
        _ => (s, CommandView::Nothing),
    }
}

// ---------------------------------------------------------------------------
// Tag browser

/// The (crate, playlist) names of the playlists of one crate tagged `tag`.
pub open spec fn playlist_matches(crate_name: Seq<char>, ps: Seq<PlaylistView>, tag: Seq<char>) -> Seq<NamePair>
    decreases ps.len(),
{
    if ps.len() == 0 {
        Seq::empty()
    } else if ps.last().tags.contains(tag) {
        playlist_matches(crate_name, ps.drop_last(), tag).push((crate_name, ps.last().name))
    } else {
        playlist_matches(crate_name, ps.drop_last(), tag)
    }
}

/// The (crate, playlist) names of every playlist tagged `tag`, in order.
pub open spec fn tag_matches(cs: Seq<CrateView>, tag: Seq<char>) -> Seq<NamePair>
    decreases cs.len(),
{
    if cs.len() == 0 {
        Seq::empty()
    } else {
        tag_matches(cs.drop_last(), tag) + playlist_matches(cs.last().name, cs.last().playlists, tag)
    }
}

/// The playlists of a crate that a tag finds are exactly those carrying the
/// tag, every one of them, in order: one (crate, playlist) pair per tagged
/// playlist.
pub proof fn lemma_playlist_matches_tagged(crate_name: Seq<char>, ps: Seq<PlaylistView>, tag: Seq<char>)
    ensures
        playlist_matches(crate_name, ps, tag) == ps.filter(|p: PlaylistView| p.tags.contains(tag)).map_values(
            |p: PlaylistView| (crate_name, p.name),
        ),
    decreases ps.len(),
{
    reveal(Seq::filter);
    if ps.len() > 0 {
        lemma_playlist_matches_tagged(crate_name, ps.drop_last(), tag);
        let f = ps.drop_last().filter(|p: PlaylistView| p.tags.contains(tag));
        assert(ps.filter(|p: PlaylistView| p.tags.contains(tag)) == if ps.last().tags.contains(tag) {
            f.push(ps.last())
        } else {
            f
        });
        if ps.last().tags.contains(tag) {
            assert(f.push(ps.last()).map_values(|p: PlaylistView| (crate_name, p.name)) =~= f.map_values(
                |p: PlaylistView| (crate_name, p.name),
            ).push((crate_name, ps.last().name)));
        }
    }
}

/// A (crate, playlist) pair is among the matches of a tag exactly when that
/// crate has a playlist of that name carrying the tag.
pub proof fn lemma_tag_matches_exact(cs: Seq<CrateView>, tag: Seq<char>, pair: NamePair)
    ensures
        tag_matches(cs, tag).contains(pair) <==> exists|i: int, j: int|
            0 <= i < cs.len() && 0 <= j < cs[i].playlists.len() && #[trigger] cs[i].playlists[j].tags.contains(tag)
                && cs[i].name == pair.0 && cs[i].playlists[j].name == pair.1,
    decreases cs.len(),
{
    broadcast use vstd::seq_lib::group_seq_properties;
    broadcast use vstd::seq_lib::group_filter_ensures;
    if cs.len() > 0 {
        let prev = cs.drop_last();
        let c = cs.last();
        lemma_tag_matches_exact(prev, tag, pair);
        lemma_playlist_matches_tagged(c.name, c.playlists, tag);
        let pred = |p: PlaylistView| p.tags.contains(tag);
        let f = c.playlists.filter(pred);
        let pm = playlist_matches(c.name, c.playlists, tag);
        let tm = tag_matches(cs, tag);
        assert(tm == tag_matches(prev, tag) + pm);
        if tm.contains(pair) {
            let m = choose|m: int| 0 <= m < tm.len() && tm[m] == pair;
            if m < tag_matches(prev, tag).len() {
                assert(tag_matches(prev, tag).contains(pair));
                let (i, j) = choose|i: int, j: int|
                    0 <= i < prev.len() && 0 <= j < prev[i].playlists.len() && #[trigger] prev[i].playlists[j].tags.contains(
                        tag,
                    ) && prev[i].name == pair.0 && prev[i].playlists[j].name == pair.1;
                assert(cs[i] == prev[i]);
            } else {
                let q = m - tag_matches(prev, tag).len();
                assert(pm[q] == pair);
                assert(pm[q] == (c.name, f[q].name));
                c.playlists.lemma_filter_contains_rev(pred, f[q]);
                c.playlists.lemma_filter_pred(pred, q);
                let j = choose|j: int| 0 <= j < c.playlists.len() && c.playlists[j] == f[q];
                assert(cs[cs.len() - 1] == c);
                assert(cs[cs.len() - 1].playlists[j].tags.contains(tag));
            }
        }
        if exists|i: int, j: int|
            0 <= i < cs.len() && 0 <= j < cs[i].playlists.len() && #[trigger] cs[i].playlists[j].tags.contains(tag)
                && cs[i].name == pair.0 && cs[i].playlists[j].name == pair.1 {
            let (i, j) = choose|i: int, j: int|
                0 <= i < cs.len() && 0 <= j < cs[i].playlists.len() && #[trigger] cs[i].playlists[j].tags.contains(tag)
                    && cs[i].name == pair.0 && cs[i].playlists[j].name == pair.1;
            if i < prev.len() {
                assert(prev[i] == cs[i]);
                assert(prev[i].playlists[j].tags.contains(tag));
                assert(tag_matches(prev, tag).contains(pair));
                let m = choose|m: int| 0 <= m < tag_matches(prev, tag).len() && tag_matches(prev, tag)[m] == pair;
                assert(tm[m] == pair);
            } else {
                assert(cs[i] == c);
                c.playlists.lemma_filter_contains(pred, j);
                let q = choose|q: int| 0 <= q < f.len() && f[q] == c.playlists[j];
                assert(pm[q] == pair);
                assert(tm[tag_matches(prev, tag).len() + q] == pair);
            }
        }
    }
}

/// The first position of `s` whose element satisfies `p`.
pub open spec fn first_where<A>(s: Seq<A>, p: spec_fn(A) -> bool) -> Option<int>
    decreases s.len(),
{
    if s.len() == 0 {
        None
    } else if p(s[0]) {
        Some(0)
    } else {
        match first_where(s.drop_first(), p) {
            Some(k) => Some(k + 1),
            None => None,
        }
    }
}

/// `first_where` is the first position at which `p` holds.
pub proof fn lemma_first_where<A>(s: Seq<A>, p: spec_fn(A) -> bool, k: int)
    requires
        0 <= k <= s.len(),
        forall|j: int| 0 <= j < k ==> !p(#[trigger] s[j]),
        k < s.len() ==> p(s[k]),
    ensures
        first_where(s, p) == (if k < s.len() { Some(k) } else { None::<int> }),
    decreases k,
{
    if k > 0 {
        let t = s.drop_first();
        assert forall|j: int| 0 <= j < k - 1 implies !p(#[trigger] t[j]) by {
            assert(t[j] == s[j + 1]);
        }
        lemma_first_where(t, p, k - 1);
    }
}

/// Opening the selected match of the tag browser.
pub open spec fn open_match_step(s: AppView, b: TagBrowserView) -> (AppView, CommandView) {
    if b.match_selected >= b.matches.len() {
        (s, CommandView::Nothing)
    } else {
        let (cn, pn) = b.matches[b.match_selected as int];
        match first_where(s.crates, |c: CrateView| c.name == cn) {
            None => (s, CommandView::Nothing),
            Some(ci) => match first_where(s.crates[ci].playlists, |p: PlaylistView| p.name == pn) {
                None => (s, CommandView::Nothing),
                Some(pi) => (
                    s,
                    CommandView::ListTracks { crate_index: ci as usize, playlist_index: pi as usize, from_browser: true },
                ),
            },
        }
    }
}

/// The tag browser after `key`.
pub open spec fn tag_browser_step(s: AppView, b: TagBrowserView, key: Key) -> (AppView, CommandView) {
    if b.filter is Some {
        match key {
            Key::Esc | Key::Char('t') => (
                AppView { tag_browser: Some(TagBrowserView { filter: None, ..b }), ..s },
                CommandView::Nothing,
            ),
            Key::Char('q') => (AppView { should_quit: true, ..s }, CommandView::Nothing),
            Key::Down | Key::Char('j') => if b.matches.len() > 0 {
                (
                    AppView {
                        tag_browser: Some(
                            TagBrowserView { match_selected: next_index(b.match_selected, b.matches.len() as int), ..b },
                        ),
                        ..s
                    },
                    CommandView::Nothing,
                )
            } else {
                (s, CommandView::Nothing)
            },
            Key::Up | Key::Char('k') => if b.matches.len() > 0 {
                (
                    AppView {
                        tag_browser: Some(
                            TagBrowserView { match_selected: prev_index(b.match_selected, b.matches.len() as int), ..b },
                        ),
                        ..s
                    },
                    CommandView::Nothing,
                )
            } else {
                (s, CommandView::Nothing)
            },
            Key::Enter => open_match_step(s, b),
            _ => (s, CommandView::Nothing),
        }
    } else {
        match key {
            Key::Esc => (AppView { tag_browser: None, ..s }, CommandView::Nothing),
            Key::Char('q') => (AppView { should_quit: true, ..s }, CommandView::Nothing),
            Key::Down | Key::Char('j') => (
                AppView {
                    tag_browser: Some(TagBrowserView { selected: next_index(b.selected, b.tags.len() as int), ..b }),
                    ..s
                },
                CommandView::Nothing,
            ),
            Key::Up | Key::Char('k') => (
                AppView {
                    tag_browser: Some(TagBrowserView { selected: prev_index(b.selected, b.tags.len() as int), ..b }),
                    ..s
                },
                CommandView::Nothing,
            ),
            Key::Enter => if b.selected < b.tags.len() {
                let tag = b.tags[b.selected as int];
                (
                    AppView {
                        tag_browser: Some(
                            TagBrowserView {
                                filter: Some(tag),
                                matches: tag_matches(s.crates, tag),
                                match_selected: 0,
                                ..b
                            },
                        ),
                        ..s
                    },
                    CommandView::Nothing,
                )
            } else {
                (s, CommandView::Nothing)
            },
            _ => (s, CommandView::Nothing),
        }
    }
}

// ---------------------------------------------------------------------------
// Track list page

/// What playing the selected track comes to.
#[derive(Debug)]
pub enum PlayOutcome {
    Started,
    NoOutput(String),
    OpenFailed(String),
    DecodeFailed(String),
    SinkFailed(String),
}

pub enum PlayOutcomeView {
    Started,
    NoOutput(Seq<char>),
    OpenFailed(Seq<char>),
    DecodeFailed(Seq<char>),
    SinkFailed(Seq<char>),
}

impl View for PlayOutcome {
    type V = PlayOutcomeView;

    open spec fn view(&self) -> PlayOutcomeView {
        match self {
            PlayOutcome::Started => PlayOutcomeView::Started,
            PlayOutcome::NoOutput(e) => PlayOutcomeView::NoOutput(e@),
            PlayOutcome::OpenFailed(e) => PlayOutcomeView::OpenFailed(e@),
            PlayOutcome::DecodeFailed(e) => PlayOutcomeView::DecodeFailed(e@),
            PlayOutcome::SinkFailed(e) => PlayOutcomeView::SinkFailed(e@),
        }
    }
}

/// Pausing or resuming what plays.
pub open spec fn toggle_pause_step(s: AppView) -> (AppView, CommandView) {
    if s.now_playing is None {
        (s, CommandView::Nothing)
    } else if s.audio_paused {
        (AppView { message: "\u{25b6} playing"@, audio_paused: false, ..s }, CommandView::Resume)
    } else {
        (AppView { message: "\u{23f8} paused"@, audio_paused: true, ..s }, CommandView::Pause)
    }
}

/// The track list page after `key`.
pub open spec fn tracks_step(s: AppView, v: TrackPageView, key: Key) -> (AppView, CommandView) {
    let n = v.tracks.len() as int;
    match key {
        Key::Esc => (
            AppView { now_playing: None, audio_paused: false, tracks: None, ..s },
            CommandView::StopPlayback,
        ),
        Key::Char('q') => (AppView { should_quit: true, ..s }, CommandView::Nothing),
        Key::Down | Key::Char('j') => if n > 0 {
            (
                AppView { tracks: Some(TrackPageView { selected: next_index(v.selected, n), ..v }), ..s },
                CommandView::LoadTrackDetails,
            )
        } else {
            (s, CommandView::Nothing)
        },
        Key::Up | Key::Char('k') => if n > 0 {
            (
                AppView { tracks: Some(TrackPageView { selected: prev_index(v.selected, n), ..v }), ..s },
                CommandView::LoadTrackDetails,
            )
        } else {
            (s, CommandView::Nothing)
        },
        Key::Enter | Key::Char('p') => if v.selected >= n {
            (s, CommandView::Nothing)
        } else if v.tracks[v.selected as int].remote is Some {
            (
                AppView {
                    message: "This track is metadata only (no local audio file) \u{2014} nothing to play."@,
                    ..s
                },
                CommandView::Nothing,
            )
        } else if s.now_playing == Some(v.selected) {
            toggle_pause_step(s)
        } else {
            (s, CommandView::Play { index: v.selected })
        },
        Key::Char('x') => (AppView { now_playing: None, audio_paused: false, ..s }, CommandView::StopPlayback),
        _ => (s, CommandView::Nothing),
    }
}

/// The state once playing track `index` has started or failed.
pub open spec fn play_result_step(s: AppView, index: usize, outcome: PlayOutcomeView) -> AppView {
    match outcome {
        PlayOutcomeView::Started => AppView {
            now_playing: Some(index),
            audio_paused: false,
            message: "\u{25b6} playing"@,
            ..s
        },
        PlayOutcomeView::NoOutput(e) => AppView { message: "Could not open audio output: "@ + e, ..s },
        PlayOutcomeView::OpenFailed(e) => AppView { message: "Could not open that track: "@ + e, ..s },
        PlayOutcomeView::DecodeFailed(e) => AppView { message: "Could not decode that track: "@ + e, ..s },
        PlayOutcomeView::SinkFailed(e) => AppView { message: "Could not play that track: "@ + e, ..s },
    }
}

/// Where the details of the selected track come from.
#[derive(Debug)]
pub enum TrackDetails {
    /// No track is selected.
    NoTrack,
    /// The track is known from an import manifest: these are its details.
    Known(TrackMetadata),
    /// The tags of the audio file at this path must be read.
    ReadFile(String),
}

impl App {
    /// Handles a key while the tags of the selected playlist are edited.
    pub fn handle_tag_edit_key(&mut self, key: Key) -> (cmd: Command)
        requires
            old(self).wf(),
            old(self).editing_tags,
            line_key_ok(old(self).tag_buffer@, old(self).tag_cursor, key),
        ensures
            (final(self)@, cmd@) == tag_edit_step(old(self)@, key),
            final(self).wf(),
    {
        match key {
            Key::Esc => {
                self.editing_tags = false;
                self.tag_buffer = String::new();
                self.tag_cursor = 0;
                self.message = owned("Tag edit cancelled.");
                Command::Nothing
            },
            Key::Enter => self.save_tags(),
            _ => {
                edit_line(&mut self.tag_buffer, &mut self.tag_cursor, key);
                Command::Nothing
            },
        }
    }

    #[verifier::rlimit(40)]
    fn save_tags(&mut self) -> (cmd: Command)
        requires
            old(self).wf(),
        ensures
            (final(self)@, cmd@) == tag_edit_step(old(self)@, Key::Enter),
            final(self).wf(),
    {
        let tags = parse_tags(self.tag_buffer.as_str());
        let sc = self.selected_crate;
        let sp = self.selected_playlist;
        if sc >= self.crates.len() {
            self.editing_tags = false;
            return Command::Nothing;
        }
        let ghost before = self.crates@;
        assert(crates_view(before)[sc as int] == before[sc as int]@);
        if sp < self.crates[sc].playlists.len() {
            assert(before[sc as int]@.playlists[sp as int] == before[sc as int].playlists@[sp as int]@);
            self.crates[sc].playlists[sp].tags = tags;
            assert(self.crates@[sc as int]@.playlists =~= before[sc as int]@.playlists.update(
                sp as int,
                PlaylistView { tags: tags_from_text(self.tag_buffer@), ..before[sc as int]@.playlists[sp as int] },
            ));
            assert(crates_view(self.crates@) =~= crates_view(before).update(sc as int, self.crates@[sc as int]@));
        }
        self.editing_tags = false;
        self.tag_buffer = String::new();
        self.tag_cursor = 0;
        Command::Save(SaveNote::TagsSaved)
    }

    /// Handles a key while deleting crate `index` waits for confirmation.
    #[verifier::rlimit(80)]
    #[verifier::spinoff_prover]
    pub fn handle_confirm_delete(&mut self, key: Key, index: usize) -> (cmd: Command)
        requires
            old(self).wf(),
        ensures
            (final(self)@, cmd@) == confirm_delete_step(old(self)@, index, key),
            final(self).wf(),
    {
        match key {
            Key::Char('y') | Key::Char('Y') | Key::Enter => {
                if index < self.crates.len() {
                    let ghost before = self.crates@;
                    assert(crates_view(before)[index as int] == before[index as int]@);
                    let removed = self.crates.remove(index);
                    assert(crates_view(self.crates@) =~= crates_view(before).remove(index as int));
                    let n = self.crates.len();
                    self.selected_crate = if n == 0 {
                        0
                    } else if self.selected_crate <= n - 1 {
                        self.selected_crate
                    } else {
                        n - 1
                    };
                    self.config_field = 0;
                    self.message = join3("Removed crate ", removed.name.as_str(), ".");
                    self.pending_delete = None;
                    return Command::Save(SaveNote::RemovedCrate { name: removed.name });
                }
                self.pending_delete = None;
                Command::Nothing
            },
            Key::Char('n') | Key::Char('N') | Key::Esc => {
                self.message = owned("Crate deletion cancelled.");
                self.pending_delete = None;
                Command::Nothing
            },
            _ => Command::Nothing,
        }
    }

    /// Handles a key in the tag browser.
    #[verifier::rlimit(40)]
    pub fn handle_tag_browser_key(&mut self, key: Key) -> (cmd: Command)
        requires
            old(self).wf(),
            old(self).tag_browser is Some,
        ensures
            (final(self)@, cmd@) == tag_browser_step(old(self)@, old(self)@.tag_browser.unwrap(), key),
            final(self).wf(),
    {
        let ghost s = self@;
        let filtering = self.tag_browser.as_ref().unwrap().filter.is_some();
        if filtering {
            match key {
                Key::Esc | Key::Char('t') => {
                    self.tag_browser.as_mut().unwrap().filter = None;
                    Command::Nothing
                },
                Key::Char('q') => {
                    self.should_quit = true;
                    Command::Nothing
                },
                Key::Down | Key::Char('j') => {
                    let browser = self.tag_browser.as_mut().unwrap();
                    if browser.matches.len() > 0 {
                        browser.match_selected = step_forward(browser.match_selected, browser.matches.len());
                    }
                    Command::Nothing
                },
                Key::Up | Key::Char('k') => {
                    let browser = self.tag_browser.as_mut().unwrap();
                    let n = browser.matches.len();
                    if n > 0 {
                        browser.match_selected = if browser.match_selected >= 1 {
                            browser.match_selected - 1
                        } else {
                            n - 1
                        };
                    }
                    Command::Nothing
                },
                Key::Enter => self.open_selected_match(),
                _ => Command::Nothing,
            }
        } else {
            match key {
                Key::Esc => {
                    self.tag_browser = None;
                    Command::Nothing
                },
                Key::Char('q') => {
                    self.should_quit = true;
                    Command::Nothing
                },
                Key::Down | Key::Char('j') => {
                    let browser = self.tag_browser.as_mut().unwrap();
                    browser.selected = step_forward(browser.selected, browser.tags.len());
                    Command::Nothing
                },
                Key::Up | Key::Char('k') => {
                    let browser = self.tag_browser.as_mut().unwrap();
                    let n = browser.tags.len();
                    browser.selected = if browser.selected >= 1 { browser.selected - 1 } else { n - 1 };
                    Command::Nothing
                },
                Key::Enter => {
                    let selected = self.tag_browser.as_ref().unwrap().selected;
                    if selected < self.tag_browser.as_ref().unwrap().tags.len() {
                        let tag = self.tag_browser.as_ref().unwrap().tags[selected].clone();
                        let matches = collect_matches(&self.crates, &tag);
                        let browser = self.tag_browser.as_mut().unwrap();
                        browser.filter = Some(tag);
                        browser.matches = matches;
                        browser.match_selected = 0;
                    }
                    Command::Nothing
                },
                _ => Command::Nothing,
            }
        }
    }

    fn open_selected_match(&mut self) -> (cmd: Command)
        requires
            old(self).tag_browser is Some,
        ensures
            (final(self)@, cmd@) == open_match_step(old(self)@, old(self)@.tag_browser.unwrap()),
    {
        let ghost s = self@;
        let browser = self.tag_browser.as_ref().unwrap();
        if browser.match_selected >= browser.matches.len() {
            return Command::Nothing;
        }
        let ms = browser.match_selected;
        assert(s.tag_browser.unwrap().matches[ms as int] == (browser.matches@[ms as int].0@, browser.matches@[ms as int].1@));
        let crate_name = &browser.matches[ms].0;
        let playlist_name = &browser.matches[ms].1;
        let ghost cn = crate_name@;
        let ghost pn = playlist_name@;
        let mut ci: usize = 0;
        while ci < self.crates.len() && !(self.crates[ci].name == *crate_name)
            invariant
                ci <= self.crates.len(),
                s == self@,
                cn == crate_name@,
                forall|j: int| 0 <= j < ci ==> !((|c: CrateView| c.name == cn)(#[trigger] s.crates[j])),
            decreases self.crates.len() - ci,
        {
            assert(s.crates[ci as int] == self.crates@[ci as int]@);
            ci = ci + 1;
        }
        proof {
            if ci < self.crates.len() {
                assert(s.crates[ci as int] == self.crates@[ci as int]@);
            }
            lemma_first_where(s.crates, |c: CrateView| c.name == cn, ci as int);
        }
        if ci >= self.crates.len() {
            return Command::Nothing;
        }
        let ghost ps = s.crates[ci as int].playlists;
        assert(ps == playlists_view(self.crates@[ci as int].playlists@));
        let playlists = &self.crates[ci].playlists;
        let mut pi: usize = 0;
        while pi < playlists.len() && !(playlists[pi].name == *playlist_name)
            invariant
                pi <= playlists.len(),
                ps == playlists_view(playlists@),
                pn == playlist_name@,
                forall|j: int| 0 <= j < pi ==> !((|p: PlaylistView| p.name == pn)(#[trigger] ps[j])),
            decreases playlists.len() - pi,
        {
            pi = pi + 1;
        }
        proof {
            lemma_first_where(ps, |p: PlaylistView| p.name == pn, pi as int);
        }
        if pi >= playlists.len() {
            return Command::Nothing;
        }
        Command::ListTracks { crate_index: ci, playlist_index: pi, from_browser: true }
    }

    /// Handles a key on the track list page.
    #[verifier::rlimit(40)]
    pub fn handle_tracks_key(&mut self, key: Key) -> (cmd: Command)
        requires
            old(self).wf(),
            old(self).tracks is Some,
        ensures
            (final(self)@, cmd@) == tracks_step(old(self)@, old(self)@.tracks.unwrap(), key),
            final(self).wf(),
    {
        let ghost s = self@;
        match key {
            Key::Esc => {
                self.now_playing = None;
                self.audio_paused = false;
                self.tracks = None;
                Command::StopPlayback
            },
            Key::Char('q') => {
                self.should_quit = true;
                Command::Nothing
            },
            Key::Down | Key::Char('j') => {
                let view = self.tracks.as_mut().unwrap();
                if view.tracks.len() > 0 {
                    view.selected = step_forward(view.selected, view.tracks.len());
                    Command::LoadTrackDetails
                } else {
                    Command::Nothing
                }
            },
            Key::Up | Key::Char('k') => {
                let view = self.tracks.as_mut().unwrap();
                let n = view.tracks.len();
                if n > 0 {
                    view.selected = if view.selected >= 1 { view.selected - 1 } else { n - 1 };
                    Command::LoadTrackDetails
                } else {
                    Command::Nothing
                }
            },
            Key::Enter | Key::Char('p') => {
                let view = self.tracks.as_ref().unwrap();
                let selected = view.selected;
                if selected >= view.tracks.len() {
                    return Command::Nothing;
                }
                assert(s.tracks.unwrap().tracks[selected as int] == view.tracks@[selected as int]@);
                if view.tracks[selected].remote_metadata.is_some() {
                    self.message = owned(
                        "This track is metadata only (no local audio file) \u{2014} nothing to play.",
                    );
                    Command::Nothing
                } else if self.now_playing == Some(selected) {
                    self.toggle_pause()
                } else {
                    Command::Play { index: selected }
                }
            },
            Key::Char('x') => {
                self.now_playing = None;
                self.audio_paused = false;
                Command::StopPlayback
            },
            _ => Command::Nothing,
        }
    }

    fn toggle_pause(&mut self) -> (cmd: Command)
        ensures
            (final(self)@, cmd@) == toggle_pause_step(old(self)@),
    {
        if self.now_playing.is_none() {
            return Command::Nothing;
        }
        if self.audio_paused {
            self.message = owned("\u{25b6} playing");
            self.audio_paused = false;
            Command::Resume
        } else {
            self.message = owned("\u{23f8} paused");
            self.audio_paused = true;
            Command::Pause
        }
    }

    /// Reports whether playing track `index` started.
    pub fn after_play(&mut self, index: usize, outcome: PlayOutcome)
        requires
            old(self).wf(),
        ensures
            final(self)@ == play_result_step(old(self)@, index, outcome@),
            final(self).wf(),
    {
        match outcome {
            PlayOutcome::Started => {
                self.now_playing = Some(index);
                self.audio_paused = false;
                self.message = owned("\u{25b6} playing");
            },
            PlayOutcome::NoOutput(e) => {
                self.message = join2("Could not open audio output: ", e.as_str());
            },
            PlayOutcome::OpenFailed(e) => {
                self.message = join2("Could not open that track: ", e.as_str());
            },
            PlayOutcome::DecodeFailed(e) => {
                self.message = join2("Could not decode that track: ", e.as_str());
            },
            PlayOutcome::SinkFailed(e) => {
                self.message = join2("Could not play that track: ", e.as_str());
            },
        }
    }

    /// Where the details of the selected track come from: none selected, known
    /// from an import manifest (title, artist and album as recorded), or to be
    /// read from the audio file.
    pub fn selected_track_details(&self) -> (d: TrackDetails)
        ensures
            match self@.tracks {
                None => d is NoTrack,
                Some(v) => if v.selected >= v.tracks.len() {
                    d is NoTrack
                } else {
                    match v.tracks[v.selected as int].remote {
                        Some(r) => d matches TrackDetails::Known(m) && m@ == remote_details(
                            v.tracks[v.selected as int].name,
                            r,
                        ),
                        None => d matches TrackDetails::ReadFile(p) && p@ == v.tracks[v.selected as int].path,
                    }
                },
            },
    {
        match &self.tracks {
            None => TrackDetails::NoTrack,
            Some(view) => {
                if view.selected >= view.tracks.len() {
                    return TrackDetails::NoTrack;
                }
                let track = &view.tracks[view.selected];
                assert(tracks_view(view.tracks@)[view.selected as int] == track@);
                match &track.remote_metadata {
                    Some(remote) => TrackDetails::Known(metadata_from_remote(&track.name, remote)),
                    None => TrackDetails::ReadFile(track.path.clone()),
                }
            },
        }
    }

    /// Records the details loaded for the selected track.
    pub fn set_track_details(&mut self, metadata: Option<TrackMetadata>)
        requires
            old(self).wf(),
        ensures
            final(self)@ == (match old(self)@.tracks {
                Some(v) => AppView {
                    tracks: Some(TrackPageView { metadata: metadata_view(metadata), ..v }),
                    ..old(self)@
                },
                None => old(self)@,
            }),
            final(self).wf(),
    {
        match &mut self.tracks {
            Some(view) => {
                view.metadata = metadata;
            },
            None => {},
        }
    }
}

/// Collects the (crate, playlist) names of every playlist tagged `tag`.
fn collect_matches(crates: &Vec<CrateLocation>, tag: &String) -> (r: Vec<(String, String)>)
    ensures
        pairs_view(r@) == tag_matches(crates_view(crates@), tag@),
{
    let ghost cv = crates_view(crates@);
    let mut r: Vec<(String, String)> = Vec::new();
    assert(cv.take(0) =~= Seq::<CrateView>::empty());
    for i in 0..crates.len()
        invariant
            cv == crates_view(crates@),
            pairs_view(r@) == tag_matches(cv.take(i as int), tag@),
    {
        let c = &crates[i];
        let ghost ps = cv[i as int].playlists;
        let ghost cn = cv[i as int].name;
        assert(ps == playlists_view(c.playlists@));
        assert(cn == c.name@);
        let ghost start = pairs_view(r@);
        assert(ps.take(0) =~= Seq::<PlaylistView>::empty());
        assert(start + playlist_matches(cn, ps.take(0), tag@) =~= start);
        for j in 0..c.playlists.len()
            invariant
                ps == playlists_view(c.playlists@),
                cn == c.name@,
                pairs_view(r@) == start + playlist_matches(cn, ps.take(j as int), tag@),
        {
            let p = &c.playlists[j];
            let ghost pt = ps[j as int].tags;
            assert(pt == seq_strings(p.tags@));
            let mut found = false;
            let mut k: usize = 0;
            while k < p.tags.len() && !found
                invariant
                    pt == seq_strings(p.tags@),
                    k <= p.tags.len(),
                    found ==> pt.contains(tag@),
                    !found ==> forall|m: int| 0 <= m < k ==> pt[m] != tag@,
                decreases p.tags.len() - k + (if found { 0int } else { 1int }),
            {
                if p.tags[k] == *tag {
                    found = true;
                    assert(pt[k as int] == tag@);
                } else {
                    k = k + 1;
                }
            }
            assert(ps.take(j + 1).drop_last() =~= ps.take(j as int));
            if found {
                let ghost before = r@;
                let pair = (c.name.clone(), p.name.clone());
                assert(pair.0@ == cn && pair.1@ == ps[j as int].name);
                r.push(pair);
                assert(pairs_view(r@) =~= pairs_view(before).push((cn, ps[j as int].name)));
                assert(ps.take(j + 1).last() == ps[j as int]);
                assert(pairs_view(r@) =~= start + playlist_matches(cn, ps.take(j + 1), tag@));
            } else {
                assert(!pt.contains(tag@));
            }
        }
        assert(ps.take(c.playlists.len() as int) =~= ps);
        assert(cv.take(i + 1).drop_last() =~= cv.take(i as int));
    }
    assert(cv.take(crates.len() as int) =~= cv);
    r
}

} // verus!
