//! The popups drawn over a screen: the tag browser and the question before a
//! crate is deleted.

use vstd::prelude::*;

use crate::model::CrateView;
use crate::screens::{
    body_view, choice_lines, choice_list, empty_line, key_pill, line_view, lines_view, one, pill, plain, push_line,
    span, strong, bold, Body, BodyView, Line, LineView, SpanView, Tone,
};
use crate::session::{App, NamePair, TagBrowserView};
use crate::text::{join3, owned};

verus! {

/// The view of a line that may be absent.
pub open spec fn opt_line_view(l: Option<Line>) -> Option<LineView> {
    match l {
        Some(x) => Some(line_view(x)),
        None => None,
    }
}

/// A playlist carrying the chosen tag: its name, marked when selected, and
/// its crate in brackets.
pub open spec fn match_line(m: NamePair, selected: bool) -> LineView {
    seq![
        plain((if selected { "› "@ } else { "  "@ }) + m.1, if selected { Tone::Ink } else { Tone::Cyan }),
        plain("  ["@ + m.0 + "]"@, Tone::Blue),
    ]
}

/// The rows of the playlists carrying the chosen tag.
pub open spec fn match_lines(b: TagBrowserView) -> Seq<LineView> {
    Seq::new(b.matches.len(), |i: int| match_line(b.matches[i], i == b.match_selected))
}

/// The title of the popup once a tag is chosen.
pub open spec fn tagged_title(tag: Seq<char>) -> Seq<char> {
    "♪ TAGGED \""@ + tag + "\" ♪"@
}

/// The panel of the tag browser: the list of tags, or, once a tag is chosen,
/// the playlists that carry it.
pub open spec fn tag_body(b: TagBrowserView) -> BodyView {
    match b.filter {
        Some(tag) => if b.matches.len() == 0 {
            BodyView::Text {
                title: tagged_title(tag),
                lines: seq![seq![plain("  (no playlists with this tag)"@, Tone::Blue)]],
            }
        } else {
            BodyView::List { title: tagged_title(tag), items: match_lines(b), selected: b.match_selected }
        },
        None => BodyView::List { title: "♪ TAGS ♪"@, items: choice_lines(b.tags, b.selected as int), selected: b.selected },
    }
}

/// The hint under the playlists of a chosen tag; the list of tags has none.
pub open spec fn tag_footer(b: TagBrowserView) -> Option<LineView> {
    match b.filter {
        Some(_) => Some(
            seq![
                pill("Enter"@, Tone::Backdrop, Tone::Pink),
                plain(" open playlist   "@, Tone::Cyan),
                pill("Esc / t"@, Tone::Panel, Tone::Ink),
                plain(" back to tags"@, Tone::Cyan),
            ],
        ),
        None => None,
    }
}

/// What the tag browser popup shows.
#[derive(Debug)]
pub struct TagScreen {
    pub body: Body,
    pub footer: Option<Line>,
}

/// The line of path `i` of crate `c` in the question before its deletion.
pub open spec fn path_line(c: CrateView, i: int) -> LineView {
    seq![plain("  • "@ + c.locations[i].path, Tone::Cyan)]
}

/// The first lines of the question asked before crate `c` is deleted.
pub open spec fn delete_head(c: CrateView) -> Seq<LineView> {
    seq![
        seq![strong("Remove \""@ + c.name + "\"?"@, Tone::Ink)],
        seq![plain("You will lose all its paths and playlists:"@, Tone::Yellow)],
        Seq::<SpanView>::empty(),
    ]
}

/// The last lines of that question: the keys that answer it.
pub open spec fn delete_tail() -> Seq<LineView> {
    seq![
        Seq::<SpanView>::empty(),
        seq![
            pill("y"@, Tone::Backdrop, Tone::Pink),
            plain(" delete it   "@, Tone::Cyan),
            pill("n / Esc"@, Tone::Panel, Tone::Ink),
            plain(" cancel"@, Tone::Cyan),
        ],
    ]
}

/// The lines of the question asked before crate `c` is deleted: its name,
/// each of its paths, and the keys that answer.
pub open spec fn delete_lines(c: CrateView) -> Seq<LineView> {
    delete_head(c) + Seq::new(c.locations.len(), |i: int| path_line(c, i)) + delete_tail()
}

fn match_rows(matches: &Vec<(String, String)>, selected: usize) -> (r: Vec<Line>)
    ensures
        lines_view(r@) == Seq::new(
            matches@.len(),
            |i: int| match_line((matches@[i].0@, matches@[i].1@), i == selected),
        ),
{
    let mut r: Vec<Line> = Vec::new();
    for i in 0..matches.len()
        invariant
            r.len() == i,
            forall|j: int|
                0 <= j < i ==> #[trigger] line_view(r@[j]) == match_line((matches@[j].0@, matches@[j].1@), j == selected),
    {
        let m = &matches[i];
        let sel = i == selected;
        let name = if sel {
            crate::text::join2("› ", m.1.as_str())
        } else {
            crate::text::join2("  ", m.1.as_str())
        };
        let mut line: Line = Vec::new();
        line.push(span(name, if sel { Tone::Ink } else { Tone::Cyan }));
        line.push(span(join3("  [", m.0.as_str(), "]"), Tone::Blue));
        assert(line_view(line) =~= match_line((matches@[i as int].0@, matches@[i as int].1@), i == selected));
        r.push(line);
    }
    assert(lines_view(r@) =~= Seq::new(
        matches@.len(),
        |i: int| match_line((matches@[i].0@, matches@[i].1@), i == selected),
    ));
    r
}

impl App {
    /// What the tag browser shows, when it is open.
    pub fn tag_screen(&self) -> (r: Option<TagScreen>)
        ensures
            match (self@.tag_browser, r) {
                (Some(b), Some(sc)) => body_view(sc.body) == tag_body(b) && opt_line_view(sc.footer) == tag_footer(b),
                (None, None) => true,
                _ => false,
            },
    {
        let b = match &self.tag_browser {
            Some(b) => b,
            None => return None,
        };
        let ghost bv = b@;
        match &b.filter {
            Some(tag) => {
                let title = join3("♪ TAGGED \"", tag.as_str(), "\" ♪");
                let body = if b.matches.len() == 0 {
                    let mut lines: Vec<Line> = Vec::new();
                    lines.push(one(span(owned("  (no playlists with this tag)"), Tone::Blue)));
                    assert(lines_view(lines@) =~= seq![seq![plain("  (no playlists with this tag)"@, Tone::Blue)]]);
                    Body::Text { title, lines }
                } else {
                    let items = match_rows(&b.matches, b.match_selected);
                    assert(lines_view(items@) =~= match_lines(bv));
                    Body::List { title, items, selected: b.match_selected }
                };
                let mut footer: Line = Vec::new();
                footer.push(key_pill("Enter", Tone::Backdrop, Tone::Pink));
                footer.push(span(owned(" open playlist   "), Tone::Cyan));
                footer.push(key_pill("Esc / t", Tone::Panel, Tone::Ink));
                footer.push(span(owned(" back to tags"), Tone::Cyan));
                assert(line_view(footer) =~= tag_footer(bv).unwrap());
                Some(TagScreen { body, footer: Some(footer) })
            },
            None => {
                let items = choice_list(&b.tags, b.selected);
                Some(TagScreen { body: Body::List { title: owned("♪ TAGS ♪"), items, selected: b.selected }, footer: None })
            },
        }
    }

    /// The question asked before the crate awaiting deletion goes, when one
    /// awaits it.
    pub fn confirm_delete_screen(&self) -> (r: Option<Vec<Line>>)
        ensures
            r is Some <==> (self@.pending_delete is Some && self@.pending_delete->0 < self@.crates.len()),
            r matches Some(lines) ==> lines_view(lines@) == delete_lines(self@.crates[self@.pending_delete->0 as int]),
    {
        let k = match self.pending_delete {
            Some(k) => k,
            None => return None,
        };
        if k >= self.crates.len() {
            return None;
        }
        let c = &self.crates[k];
        let ghost cv = c@;
        assert(cv == self@.crates[k as int]);
        let mut lines: Vec<Line> = Vec::new();
        push_line(&mut lines, one(bold(join3("Remove \"", c.name.as_str(), "\"?"), Tone::Ink)));
        push_line(&mut lines, one(span(owned("You will lose all its paths and playlists:"), Tone::Yellow)));
        push_line(&mut lines, empty_line());
        assert(lines_view(lines@) =~= delete_head(cv) + Seq::new(0, |j: int| path_line(cv, j)));
        for i in 0..c.locations.len()
            invariant
                cv == c@,
                lines_view(lines@) == delete_head(cv) + Seq::new(i as nat, |j: int| path_line(cv, j)),
        {
            assert(cv.locations[i as int] == c.locations@[i as int]@);
            push_line(&mut lines, one(span(crate::text::join2("  • ", c.locations[i].path.as_str()), Tone::Cyan)));
            assert(lines_view(lines@) =~= delete_head(cv) + Seq::new((i + 1) as nat, |j: int| path_line(cv, j)));
        }
        let ghost mid = lines_view(lines@);
        push_line(&mut lines, empty_line());
        let mut keys: Line = Vec::new();
        keys.push(key_pill("y", Tone::Backdrop, Tone::Pink));
        keys.push(span(owned(" delete it   "), Tone::Cyan));
        keys.push(key_pill("n / Esc", Tone::Panel, Tone::Ink));
        keys.push(span(owned(" cancel"), Tone::Cyan));
        assert(line_view(keys) =~= delete_tail()[1]);
        push_line(&mut lines, keys);
        assert(lines_view(lines@) =~= mid + delete_tail());
        Some(lines)
    }
}

} // verus!
