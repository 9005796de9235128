//! Keeping the crate map in step with the disk: which crates have all their
//! paths, and fresh scans merged over what the user already entered.

use vstd::prelude::*;

use crate::model::{copy_link, crates_view, playlists_view, CrateLocation, CrateView, Playlist, PlaylistView};
use crate::text::{copy_strings, eq_ascii_nocase, eq_ignore_ascii_case};

verus! {

/// The first playlist of `ps` whose name equals `name` ignoring ASCII case.
pub open spec fn find_nocase(ps: Seq<PlaylistView>, name: Seq<char>) -> Option<int>
    decreases ps.len(),
{
    if ps.len() == 0 {
        None
    } else if eq_ascii_nocase(ps[0].name, name) {
        Some(0)
    } else {
        match find_nocase(ps.drop_first(), name) {
            Some(k) => Some(k + 1),
            None => None,
        }
    }
}

/// `find_nocase` gives the first position at which the names match.
pub proof fn lemma_find_nocase(ps: Seq<PlaylistView>, name: Seq<char>, k: int)
    requires
        0 <= k <= ps.len(),
        forall|j: int| 0 <= j < k ==> !eq_ascii_nocase(#[trigger] ps[j].name, name),
        k < ps.len() ==> eq_ascii_nocase(ps[k].name, name),
    ensures
        find_nocase(ps, name) == (if k < ps.len() { Some(k) } else { None::<int> }),
    decreases k,
{
    if k > 0 {
        let t = ps.drop_first();
        assert forall|j: int| 0 <= j < k - 1 implies !eq_ascii_nocase(#[trigger] t[j].name, name) by {
            assert(t[j] == ps[j + 1]);
        }
        lemma_find_nocase(t, name, k - 1);
    }
}

/// The position of the first playlist whose name matches `name` ignoring ASCII case.
pub fn position_nocase(ps: &Vec<Playlist>, name: &String) -> (r: Option<usize>)
    ensures
        match r {
            Some(k) => find_nocase(playlists_view(ps@), name@) == Some(k as int) && k < ps.len(),
            None => find_nocase(playlists_view(ps@), name@) is None,
        },
{
    let ghost pv = playlists_view(ps@);
    let mut k: usize = 0;
    while k < ps.len() && !eq_ignore_ascii_case(ps[k].name.as_str(), name.as_str())
        invariant
            pv == playlists_view(ps@),
            k <= ps.len(),
            forall|j: int| 0 <= j < k ==> !eq_ascii_nocase(#[trigger] pv[j].name, name@),
        decreases ps.len() - k,
    {
        k = k + 1;
    }
    proof {
        lemma_find_nocase(pv, name@, k as int);
    }
    if k < ps.len() {
        Some(k)
    } else {
        None
    }
}

/// A freshly scanned playlist, keeping the tags and link of the playlist with the
/// same name (ignoring ASCII case) that was known before.
pub open spec fn merged(existing: Seq<PlaylistView>, p: PlaylistView) -> PlaylistView {
    match find_nocase(existing, p.name) {
        Some(k) => PlaylistView { tags: existing[k].tags, link: existing[k].link, ..p },
        None => p,
    }
}

/// A fresh scan applied over what was known: every scanned playlist, in the
/// scan's order, with the user-entered tags and links of playlists that still exist.
pub open spec fn merge_view(existing: Seq<PlaylistView>, scanned: Seq<PlaylistView>) -> Seq<PlaylistView> {
    scanned.map_values(|p: PlaylistView| merged(existing, p))
}

proof fn lemma_find_nocase_first(ps: Seq<PlaylistView>, name: Seq<char>)
    ensures
        match find_nocase(ps, name) {
            Some(k) => 0 <= k < ps.len() && eq_ascii_nocase(ps[k].name, name) && forall|j: int|
                0 <= j < k ==> !eq_ascii_nocase(#[trigger] ps[j].name, name),
            None => forall|j: int| 0 <= j < ps.len() ==> !eq_ascii_nocase(#[trigger] ps[j].name, name),
        },
    decreases ps.len(),
{
    if ps.len() > 0 {
        let t = ps.drop_first();
        lemma_find_nocase_first(t, name);
        assert forall|j: int| 0 < j < ps.len() implies ps[j] == t[j - 1] by {}
    }
}

/// A rescan takes every count from the disk and keeps only what the user
/// entered: each merged playlist is the scanned one (same name, track count
/// and synced count, in the scan's order), with the tags and link of the first
/// known playlist of the same name ignoring ASCII case, or the scan's own when
/// none is known.
pub proof fn lemma_merge_keeps_scan(existing: Seq<PlaylistView>, scanned: Seq<PlaylistView>)
    ensures
        merge_view(existing, scanned).len() == scanned.len(),
        forall|i: int| 0 <= i < scanned.len() ==> {
            let m = #[trigger] merge_view(existing, scanned)[i];
            let p = scanned[i];
            &&& m.name == p.name
            &&& m.track_count == p.track_count
            &&& m.synced == p.synced
            &&& (exists|k: int| 0 <= k < existing.len() && eq_ascii_nocase(#[trigger] existing[k].name, p.name)) ==> exists|
                k: int,
            |
                0 <= k < existing.len() && eq_ascii_nocase(#[trigger] existing[k].name, p.name) && (forall|j: int|
                    0 <= j < k ==> !eq_ascii_nocase(#[trigger] existing[j].name, p.name)) && m.tags == existing[k].tags
                    && m.link == existing[k].link
            &&& (forall|k: int| 0 <= k < existing.len() ==> !eq_ascii_nocase(#[trigger] existing[k].name, p.name)) ==> m.tags
                == p.tags && m.link == p.link
        },
{
    assert forall|i: int| 0 <= i < scanned.len() implies {
        let m = #[trigger] merge_view(existing, scanned)[i];
        let p = scanned[i];
        &&& m.name == p.name
        &&& m.track_count == p.track_count
        &&& m.synced == p.synced
        &&& (exists|k: int| 0 <= k < existing.len() && eq_ascii_nocase(#[trigger] existing[k].name, p.name)) ==> exists|
            k: int,
        |
            0 <= k < existing.len() && eq_ascii_nocase(#[trigger] existing[k].name, p.name) && (forall|j: int|
                0 <= j < k ==> !eq_ascii_nocase(#[trigger] existing[j].name, p.name)) && m.tags == existing[k].tags
                && m.link == existing[k].link
        &&& (forall|k: int| 0 <= k < existing.len() ==> !eq_ascii_nocase(#[trigger] existing[k].name, p.name)) ==> m.tags
            == p.tags && m.link == p.link
    } by {
        lemma_find_nocase_first(existing, scanned[i].name);
    }
}

/// Applies a fresh disk scan on top of what was known, keeping the tags and
/// service links of playlists that still exist.
pub fn merge_playlists(existing: &Vec<Playlist>, scanned: Vec<Playlist>) -> (r: Vec<Playlist>)
    ensures
        playlists_view(r@) == merge_view(playlists_view(existing@), playlists_view(scanned@)),
{
    let ghost ev = playlists_view(existing@);
    let ghost sv = playlists_view(scanned@);
    let mut r: Vec<Playlist> = Vec::new();
    let mut scanned = scanned;
    let n = scanned.len();
    let mut i: usize = 0;
    while i < n
        invariant
            n == sv.len(),
            i <= n,
            ev == playlists_view(existing@),
            sv == playlists_view(scanned@),
            scanned.len() == n,
            r.len() == i,
            forall|j: int| 0 <= j < i ==> #[trigger] r@[j]@ == merged(ev, sv[j]),
        decreases n - i,
    {
        let mut playlist = scanned[i].duplicate();
        match position_nocase(existing, &playlist.name) {
            Some(k) => {
                let previous = &existing[k];
                playlist.tags = copy_strings(&previous.tags);
                playlist.link = copy_link(&previous.link);
            },
            None => {},
        }
        r.push(playlist);
        i = i + 1;
    }
    assert(playlists_view(r@) =~= merge_view(ev, sv));
    r
}

/// Whether every entry is true.
pub open spec fn all_true(v: Seq<bool>) -> bool {
    forall|i: int| 0 <= i < v.len() ==> v[i]
}

fn all_set(v: &Vec<bool>) -> (r: bool)
    ensures
        r == all_true(v@),
{
    let mut i: usize = 0;
    while i < v.len()
        invariant
            i <= v.len(),
            forall|j: int| 0 <= j < i ==> v@[j],
        decreases v.len() - i,
    {
        if !v[i] {
            return false;
        }
        i = i + 1;
    }
    true
}

/// Per crate, per location: whether that path exists on disk.
pub open spec fn exists_view(exists: Seq<Vec<bool>>) -> Seq<Seq<bool>> {
    exists.map_values(|v: Vec<bool>| v@)
}

/// One entry per crate and one per location of that crate.
pub open spec fn shaped_like(exists: Seq<Seq<bool>>, crates: Seq<CrateView>) -> bool {
    exists.len() == crates.len() && forall|i: int| 0 <= i < crates.len() ==> #[trigger] exists[i].len()
        == crates[i].locations.len()
}

/// Crates marked available exactly when all of their paths exist.
pub open spec fn with_availability(crates: Seq<CrateView>, exists: Seq<Seq<bool>>) -> Seq<CrateView> {
    Seq::new(crates.len(), |i: int| CrateView { available: all_true(exists[i]), ..crates[i] })
}

/// Marks each crate available exactly when every one of its paths exists.
pub fn refresh_availability(crates: &mut Vec<CrateLocation>, exists: &Vec<Vec<bool>>)
    requires
        shaped_like(exists_view(exists@), crates_view(old(crates)@)),
    ensures
        crates_view(final(crates)@) == with_availability(crates_view(old(crates)@), exists_view(exists@)),
{
    let ghost cv = crates_view(crates@);
    let ghost ev = exists_view(exists@);
    let n = crates.len();
    let mut i: usize = 0;
    while i < n
        invariant
            n == crates.len(),
            cv.len() == n,
            ev == exists_view(exists@),
            shaped_like(ev, cv),
            i <= n,
            forall|j: int| 0 <= j < i ==> #[trigger] crates_view(crates@)[j] == (CrateView {
                available: all_true(ev[j]),
                ..cv[j]
            }),
            forall|j: int| i <= j < n ==> #[trigger] crates_view(crates@)[j] == cv[j],
        decreases n - i,
    {
        let available = all_set(&exists[i]);
        assert(ev[i as int] == exists@[i as int]@);
        let ghost before = crates@;
        assert(crates_view(before)[i as int] == before[i as int]@);
        crates[i].available = available;
        assert(crates@ == before.update(i as int, crates@[i as int]));
        assert(crates@[i as int]@ == (CrateView { available: all_true(ev[i as int]), ..before[i as int]@ }));
        assert(crates_view(crates@) =~= crates_view(before).update(i as int, crates_view(crates@)[i as int]));
        i = i + 1;
    }
    assert(crates_view(crates@) =~= with_availability(cv, ev));
}

/// Each crate's playlists replaced by the merge of its fresh scan.
pub open spec fn with_scans(crates: Seq<CrateView>, scans: Seq<Seq<PlaylistView>>) -> Seq<CrateView> {
    Seq::new(crates.len(), |i: int| CrateView { playlists: merge_view(crates[i].playlists, scans[i]), ..crates[i] })
}

/// The views of one fresh scan per crate.
pub open spec fn scans_view(scans: Seq<Vec<Playlist>>) -> Seq<Seq<PlaylistView>> {
    scans.map_values(|v: Vec<Playlist>| playlists_view(v@))
}

/// Applies one fresh scan to each crate (`scans[i]` belongs to crate `i`).
pub fn rescan_playlists(crates: &mut Vec<CrateLocation>, scans: Vec<Vec<Playlist>>)
    requires
        scans.len() == old(crates).len(),
    ensures
        crates_view(final(crates)@) == with_scans(crates_view(old(crates)@), scans_view(scans@)),
{
    let ghost cv = crates_view(crates@);
    let ghost sv = scans_view(scans@);
    let n = crates.len();
    assert(sv.len() == n);
    let mut scans = scans;
    let mut i: usize = 0;
    while i < n
        invariant
            n == crates.len(),
            cv.len() == n,
            scans.len() == n,
            forall|j: int| i <= j < n ==> #[trigger] scans_view(scans@)[j] == sv[j],
            i <= n,
            forall|j: int| 0 <= j < i ==> #[trigger] crates_view(crates@)[j] == (CrateView {
                playlists: merge_view(cv[j].playlists, sv[j]),
                ..cv[j]
            }),
            forall|j: int| i <= j < n ==> #[trigger] crates_view(crates@)[j] == cv[j],
        decreases n - i,
    {
        let mut scan: Vec<Playlist> = Vec::new();
        let ghost scans_before = scans@;
        assert(scans_view(scans_before)[i as int] == playlists_view(scans_before[i as int]@));
        std::mem::swap(&mut scan, &mut scans[i]);
        assert(scans@ == scans_before.update(i as int, scans@[i as int]));
        assert(playlists_view(scan@) == sv[i as int]);
        assert forall|j: int| i + 1 <= j < n implies #[trigger] scans_view(scans@)[j] == sv[j] by {
            assert(scans@[j] == scans_before[j]);
            assert(scans_view(scans_before)[j] == playlists_view(scans_before[j]@));
            assert(scans_view(scans@)[j] == playlists_view(scans@[j]@));
        }
        let merged_list = merge_playlists(&crates[i].playlists, scan);
        let ghost before = crates@;
        assert(crates_view(before)[i as int] == before[i as int]@);
        crates[i].playlists = merged_list;
        assert(crates@ == before.update(i as int, crates@[i as int]));
        assert(crates_view(crates@) =~= crates_view(before).update(i as int, crates_view(crates@)[i as int]));
        i = i + 1;
    }
    assert(crates_view(crates@) =~= with_scans(cv, sv));
}

} // verus!
