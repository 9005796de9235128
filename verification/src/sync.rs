//! What a crate's folders hold: the playlists found under its paths, how many
//! tracks each has and how many are present everywhere, and the tracks of one
//! playlist.
//!
//! The shell lists the folders; these functions decide what the listings mean.
//! A folder that could not be read is listed as empty.

use vstd::prelude::*;

use crate::json::{member, JsonNumber, deref, get, items, json_get, json_items, json_text, json_unsigned, text, text_or, text_or_default, unsigned, Json};
use crate::model::{CrateLocation, Playlist, PlaylistView};
use crate::order::{insert_distinct, insert_sorted, sorted_distinct};
use crate::text::{
    same_text, char_is_alphanumeric, chars_of, ends_with, is_alphanumeric_char, lowercase, occurs_at, owned, push_char,
    seq_strings, to_lowercase, trim, trimmed, StrSeq,
};
use crate::commands::{ImportedTrack, ImportedTrackView};
use crate::tracks::{tracks_view, RemoteTrackMetadata, RemoteView, TrackFile, TrackFileView};

verus! {

// ---------------------------------------------------------------------------
// Folder listings

/// One entry of a folder listing, by its file name.
#[derive(Debug, Clone)]
pub struct DirEntry {
    pub name: String,
    pub is_dir: bool,
    pub is_file: bool,
}

/// Whether a file name is that of an import manifest (`<service>-tracks.json`).
pub open spec fn is_manifest_name(name: Seq<char>) -> bool {
    "-tracks.json"@.len() <= name.len() && occurs_at(name, "-tracks.json"@, name.len() - "-tracks.json"@.len())
}

fn manifest_name(name: &str) -> (r: bool)
    ensures
        r == is_manifest_name(name@),
{
    ends_with(name, "-tracks.json")
}

/// The position of the first import manifest in a listing.
pub open spec fn manifest_index(entries: Seq<DirEntry>) -> Option<int>
    decreases entries.len(),
{
    if entries.len() == 0 {
        None
    } else if entries[0].is_file && is_manifest_name(entries[0].name@) {
        Some(0)
    } else {
        match manifest_index(entries.drop_first()) {
            Some(k) => Some(k + 1),
            None => None,
        }
    }
}

/// `o` moved `by` positions further.
pub open spec fn shifted(o: Option<int>, by: int) -> Option<int> {
    match o {
        Some(k) => Some(k + by),
        None => None,
    }
}

/// The position in `entries` of the first file named like an import manifest
/// (`*-tracks.json`).
pub fn find_manifest(entries: &Vec<DirEntry>) -> (r: Option<usize>)
    ensures
        match r {
            Some(i) => manifest_index(entries@) == Some(i as int),
            None => manifest_index(entries@) is None,
        },
{
    let mut i: usize = 0;
    assert(entries@.skip(0) =~= entries@);
    while i < entries.len()
        invariant
            i <= entries.len(),
            manifest_index(entries@) == shifted(manifest_index(entries@.skip(i as int)), i as int),
        decreases entries.len() - i,
    {
        assert(entries@.skip(i as int).drop_first() =~= entries@.skip(i + 1));
        assert(entries@.skip(i as int)[0] == entries@[i as int]);
        if entries[i].is_file && manifest_name(entries[i].name.as_str()) {
            return Some(i);
        }
        i = i + 1;
    }
    None
}

/// The lowercased names of the audio files of a listing, in order: the files,
/// without the import manifests.
pub open spec fn file_keys(entries: Seq<DirEntry>) -> StrSeq
    decreases entries.len(),
{
    if entries.len() == 0 {
        Seq::empty()
    } else {
        let e = entries.last();
        if e.is_file && !is_manifest_name(e.name@) {
            file_keys(entries.drop_last()).push(lowercase(e.name@))
        } else {
            file_keys(entries.drop_last())
        }
    }
}

/// The number of distinct audio files of a listing, names compared ignoring case.
pub open spec fn unique_file_count(entries: Seq<DirEntry>) -> nat {
    file_keys(entries).to_set().len()
}

/// Whether `s` is one of the strings of `v`.
pub fn contains_string(v: &Vec<String>, s: &String) -> (r: bool)
    ensures
        r == seq_strings(v@).contains(s@),
{
    let mut i: usize = 0;
    while i < v.len()
        invariant
            i <= v.len(),
            forall|j: int| 0 <= j < i ==> seq_strings(v@)[j] != s@,
        decreases v.len() - i,
    {
        if v[i] == *s {
            assert(seq_strings(v@)[i as int] == s@);
            return true;
        }
        i = i + 1;
    }
    false
}

/// The number of distinct audio files in a listing, names compared ignoring
/// case; import manifests are not counted.
pub fn count_unique_files(entries: &Vec<DirEntry>) -> (n: usize)
    ensures
        n == unique_file_count(entries@),
{
    broadcast use vstd::seq_lib::group_seq_properties;

    let mut keys: Vec<String> = Vec::new();
    assert(entries@.take(0) =~= Seq::<DirEntry>::empty());
    assert(seq_strings(keys@).to_set() =~= file_keys(entries@.take(0)).to_set());
    for i in 0..entries.len()
        invariant
            seq_strings(keys@).no_duplicates(),
            seq_strings(keys@).to_set() == file_keys(entries@.take(i as int)).to_set(),
    {
        let e = &entries[i];
        assert(entries@.take(i + 1).drop_last() =~= entries@.take(i as int));
        assert(entries@.take(i + 1).last() == entries@[i as int]);
        if e.is_file && !manifest_name(e.name.as_str()) {
            let key = to_lowercase(e.name.as_str());
            let ghost before = seq_strings(keys@);
            if !contains_string(&keys, &key) {
                keys.push(key);
                assert(seq_strings(keys@) =~= before.push(key@));
                proof {
                    before.lemma_push_to_set_commute(key@);
                }
                assert(seq_strings(keys@).no_duplicates()) by {
                    assert forall|a: int, b: int|
                        0 <= a < b < seq_strings(keys@).len() implies seq_strings(keys@)[a] != seq_strings(
                        keys@,
                    )[b] by {
                        if b == seq_strings(keys@).len() - 1 {
                            assert(before.contains(before[a]));
                        }
                    }
                }
            } else {
                assert(before.to_set().contains(key@));
                assert(before.to_set().insert(key@) =~= before.to_set());
            }
            assert(file_keys(entries@.take(i + 1)) == file_keys(entries@.take(i as int)).push(key@));
            proof {
                file_keys(entries@.take(i as int)).lemma_push_to_set_commute(key@);
            }
        }
    }
    assert(entries@.take(entries.len() as int) =~= entries@);
    proof {
        seq_strings(keys@).unique_seq_to_set();
    }
    keys.len()
}

// ---------------------------------------------------------------------------
// Import manifests

/// The track an entry of an import manifest stands for.
pub open spec fn manifest_track(entry: Json, path: Seq<char>) -> TrackFileView {
    TrackFileView {
        name: text_or(json_text(json_get(Some(entry), "title"@)), "Unknown track"@),
        path: path,
        size_bytes: 0,
        modified: None,
        remote: Some(
            RemoteView {
                artist: text_or(json_text(json_get(Some(entry), "artist"@)), Seq::empty()),
                album: text_or(json_text(json_get(Some(entry), "album"@)), Seq::empty()),
                duration_secs: match json_unsigned(json_get(Some(entry), "duration_secs"@)) {
                    Some(d) => d,
                    None => 0,
                },
                external_id: json_text(json_get(Some(entry), "id"@)),
            },
        ),
    }
}

/// The tracks an import manifest lists, when it is a JSON array.
pub open spec fn manifest_tracks(doc: Json, path: Seq<char>) -> Option<Seq<TrackFileView>> {
    match json_items(Some(doc)) {
        Some(entries) => Some(entries.map_values(|e: Json| manifest_track(e, path))),
        None => None,
    }
}

fn track_from_entry(entry: &Json, path: &String) -> (t: TrackFile)
    ensures
        t@ == manifest_track(*entry, path@),
{
    proof {
        reveal_strlit("Unknown track");
        reveal_strlit("");
    }
    let r = Some(entry);
    let name = text_or_default(get(r, "title"), "Unknown track");
    let artist = text_or_default(get(r, "artist"), "");
    let album = text_or_default(get(r, "album"), "");
    let duration_secs = match unsigned(get(r, "duration_secs")) {
        Some(d) => d,
        None => 0,
    };
    let external_id = text(get(r, "id"));
    let ghost e = *entry;
    assert(name@ == text_or(json_text(json_get(Some(e), "title"@)), "Unknown track"@));
    assert(artist@ == text_or(json_text(json_get(Some(e), "artist"@)), Seq::empty()));
    assert(album@ == text_or(json_text(json_get(Some(e), "album"@)), Seq::empty()));
    assert(duration_secs == match json_unsigned(json_get(Some(e), "duration_secs"@)) {
        Some(d) => d,
        None => 0,
    });
    assert(crate::tracks::opt_view(external_id) == json_text(json_get(Some(e), "id"@)));
    let remote = RemoteTrackMetadata { artist, album, duration_secs, external_id };
    assert(remote@ == manifest_track(e, path@).remote.unwrap());
    let t = TrackFile { name, path: path.clone(), size_bytes: 0, modified: None, remote_metadata: Some(remote) };
    assert(t@.remote == manifest_track(e, path@).remote);
    t
}

/// The tracks listed by an import manifest read from `path`: one per entry,
/// with its title (or "Unknown track"), artist, album, duration and service
/// id; `None` when the document is not a JSON array.
pub fn read_manifest(doc: &Json, path: &String) -> (r: Option<Vec<TrackFile>>)
    ensures
        match r {
            Some(v) => manifest_tracks(*doc, path@) == Some(v@.map_values(|t: TrackFile| t@)),
            None => manifest_tracks(*doc, path@) is None,
        },
{
    let entries = match items(Some(doc)) {
        Some(v) => v,
        None => return None,
    };
    let mut tracks: Vec<TrackFile> = Vec::new();
    for i in 0..entries.len()
        invariant
            json_items(Some(*doc)) == Some(entries@),
            tracks.len() == i,
            forall|j: int| 0 <= j < i ==> #[trigger] tracks@[j]@ == manifest_track(entries@[j], path@),
    {
        tracks.push(track_from_entry(&entries[i], path));
    }
    assert(tracks@.map_values(|t: TrackFile| t@) =~= entries@.map_values(|e: Json| manifest_track(e, path@)));
    Some(tracks)
}

/// The number of tracks a playlist folder should have: the length of its
/// import manifest when it has one that reads as a list, else the number of
/// its distinct audio files.
pub open spec fn track_count_of(files: Seq<DirEntry>, manifest: Option<Json>) -> nat {
    match (manifest_index(files), manifest) {
        (Some(_), Some(doc)) => match json_items(Some(doc)) {
            Some(entries) => entries.len(),
            None => unique_file_count(files),
        },
        _ => unique_file_count(files),
    }
}

/// The number of tracks a playlist folder should have, from its listing and
/// from the import manifest that `find_manifest` points to, as read
/// (`None` when there is none or it could not be read or parsed).
pub fn track_count_for(files: &Vec<DirEntry>, manifest: &Option<Json>) -> (n: usize)
    ensures
        n == track_count_of(files@, *manifest),
{
    if find_manifest(files).is_some() {
        match manifest {
            Some(doc) => match items(Some(doc)) {
                Some(v) => return v.len(),
                None => {},
            },
            None => {},
        }
    }
    count_unique_files(files)
}

// ---------------------------------------------------------------------------
// Scanning a crate

/// One entry of a crate path's listing, with what the shell read of it when it
/// is a folder: the listing of the folder, and the import manifest that
/// `find_manifest` points to in it, parsed (`None` when there is none, or it
/// could not be read or parsed).
#[derive(Debug)]
pub struct FolderEntry {
    pub name: String,
    pub is_dir: bool,
    pub files: Vec<DirEntry>,
    pub manifest: Option<Json>,
}

/// A playlist folder found under one path: its key (the trimmed name
/// lowercased), its trimmed name, and its two counts.
pub struct Hit {
    pub key: Seq<char>,
    pub name: Seq<char>,
    pub tracks: nat,
    pub downloaded: nat,
}

/// The keys of some hits.
pub open spec fn hit_keys(hits: Seq<Hit>) -> StrSeq {
    hits.map_values(|h: Hit| h.key)
}

/// The playlist folders of one path, in listing order: the folders with a
/// non-empty trimmed name, each key taken once.
pub open spec fn location_hits(entries: Seq<FolderEntry>) -> Seq<Hit>
    decreases entries.len(),
{
    if entries.len() == 0 {
        Seq::empty()
    } else {
        let prev = location_hits(entries.drop_last());
        let e = entries.last();
        let name = trimmed(e.name@);
        let key = lowercase(name);
        if e.is_dir && name.len() > 0 && !hit_keys(prev).contains(key) {
            prev.push(
                Hit {
                    key: key,
                    name: name,
                    tracks: track_count_of(e.files@, e.manifest),
                    downloaded: unique_file_count(e.files@),
                },
            )
        } else {
            prev
        }
    }
}

/// The entries of a listing that could be read; none when it could not.
pub open spec fn listed(l: Option<Vec<FolderEntry>>) -> Seq<FolderEntry> {
    match l {
        Some(v) => v@,
        None => Seq::empty(),
    }
}

/// The playlist folders of every path, path after path.
pub open spec fn all_hits(listings: Seq<Option<Vec<FolderEntry>>>) -> Seq<Hit>
    decreases listings.len(),
{
    if listings.len() == 0 {
        Seq::empty()
    } else {
        all_hits(listings.drop_last()) + location_hits(listed(listings.last()))
    }
}

/// What the hits with key `key` add up to: the name of the first of them, the
/// largest counts, and how many there are.
pub struct Tally {
    pub name: Seq<char>,
    pub tracks: nat,
    pub downloaded: nat,
    pub seen: nat,
}

pub open spec fn tally(hits: Seq<Hit>, key: Seq<char>) -> Tally
    decreases hits.len(),
{
    if hits.len() == 0 {
        Tally { name: Seq::empty(), tracks: 0, downloaded: 0, seen: 0 }
    } else {
        let t = tally(hits.drop_last(), key);
        let h = hits.last();
        if h.key == key {
            Tally {
                name: if t.seen == 0 { h.name } else { t.name },
                tracks: if h.tracks > t.tracks { h.tracks } else { t.tracks },
                downloaded: if h.downloaded > t.downloaded { h.downloaded } else { t.downloaded },
                seen: t.seen + 1,
            }
        } else {
            t
        }
    }
}

/// The playlist a key stands for: synced counts the downloaded tracks (never
/// more than the track count) when the folder is under every path, else none.
pub open spec fn scanned_playlist(t: Tally, path_count: nat) -> PlaylistView {
    let needed = if path_count > 1 { path_count } else { 1 };
    PlaylistView {
        name: t.name,
        track_count: t.tracks as usize,
        synced: if t.seen >= needed {
            (if t.downloaded < t.tracks { t.downloaded } else { t.tracks }) as usize
        } else {
            0
        },
        tags: Seq::empty(),
        link: None,
    }
}

/// The playlists of a crate, ordered by key.
pub open spec fn scan_view(path_count: nat, listings: Seq<Option<Vec<FolderEntry>>>) -> Seq<PlaylistView> {
    let hits = all_hits(listings);
    sorted_distinct(hit_keys(hits)).map_values(|k: Seq<char>| scanned_playlist(tally(hits, k), path_count))
}

/// Whether every hit's key is its name lowercased.
pub open spec fn keyed_by_name(hits: Seq<Hit>) -> bool {
    forall|i: int| 0 <= i < hits.len() ==> #[trigger] hits[i].key == lowercase(hits[i].name)
}

proof fn lemma_location_keyed(entries: Seq<FolderEntry>)
    ensures
        keyed_by_name(location_hits(entries)),
    decreases entries.len(),
{
    if entries.len() > 0 {
        lemma_location_keyed(entries.drop_last());
    }
}

proof fn lemma_all_keyed(listings: Seq<Option<Vec<FolderEntry>>>)
    ensures
        keyed_by_name(all_hits(listings)),
    decreases listings.len(),
{
    if listings.len() > 0 {
        lemma_all_keyed(listings.drop_last());
        lemma_location_keyed(listed(listings.last()));
        let a = all_hits(listings.drop_last());
        let b = location_hits(listed(listings.last()));
        assert forall|i: int| 0 <= i < (a + b).len() implies #[trigger] (a + b)[i].key == lowercase((a + b)[i].name) by {
            if i < a.len() {
                assert((a + b)[i] == a[i]);
            } else {
                assert((a + b)[i] == b[i - a.len()]);
            }
        }
    }
}

proof fn lemma_tally_named(hits: Seq<Hit>, key: Seq<char>)
    requires
        keyed_by_name(hits),
    ensures
        tally(hits, key).seen > 0 ==> lowercase(tally(hits, key).name) == key,
        hit_keys(hits).contains(key) ==> tally(hits, key).seen > 0,
    decreases hits.len(),
{
    if hits.len() > 0 {
        let prev = hits.drop_last();
        assert(keyed_by_name(prev)) by {
            assert forall|i: int| 0 <= i < prev.len() implies #[trigger] prev[i].key == lowercase(prev[i].name) by {
                assert(prev[i] == hits[i]);
            }
        }
        lemma_tally_named(prev, key);
        assert(hits.last() == hits[hits.len() - 1]);
        if hit_keys(hits).contains(key) {
            let k = choose|k: int| 0 <= k < hit_keys(hits).len() && hit_keys(hits)[k] == key;
            if k < hits.len() - 1 {
                assert(hit_keys(prev)[k] == key);
                assert(hit_keys(prev).contains(key));
            }
        }
    }
}

/// Folders whose names differ only in case are one playlist: no two playlists
/// of a scan have the same name, ignoring case, however many paths mirror the
/// same folders.
pub proof fn lemma_scan_names_distinct(path_count: nat, listings: Seq<Option<Vec<FolderEntry>>>, i: int, j: int)
    requires
        0 <= i < j < scan_view(path_count, listings).len(),
    ensures
        lowercase(scan_view(path_count, listings)[i].name) != lowercase(scan_view(path_count, listings)[j].name),
{
    let hits = all_hits(listings);
    let keys = sorted_distinct(hit_keys(hits));
    crate::order::lemma_sorted_distinct(hit_keys(hits));
    lemma_all_keyed(listings);
    assert(keys.to_set().contains(keys[i]) && keys.to_set().contains(keys[j])) by {
        broadcast use vstd::seq_lib::group_seq_properties;
        assert(keys.contains(keys[i]));
        assert(keys.contains(keys[j]));
    }
    assert(hit_keys(hits).contains(keys[i]) && hit_keys(hits).contains(keys[j])) by {
        broadcast use vstd::seq_lib::group_seq_properties;
    }
    lemma_tally_named(hits, keys[i]);
    lemma_tally_named(hits, keys[j]);
    assert(crate::order::lex_lt(keys[i], keys[j]));
    crate::order::lemma_lex_irreflexive(keys[i]);
}

/// The tally of a key holds the largest counts of its hits: at least the
/// counts of every hit with that key, each equal to the count of one of them,
/// whatever order the hits come in.
proof fn lemma_tally_max(hits: Seq<Hit>, key: Seq<char>)
    ensures
        forall|i: int| 0 <= i < hits.len() && #[trigger] hits[i].key == key ==> tally(hits, key).tracks >= hits[i].tracks
            && tally(hits, key).downloaded >= hits[i].downloaded,
        tally(hits, key).seen > 0 ==> exists|i: int|
            0 <= i < hits.len() && #[trigger] hits[i].key == key && hits[i].tracks == tally(hits, key).tracks,
        tally(hits, key).seen > 0 ==> exists|i: int|
            0 <= i < hits.len() && #[trigger] hits[i].key == key && hits[i].downloaded == tally(hits, key).downloaded,
        tally(hits, key).seen == 0 ==> tally(hits, key).tracks == 0 && tally(hits, key).downloaded == 0,
    decreases hits.len(),
{
    if hits.len() > 0 {
        let prev = hits.drop_last();
        lemma_tally_max(prev, key);
        assert forall|i: int| 0 <= i < prev.len() implies prev[i] == hits[i] by {}
        let t = tally(hits, key);
        if t.seen > 0 {
            let tp = tally(prev, key);
            if hits.last().key == key {
                if hits.last().tracks <= tp.tracks && tp.seen > 0 {
                    let k = choose|k: int| 0 <= k < prev.len() && #[trigger] prev[k].key == key && prev[k].tracks == tp.tracks;
                    assert(hits[k] == prev[k]);
                } else {
                    assert(hits[hits.len() - 1] == hits.last());
                }
                if hits.last().downloaded <= tp.downloaded && tp.seen > 0 {
                    let k = choose|k: int| 0 <= k < prev.len() && #[trigger] prev[k].key == key && prev[k].downloaded
                        == tp.downloaded;
                    assert(hits[k] == prev[k]);
                } else {
                    assert(hits[hits.len() - 1] == hits.last());
                }
            } else {
                let k = choose|k: int| 0 <= k < prev.len() && #[trigger] prev[k].key == key && prev[k].tracks == tp.tracks;
                assert(hits[k] == prev[k]);
                let k2 = choose|k: int| 0 <= k < prev.len() && #[trigger] prev[k].key == key && prev[k].downloaded
                    == tp.downloaded;
                assert(hits[k2] == prev[k2]);
            }
        }
    }
}

/// A scanned playlist's track count is the largest found under any path: it
/// is at least the track count of every folder of that name (ignoring case)
/// under every path, and equal to that of one of them, whatever order the
/// paths come in. (Counts are taken to fit a `usize`, as counts of listed
/// files do.)
pub proof fn lemma_scan_track_count(path_count: nat, listings: Seq<Option<Vec<FolderEntry>>>, j: int)
    requires
        0 <= j < scan_view(path_count, listings).len(),
        forall|i: int| 0 <= i < all_hits(listings).len() ==> #[trigger] all_hits(listings)[i].tracks <= usize::MAX,
    ensures
        ({
            let p = scan_view(path_count, listings)[j];
            let hits = all_hits(listings);
            &&& forall|i: int|
                0 <= i < hits.len() && lowercase(#[trigger] hits[i].name) == lowercase(p.name) ==> p.track_count
                    >= hits[i].tracks
            &&& exists|i: int|
                0 <= i < hits.len() && lowercase(#[trigger] hits[i].name) == lowercase(p.name) && p.track_count
                    == hits[i].tracks
        }),
{
    let hits = all_hits(listings);
    let keys = sorted_distinct(hit_keys(hits));
    let key = keys[j];
    crate::order::lemma_sorted_distinct(hit_keys(hits));
    lemma_all_keyed(listings);
    assert(keys.to_set().contains(key)) by {
        broadcast use vstd::seq_lib::group_seq_properties;
        assert(keys.contains(key));
    }
    assert(hit_keys(hits).contains(key)) by {
        broadcast use vstd::seq_lib::group_seq_properties;
    }
    lemma_tally_named(hits, key);
    lemma_tally_max(hits, key);
    let t = tally(hits, key);
    let p = scan_view(path_count, listings)[j];
    assert(p == scanned_playlist(t, path_count));
    let k = choose|k: int| 0 <= k < hits.len() && #[trigger] hits[k].key == key && hits[k].tracks == t.tracks;
    assert(hits[k].key == lowercase(hits[k].name));
    assert(lowercase(hits[k].name) == lowercase(p.name));
    assert forall|i: int| 0 <= i < hits.len() && lowercase(#[trigger] hits[i].name) == lowercase(p.name) implies p.track_count
        >= hits[i].tracks by {
        assert(hits[i].key == lowercase(hits[i].name));
    }
}

struct HitRecord {
    key: String,
    name: String,
    tracks: usize,
    downloaded: usize,
}

spec fn record_view(r: HitRecord) -> Hit {
    Hit { key: r.key@, name: r.name@, tracks: r.tracks as nat, downloaded: r.downloaded as nat }
}

spec fn records_view(v: Seq<HitRecord>) -> Seq<Hit> {
    v.map_values(|r: HitRecord| record_view(r))
}

fn has_key(hits: &Vec<HitRecord>, from: usize, key: &String) -> (r: bool)
    requires
        from <= hits.len(),
    ensures
        r == hit_keys(records_view(hits@).skip(from as int)).contains(key@),
{
    let ghost tail = hit_keys(records_view(hits@).skip(from as int));
    let mut i = from;
    while i < hits.len()
        invariant
            from <= i <= hits.len(),
            tail == hit_keys(records_view(hits@).skip(from as int)),
            forall|j: int| 0 <= j < i - from ==> tail[j] != key@,
        decreases hits.len() - i,
    {
        if hits[i].key == *key {
            assert(tail[i - from] == key@);
            return true;
        }
        i = i + 1;
    }
    false
}

/// Adds the playlist folders of one path's listing to `hits`.
fn add_location_hits(hits: &mut Vec<HitRecord>, entries: &Vec<FolderEntry>)
    ensures
        records_view(final(hits)@) == records_view(old(hits)@) + location_hits(entries@),
{
    let ghost start = records_view(hits@);
    let from = hits.len();
    assert(entries@.take(0) =~= Seq::<FolderEntry>::empty());
    assert(records_view(hits@) =~= start + location_hits(entries@.take(0)));
    for i in 0..entries.len()
        invariant
            from == start.len(),
            records_view(hits@) == start + location_hits(entries@.take(i as int)),
    {
        let e = &entries[i];
        assert(entries@.take(i + 1).drop_last() =~= entries@.take(i as int));
        assert(entries@.take(i + 1).last() == entries@[i as int]);
        let ghost prev = location_hits(entries@.take(i as int));
        assert(records_view(hits@).skip(from as int) =~= prev);
        if e.is_dir {
            let name = trim(e.name.as_str());
            if !name.as_str().is_empty() {
                let key = to_lowercase(name.as_str());
                if !has_key(hits, from, &key) {
                    let tracks = track_count_for(&e.files, &e.manifest);
                    let downloaded = count_unique_files(&e.files);
                    let ghost before = records_view(hits@);
                    hits.push(HitRecord { key, name, tracks, downloaded });
                    assert(records_view(hits@) =~= before.push(
                        Hit { key: key@, name: name@, tracks: tracks as nat, downloaded: downloaded as nat },
                    ));
                }
            }
        }
    }
    assert(entries@.take(entries.len() as int) =~= entries@);
}

fn tally_of(hits: &Vec<HitRecord>, key: &String) -> (r: (String, usize, usize, usize))
    ensures
        ({
            let t = tally(records_view(hits@), key@);
            r.0@ == t.name && r.1 == t.tracks && r.2 == t.downloaded && r.3 == t.seen
        }),
{
    let mut name = String::new();
    let mut tracks: usize = 0;
    let mut downloaded: usize = 0;
    let mut seen: usize = 0;
    assert(records_view(hits@).take(0) =~= Seq::<Hit>::empty());
    for i in 0..hits.len()
        invariant
            ({
                let t = tally(records_view(hits@).take(i as int), key@);
                name@ == t.name && tracks == t.tracks && downloaded == t.downloaded && seen == t.seen
            }),
            seen <= i,
    {
        assert(records_view(hits@).take(i + 1).drop_last() =~= records_view(hits@).take(i as int));
        assert(records_view(hits@).take(i + 1).last() == record_view(hits@[i as int]));
        let h = &hits[i];
        if h.key == *key {
            if seen == 0 {
                name = h.name.clone();
            }
            if h.tracks > tracks {
                tracks = h.tracks;
            }
            if h.downloaded > downloaded {
                downloaded = h.downloaded;
            }
            seen = seen + 1;
        }
    }
    assert(records_view(hits@).take(hits.len() as int) =~= records_view(hits@));
    (name, tracks, downloaded, seen)
}

/// The playlists found under a crate's paths. `listings[i]` is the listing of
/// the crate's path `i` (`None` when it could not be read). Each folder with a
/// non-empty trimmed name is a playlist; folders whose names differ only in
/// case are one playlist, named as it was first found. Its track count is the
/// largest found under any path, and it is synced up to the downloaded count
/// only when every path has it. The playlists come ordered by lowercased name,
/// with no tags and no link.
pub fn scan_crate_playlists(crate_location: &CrateLocation, listings: &Vec<Option<Vec<FolderEntry>>>) -> (r: Vec<Playlist>)
    requires
        listings.len() == crate_location.locations.len(),
    ensures
        r@.map_values(|p: Playlist| p@) == scan_view(crate_location.locations.len() as nat, listings@),
        forall|i: int| 0 <= i < r.len() ==> #[trigger] r@[i].synced <= r@[i].track_count,
{
    let mut hits: Vec<HitRecord> = Vec::new();
    assert(listings@.take(0) =~= Seq::<Option<Vec<FolderEntry>>>::empty());
    for i in 0..listings.len()
        invariant
            records_view(hits@) == all_hits(listings@.take(i as int)),
    {
        assert(listings@.take(i + 1).drop_last() =~= listings@.take(i as int));
        assert(listings@.take(i + 1).last() == listings@[i as int]);
        match &listings[i] {
            Some(entries) => add_location_hits(&mut hits, entries),
            None => {
                assert(records_view(hits@) =~= records_view(hits@) + location_hits(Seq::<FolderEntry>::empty()));
            },
        }
    }
    assert(listings@.take(listings.len() as int) =~= listings@);
    let ghost all = records_view(hits@);
    let mut keys: Vec<String> = Vec::new();
    assert(hit_keys(all).take(0) =~= Seq::<Seq<char>>::empty());
    for i in 0..hits.len()
        invariant
            all == records_view(hits@),
            seq_strings(keys@) == sorted_distinct(hit_keys(all).take(i as int)),
    {
        assert(hit_keys(all).take(i + 1).drop_last() =~= hit_keys(all).take(i as int));
        assert(hit_keys(all).take(i + 1).last() == hits@[i as int].key@);
        insert_distinct(&mut keys, hits[i].key.clone());
    }
    assert(hit_keys(all).take(hits.len() as int) =~= hit_keys(all));
    let path_count = crate_location.locations.len();
    let needed: usize = if path_count > 1 { path_count } else { 1 };
    let ghost ks = seq_strings(keys@);
    let mut r: Vec<Playlist> = Vec::new();
    for j in 0..keys.len()
        invariant
            all == records_view(hits@),
            ks == seq_strings(keys@),
            needed == (if path_count > 1 { path_count } else { 1 }),
            r.len() == j,
            forall|m: int| 0 <= m < j ==> #[trigger] r@[m]@ == scanned_playlist(tally(all, ks[m]), path_count as nat),
            forall|m: int| 0 <= m < j ==> #[trigger] r@[m].synced <= r@[m].track_count,
    {
        let (name, tracks, downloaded, seen) = tally_of(&hits, &keys[j]);
        let synced = if seen >= needed {
            if downloaded < tracks { downloaded } else { tracks }
        } else {
            0
        };
        let p = Playlist { name, track_count: tracks, synced, tags: Vec::new(), link: None };
        assert(p@.tags =~= Seq::<Seq<char>>::empty());
        r.push(p);
    }
    assert(r@.map_values(|p: Playlist| p@) =~= scan_view(path_count as nat, listings@));
    r
}

// ---------------------------------------------------------------------------
// The tracks of one playlist

/// `s` with every run of characters other than letters and digits (a space
/// is neither) turned into one space.
pub open spec fn squeezed(s: Seq<char>) -> Seq<char>
    decreases s.len(),
{
    if s.len() == 0 {
        Seq::empty()
    } else {
        let p = squeezed(s.drop_last());
        let c = s.last();
        if is_alphanumeric_char(c) && c != ' ' {
            p.push(c)
        } else if p.len() > 0 && p.last() == ' ' {
            p
        } else {
            p.push(' ')
        }
    }
}

/// Loosening never leaves two spaces in a row: each run of separators is one space.
pub proof fn lemma_squeezed_single_spaces(s: Seq<char>)
    ensures
        forall|i: int| 0 <= i < squeezed(s).len() - 1 ==> !(#[trigger] squeezed(s)[i] == ' ' && squeezed(s)[i + 1] == ' '),
    decreases s.len(),
{
    if s.len() > 0 {
        lemma_squeezed_single_spaces(s.drop_last());
        let p = squeezed(s.drop_last());
        let q = squeezed(s);
        assert forall|i: int| 0 <= i < q.len() - 1 implies !(#[trigger] q[i] == ' ' && q[i + 1] == ' ') by {
            if i < p.len() - 1 {
                assert(q[i] == p[i] && q[i + 1] == p[i + 1]);
            }
        }
    }
}

/// Whether a character is kept by loosening: a letter or digit.
pub open spec fn kept_char(c: char) -> bool {
    is_alphanumeric_char(c) && c != ' '
}

/// Loosening keeps every letter and digit, in order, and adds only spaces:
/// without its spaces, the loosened text is exactly the letters and digits of
/// the text.
pub proof fn lemma_squeezed_keeps_letters_and_digits(s: Seq<char>)
    ensures
        squeezed(s).filter(|c: char| c != ' ') == s.filter(|c: char| kept_char(c)),
        forall|i: int| 0 <= i < squeezed(s).len() ==> kept_char(#[trigger] squeezed(s)[i]) || squeezed(s)[i] == ' ',
    decreases s.len(),
{
    reveal(Seq::filter);
    if s.len() > 0 {
        lemma_squeezed_keeps_letters_and_digits(s.drop_last());
        let p = squeezed(s.drop_last());
        let c = s.last();
        let q = squeezed(s);
        assert(s.filter(|c: char| kept_char(c)) == if kept_char(c) {
            s.drop_last().filter(|c: char| kept_char(c)).push(c)
        } else {
            s.drop_last().filter(|c: char| kept_char(c))
        });
        if kept_char(c) {
            assert(q == p.push(c));
            assert(q.drop_last() =~= p);
        } else if p.len() > 0 && p.last() == ' ' {
            assert(q == p);
        } else {
            assert(q == p.push(' '));
            assert(q.drop_last() =~= p);
        }
        assert forall|i: int| 0 <= i < q.len() implies kept_char(#[trigger] q[i]) || q[i] == ' ' by {
            if i < p.len() {
                assert(q[i] == p[i]);
            }
        }
    }
}

/// A title or file name loosened for matching: lowercased, squeezed, and
/// trimmed; the form in which a manifest title is looked for in a file name.
pub open spec fn normalized(text: Seq<char>) -> Seq<char> {
    trimmed(squeezed(lowercase(text)))
}

/// `text` lowercased, every run of characters other than letters and digits
/// made one space, and trimmed.
pub fn normalize_for_match(text: &str) -> (r: String)
    ensures
        r@ == normalized(text@),
{
    let lower = to_lowercase(text);
    let chars = chars_of(lower.as_str());
    let mut out = String::new();
    let mut last_was_space = false;
    assert(chars@.take(0) =~= Seq::<char>::empty());
    for i in 0..chars.len()
        invariant
            chars@ == lower@,
            out@ == squeezed(chars@.take(i as int)),
            last_was_space == (out@.len() > 0 && out@.last() == ' '),
    {
        let c = chars[i];
        assert(chars@.take(i + 1).drop_last() =~= chars@.take(i as int));
        assert(chars@.take(i + 1).last() == c);
        if char_is_alphanumeric(c) {
            push_char(&mut out, c);
            last_was_space = false;
        } else if !last_was_space {
            push_char(&mut out, ' ');
            last_was_space = true;
        }
    }
    assert(chars@.take(chars.len() as int) =~= chars@);
    trim(out.as_str())
}

/// One file of a playlist folder.
#[derive(Debug, Clone)]
pub struct FileInfo {
    pub entry: DirEntry,
    pub path: String,
    pub size_bytes: u64,
    /// Last modification, in seconds since the Unix epoch, when known.
    pub modified: Option<u64>,
}

/// The listing entries of some files.
pub open spec fn entries_of(files: Seq<FileInfo>) -> Seq<DirEntry> {
    files.map_values(|f: FileInfo| f.entry)
}

/// The listing entries of a folder's files, as `find_manifest` takes them.
pub fn listing_of(files: &Vec<FileInfo>) -> (r: Vec<DirEntry>)
    ensures
        r@ == entries_of(files@),
{
    let mut r: Vec<DirEntry> = Vec::new();
    for i in 0..files.len()
        invariant
            r@ == entries_of(files@.take(i as int)),
    {
        let e = &files[i].entry;
        let d = DirEntry { name: e.name.clone(), is_dir: e.is_dir, is_file: e.is_file };
        assert(d == files@[i as int].entry);
        r.push(d);
        assert(entries_of(files@.take(i + 1)) =~= entries_of(files@.take(i as int)).push(files@[i as int].entry));
    }
    assert(files@.take(files.len() as int) =~= files@);
    r
}

/// The audio files of a folder as tracks, in listing order.
pub open spec fn local_tracks(files: Seq<FileInfo>) -> Seq<TrackFileView>
    decreases files.len(),
{
    if files.len() == 0 {
        Seq::empty()
    } else {
        let f = files.last();
        if f.entry.is_file && !is_manifest_name(f.entry.name@) {
            local_tracks(files.drop_last()).push(
                TrackFileView {
                    name: f.entry.name@,
                    path: f.path@,
                    size_bytes: f.size_bytes,
                    modified: f.modified,
                    remote: None,
                },
            )
        } else {
            local_tracks(files.drop_last())
        }
    }
}

/// Whether some file name, loosened, contains the loosened `title`.
pub open spec fn title_present(local: Seq<TrackFileView>, title: Seq<char>) -> bool {
    exists|i: int| 0 <= i < local.len() && crate::text::has_substring(normalized(#[trigger] local[i].name), normalized(title))
}

/// The manifest tracks that no file of the folder stands for yet.
pub open spec fn missing_tracks(local: Seq<TrackFileView>, listed: Seq<TrackFileView>) -> Seq<TrackFileView> {
    listed.filter(|t: TrackFileView| !title_present(local, t.name))
}

/// The tracks of a folder before they are ordered: its audio files, then the
/// tracks of its import manifest that none of the files stands for.
pub open spec fn unordered_tracks(files: Seq<FileInfo>, manifest: Option<Json>, manifest_path: Seq<char>) -> Seq<TrackFileView> {
    let local = local_tracks(files);
    match (manifest_index(entries_of(files)), manifest) {
        (Some(_), Some(doc)) => match manifest_tracks(doc, manifest_path) {
            Some(listed) => local + missing_tracks(local, listed),
            None => local,
        },
        _ => local,
    }
}

/// An import manifest's entries come back as tracks exactly when no audio
/// file stands for them: with a manifest, the tracks of a folder are its audio
/// files and each manifest entry whose loosened title no loosened file name
/// contains, and nothing else.
pub proof fn lemma_manifest_entries_listed(files: Seq<FileInfo>, doc: Json, manifest_path: Seq<char>)
    requires
        manifest_index(entries_of(files)) is Some,
        manifest_tracks(doc, manifest_path) is Some,
    ensures
        ({
            let local = local_tracks(files);
            let listed = manifest_tracks(doc, manifest_path).unwrap();
            let all = unordered_tracks(files, Some(doc), manifest_path);
            &&& forall|i: int| 0 <= i < local.len() ==> all.contains(#[trigger] local[i])
            &&& forall|k: int|
                0 <= k < listed.len() && (forall|i: int|
                    0 <= i < local.len() ==> !crate::text::has_substring(
                        normalized(#[trigger] local[i].name),
                        normalized(listed[k].name),
                    )) ==> all.contains(#[trigger] listed[k])
            &&& forall|t: TrackFileView| #[trigger] all.contains(t) ==> local.contains(t) || (listed.contains(t) && forall|i: int|
                0 <= i < local.len() ==> !crate::text::has_substring(normalized(#[trigger] local[i].name), normalized(t.name)))
        }),
{
    broadcast use vstd::seq_lib::group_seq_properties;
    broadcast use vstd::seq_lib::group_filter_ensures;
    let local = local_tracks(files);
    let listed = manifest_tracks(doc, manifest_path).unwrap();
    let all = unordered_tracks(files, Some(doc), manifest_path);
    let miss = missing_tracks(local, listed);
    assert(all == local + miss);
    assert forall|i: int| 0 <= i < local.len() implies all.contains(#[trigger] local[i]) by {
        assert(all[i] == local[i]);
    }
    assert forall|k: int|
        0 <= k < listed.len() && (forall|i: int|
            0 <= i < local.len() ==> !crate::text::has_substring(
                normalized(#[trigger] local[i].name),
                normalized(listed[k].name),
            )) implies all.contains(#[trigger] listed[k]) by {
        assert(!title_present(local, listed[k].name));
        assert(listed.contains(listed[k]));
        assert(miss.contains(listed[k]));
        let m = choose|m: int| 0 <= m < miss.len() && miss[m] == listed[k];
        assert(all[local.len() + m] == miss[m]);
    }
    assert forall|t: TrackFileView| #[trigger] all.contains(t) implies local.contains(t) || (listed.contains(t) && forall|
        i: int,
    | 0 <= i < local.len() ==> !crate::text::has_substring(normalized(#[trigger] local[i].name), normalized(t.name))) by {
        let m = choose|m: int| 0 <= m < all.len() && all[m] == t;
        if m < local.len() {
            assert(local[m] == t);
        } else {
            let pred = |x: TrackFileView| !title_present(local, x.name);
            assert(miss == listed.filter(pred));
            assert(miss[m - local.len()] == t);
            assert(miss.contains(t));
            listed.lemma_filter_contains_rev(pred, t);
            listed.lemma_filter_pred(pred, m - local.len());
            assert(!title_present(local, t.name));
        }
    }
}

/// Whether tracks come in order of their names.
pub open spec fn ordered_by_name(tracks: Seq<TrackFileView>) -> bool {
    forall|i: int, j: int| 0 <= i < j < tracks.len() ==> !crate::order::lex_lt(#[trigger] tracks[j].name, #[trigger] tracks[i].name)
}

fn local_track_list(files: &Vec<FileInfo>) -> (r: Vec<TrackFile>)
    ensures
        tracks_view(r@) == local_tracks(files@),
{
    let mut r: Vec<TrackFile> = Vec::new();
    assert(files@.take(0) =~= Seq::<FileInfo>::empty());
    for i in 0..files.len()
        invariant
            tracks_view(r@) == local_tracks(files@.take(i as int)),
    {
        let f = &files[i];
        assert(files@.take(i + 1).drop_last() =~= files@.take(i as int));
        assert(files@.take(i + 1).last() == files@[i as int]);
        if f.entry.is_file && !manifest_name(f.entry.name.as_str()) {
            let t = TrackFile {
                name: f.entry.name.clone(),
                path: f.path.clone(),
                size_bytes: f.size_bytes,
                modified: f.modified,
                remote_metadata: None,
            };
            let ghost before = tracks_view(r@);
            r.push(t);
            assert(tracks_view(r@) =~= before.push(t@));
        }
    }
    assert(files@.take(files.len() as int) =~= files@);
    r
}

fn any_contains(names: &Vec<String>, title: &String) -> (r: bool)
    ensures
        r == exists|i: int| 0 <= i < names.len() && crate::text::has_substring(#[trigger] names@[i]@, title@),
{
    let mut i: usize = 0;
    while i < names.len()
        invariant
            i <= names.len(),
            forall|j: int| 0 <= j < i ==> !crate::text::has_substring(#[trigger] names@[j]@, title@),
        decreases names.len() - i,
    {
        if crate::text::contains_str(names[i].as_str(), title.as_str()) {
            return true;
        }
        i = i + 1;
    }
    false
}

/// Inserts `t` into `v` after every track whose name does not come after its own.
fn insert_by_name(v: &mut Vec<TrackFile>, t: TrackFile)
    requires
        ordered_by_name(tracks_view(old(v)@)),
    ensures
        ordered_by_name(tracks_view(final(v)@)),
        tracks_view(final(v)@).to_multiset() == tracks_view(old(v)@).to_multiset().insert(t@),
{
    let ghost s = tracks_view(v@);
    let mut j: usize = 0;
    while j < v.len() && !crate::order::precedes(t.name.as_str(), v[j].name.as_str())
        invariant
            s == tracks_view(v@),
            j <= v.len(),
            forall|k: int| 0 <= k < j ==> !crate::order::lex_lt(t@.name, #[trigger] s[k].name),
        decreases v.len() - j,
    {
        j = j + 1;
    }
    let ghost tv = t@;
    v.insert(j, t);
    proof {
        broadcast use vstd::seq_lib::group_seq_properties;
        let r = tracks_view(v@);
        assert(r =~= s.take(j as int) + seq![tv] + s.skip(j as int));
        assert(s =~= s.take(j as int) + s.skip(j as int));
        vstd::seq_lib::lemma_multiset_commutative(s.take(j as int), s.skip(j as int));
        vstd::seq_lib::lemma_multiset_commutative(s.take(j as int) + seq![tv], s.skip(j as int));
        vstd::seq_lib::lemma_multiset_commutative(s.take(j as int), seq![tv]);
        assert(r.to_multiset() =~= s.to_multiset().insert(tv));
        assert forall|a: int, b: int| 0 <= a < b < r.len() implies !crate::order::lex_lt(
            #[trigger] r[b].name,
            #[trigger] r[a].name,
        ) by {
            if a == j && b > j {
                let x = s[b - 1];
                assert(crate::order::lex_lt(tv.name, s[j as int].name));
                if crate::order::lex_lt(x.name, tv.name) {
                    crate::order::lemma_lex_transitive(x.name, tv.name, s[j as int].name);
                    if b - 1 == j {
                        crate::order::lemma_lex_irreflexive(x.name);
                    }
                }
            } else if a < j && b > j {
                assert(r[a] == s[a] && r[b] == s[b - 1]);
            } else if a > j {
                assert(r[a] == s[a - 1] && r[b] == s[b - 1]);
            } else if b < j {
                assert(r[a] == s[a] && r[b] == s[b]);
            }
        }
    }
}

fn missing_from(local: &Vec<TrackFile>, listed: Vec<TrackFile>) -> (r: Vec<TrackFile>)
    ensures
        tracks_view(r@) == missing_tracks(tracks_view(local@), tracks_view(listed@)),
{
    let ghost lv = tracks_view(local@);
    let mut names: Vec<String> = Vec::new();
    for i in 0..local.len()
        invariant
            lv == tracks_view(local@),
            names.len() == i,
            forall|j: int| 0 <= j < i ==> #[trigger] names@[j]@ == normalized(lv[j].name),
    {
        names.push(normalize_for_match(local[i].name.as_str()));
    }
    let ghost ls = tracks_view(listed@);
    let ghost keep = |t: TrackFileView| !title_present(lv, t.name);
    let mut r: Vec<TrackFile> = Vec::new();
    let total = listed.len();
    let mut rest = listed;
    assert(ls.take(0) =~= Seq::<TrackFileView>::empty());
    assert(ls.skip(0) =~= ls);
    proof {
        reveal(Seq::filter);
    }
    let mut i: usize = 0;
    while rest.len() > 0
        invariant
            lv == tracks_view(local@),
            names.len() == local.len(),
            forall|j: int| 0 <= j < names.len() ==> #[trigger] names@[j]@ == normalized(lv[j].name),
            i + rest.len() == ls.len(),
            ls.len() == total,
            tracks_view(rest@) == ls.skip(i as int),
            keep == (|t: TrackFileView| !title_present(lv, t.name)),
            tracks_view(r@) == ls.take(i as int).filter(keep),
        decreases rest.len(),
    {
        let ghost old_rest = rest@;
        let t = rest.remove(0);
        assert(t@ == tracks_view(old_rest)[0]);
        assert(tracks_view(old_rest)[0] == ls[i as int]);
        assert forall|k: int| 0 <= k < rest.len() implies #[trigger] tracks_view(rest@)[k] == ls.skip(i + 1)[k] by {
            assert(rest@[k] == old_rest[k + 1]);
            assert(tracks_view(old_rest)[k + 1] == ls.skip(i as int)[k + 1]);
        }
        assert(tracks_view(rest@) =~= ls.skip(i + 1));
        let title = normalize_for_match(t.name.as_str());
        let present = any_contains(&names, &title);
        assert(present == title_present(lv, t@.name)) by {
            if present {
                let j = choose|j: int| 0 <= j < names.len() && crate::text::has_substring(#[trigger] names@[j]@, title@);
                assert(crate::text::has_substring(normalized(lv[j].name), normalized(t@.name)));
            }
            if title_present(lv, t@.name) {
                let j = choose|j: int| 0 <= j < lv.len() && crate::text::has_substring(normalized(#[trigger] lv[j].name), normalized(t@.name));
                assert(crate::text::has_substring(names@[j]@, title@));
            }
        }
        assert(ls.take(i + 1).drop_last() =~= ls.take(i as int));
        assert(ls.take(i + 1).last() == t@);
        reveal(Seq::filter);
        assert(keep(t@) == !present);
        if !present {
            let ghost before = tracks_view(r@);
            r.push(t);
            assert(tracks_view(r@) =~= before.push(ls[i as int]));
        }
        i = i + 1;
    }
    assert(ls.take(ls.len() as int) =~= ls);
    r
}

/// The tracks of a playlist folder, ordered by name: its audio files, then
/// the entries of its import manifest whose loosened title no loosened file
/// name contains. `manifest` is the manifest that `find_manifest` points to in
/// the folder's listing, parsed, and `manifest_path` its path; tracks with the
/// same name come in no promised order.
pub fn list_playlist_tracks(files: &Vec<FileInfo>, manifest: &Option<Json>, manifest_path: &String) -> (r: Vec<TrackFile>)
    ensures
        ordered_by_name(tracks_view(r@)),
        tracks_view(r@).to_multiset() == unordered_tracks(files@, *manifest, manifest_path@).to_multiset(),
{
    let local = local_track_list(files);
    let listing = listing_of(files);
    let mut missing: Vec<TrackFile> = Vec::new();
    if find_manifest(&listing).is_some() {
        if let Some(doc) = manifest {
            if let Some(listed) = read_manifest(doc, manifest_path) {
                                missing = missing_from(&local, listed);
            }
        }
    }
    let ghost all = tracks_view(local@) + tracks_view(missing@);
    assert(all == unordered_tracks(files@, *manifest, manifest_path@)) by {
        if !(manifest_index(entries_of(files@)) is Some && manifest is Some && manifest_tracks(manifest.unwrap(), manifest_path@) is Some) {
            assert(tracks_view(missing@) =~= Seq::<TrackFileView>::empty());
            assert(all =~= tracks_view(local@));
        }
    }
    let mut sorted: Vec<TrackFile> = Vec::new();
    let mut pending = local;
    pending.append(&mut missing);
    assert(tracks_view(pending@) =~= all);
    proof {
        broadcast use vstd::seq_lib::group_seq_properties;
        broadcast use vstd::multiset::group_multiset_axioms;
        assert(tracks_view(sorted@) =~= Seq::<TrackFileView>::empty());
        assert(tracks_view(sorted@).to_multiset().add(tracks_view(pending@).to_multiset()) =~= all.to_multiset());
    }
    while pending.len() > 0
        invariant
            ordered_by_name(tracks_view(sorted@)),
            tracks_view(sorted@).to_multiset().add(tracks_view(pending@).to_multiset()) == all.to_multiset(),
        decreases pending.len(),
    {
        let ghost before = tracks_view(pending@);
        let t = pending.pop().unwrap();
        proof {
            broadcast use vstd::seq_lib::group_seq_properties;
            assert(before =~= tracks_view(pending@).push(t@));
        }
        insert_by_name(&mut sorted, t);
        proof {
            broadcast use vstd::multiset::group_multiset_axioms;
            assert(tracks_view(sorted@).to_multiset().add(tracks_view(pending@).to_multiset()) =~= all.to_multiset());
        }
    }
    proof {
        broadcast use vstd::seq_lib::group_seq_properties;
        broadcast use vstd::multiset::group_multiset_axioms;
        assert(tracks_view(pending@) =~= Seq::<TrackFileView>::empty());
        assert(tracks_view(sorted@).to_multiset() =~= all.to_multiset());
    }
    sorted
}

/// The position of the first folder of `entries` whose name, lowercased, is `key`.
pub open spec fn folder_index(entries: Seq<DirEntry>, key: Seq<char>) -> Option<int>
    decreases entries.len(),
{
    if entries.len() == 0 {
        None
    } else if entries[0].is_dir && lowercase(entries[0].name@) == key {
        Some(0)
    } else {
        shifted(folder_index(entries.drop_first(), key), 1)
    }
}

/// The first path, in order, whose listing has a folder named `key` (ignoring
/// case), and that folder's position in the listing.
pub open spec fn folder_match(listings: Seq<Option<Vec<DirEntry>>>, key: Seq<char>) -> Option<(int, int)>
    decreases listings.len(),
{
    if listings.len() == 0 {
        None
    } else {
        let here = match listings[0] {
            Some(v) => folder_index(v@, key),
            None => None,
        };
        match here {
            Some(j) => Some((0int, j)),
            None => match folder_match(listings.drop_first(), key) {
                Some((i, j)) => Some((i + 1, j)),
                None => None,
            },
        }
    }
}

fn folder_position(entries: &Vec<DirEntry>, key: &String) -> (r: Option<usize>)
    ensures
        match r {
            Some(j) => folder_index(entries@, key@) == Some(j as int),
            None => folder_index(entries@, key@) is None,
        },
{
    let mut j: usize = 0;
    assert(entries@.skip(0) =~= entries@);
    while j < entries.len()
        invariant
            j <= entries.len(),
            folder_index(entries@, key@) == shifted(folder_index(entries@.skip(j as int), key@), j as int),
        decreases entries.len() - j,
    {
        assert(entries@.skip(j as int).drop_first() =~= entries@.skip(j + 1));
        assert(entries@.skip(j as int)[0] == entries@[j as int]);
        if entries[j].is_dir {
            let name = to_lowercase(entries[j].name.as_str());
            if name == *key {
                return Some(j);
            }
        }
        j = j + 1;
    }
    None
}

/// Where the folder of playlist `playlist_name` is: the first path, in order,
/// whose listing (`None` when it could not be read) has a folder of that name
/// ignoring case, and the folder's position in that listing.
pub fn find_playlist_folder(listings: &Vec<Option<Vec<DirEntry>>>, playlist_name: &str) -> (r: Option<(usize, usize)>)
    ensures
        match r {
            Some((i, j)) => folder_match(listings@, lowercase(playlist_name@)) == Some((i as int, j as int)),
            None => folder_match(listings@, lowercase(playlist_name@)) is None,
        },
{
    let key = to_lowercase(playlist_name);
    let mut i: usize = 0;
    assert(listings@.skip(0) =~= listings@);
    while i < listings.len()
        invariant
            i <= listings.len(),
            key@ == lowercase(playlist_name@),
            folder_match(listings@, key@) == match folder_match(listings@.skip(i as int), key@) {
                Some((a, b)) => Some((a + i, b)),
                None => None,
            },
        decreases listings.len() - i,
    {
        assert(listings@.skip(i as int).drop_first() =~= listings@.skip(i + 1));
        assert(listings@.skip(i as int)[0] == listings@[i as int]);
        if let Some(entries) = &listings[i] {
            if let Some(j) = folder_position(entries, &key) {
                return Some((i, j));
            }
        }
        i = i + 1;
    }
    None
}

/// Whether a manifest entry is the one titled `title`.
pub open spec fn titled(entry: Json, title: Seq<char>) -> bool {
    json_text(json_get(Some(entry), "title"@)) == Some(title)
}

/// The entries of an import manifest without those titled exactly `title`;
/// `None` when the document is not a JSON array (the manifest is then left
/// as it is).
pub fn remove_manifest_entry(doc: Json, title: &str) -> (r: Option<Vec<Json>>)
    ensures
        match (json_items(Some(doc)), r) {
            (Some(entries), Some(v)) => v@ == entries.filter(|e: Json| !titled(e, title@)),
            (None, None) => true,
            _ => false,
        },
        match r {
            Some(v) => forall|i: int| 0 <= i < v.len() ==> !titled(#[trigger] v@[i], title@),
            None => true,
        },
{
    let mut rest = match doc {
        Json::Array(entries) => entries,
        _ => return None,
    };
    let ghost all = rest@;
    let ghost keep = |e: Json| !titled(e, title@);
    let total = rest.len();
    let mut kept: Vec<Json> = Vec::new();
    let mut i: usize = 0;
    assert(all.take(0) =~= Seq::<Json>::empty());
    assert(all.skip(0) =~= all);
    proof {
        reveal(Seq::filter);
    }
    while rest.len() > 0
        invariant
            keep == (|e: Json| !titled(e, title@)),
            all.len() == total,
            i + rest.len() == total,
            rest@ == all.skip(i as int),
            kept@ == all.take(i as int).filter(keep),
        decreases rest.len(),
    {
        let e = rest.remove(0);
        assert(e == all[i as int]);
        assert(rest@ =~= all.skip(i + 1));
        let matches = match text(get(Some(&e), "title")) {
            Some(t) => same_text(t.as_str(), title),
            None => false,
        };
        assert(matches == titled(e, title@));
        assert(all.take(i + 1).drop_last() =~= all.take(i as int));
        assert(all.take(i + 1).last() == e);
        reveal(Seq::filter);
        if !matches {
            kept.push(e);
        }
        i = i + 1;
    }
    assert(all.take(total as int) =~= all);
    proof {
        broadcast use vstd::seq_lib::group_filter_ensures;
        assert forall|i: int| 0 <= i < kept.len() implies !titled(#[trigger] kept@[i], title@) by {
            assert(keep(kept@[i]));
        }
    }
    Some(kept)
}

/// The manifest entry written for an imported track.
pub open spec fn entry_for(t: ImportedTrackView, e: Json) -> bool {
    &&& json_text(json_get(Some(e), "title"@)) == Some(t.title)
    &&& json_text(json_get(Some(e), "artist"@)) == Some(t.artist)
    &&& json_text(json_get(Some(e), "album"@)) == Some(t.album)
    &&& json_unsigned(json_get(Some(e), "duration_secs"@)) == Some(t.duration_secs)
}

fn number_of(n: u64) -> (j: Json)
    ensures
        json_unsigned(Some(j)) == Some(n),
{
    Json::Number(JsonNumber { text: crate::text::decimal_string(n), unsigned: Some(n) })
}

/// The import manifest written for fetched tracks: one entry per track, in
/// order, with its title, artist, album and duration in seconds.
pub fn manifest_document(tracks: &Vec<ImportedTrack>) -> (doc: Json)
    ensures
        match doc {
            Json::Array(entries) => entries.len() == tracks.len() && forall|i: int|
                0 <= i < tracks.len() ==> #[trigger] entry_for(tracks@[i]@, entries@[i]),
            _ => false,
        },
{
    let mut entries: Vec<Json> = Vec::new();
    for i in 0..tracks.len()
        invariant
            entries.len() == i,
            forall|j: int| 0 <= j < i ==> #[trigger] entry_for(tracks@[j]@, entries@[j]),
    {
        let t = &tracks[i];
        let mut pairs: Vec<(String, Json)> = Vec::new();
        pairs.push((owned("title"), Json::Str(t.title.clone())));
        pairs.push((owned("artist"), Json::Str(t.artist.clone())));
        pairs.push((owned("album"), Json::Str(t.album.clone())));
        pairs.push((owned("duration_secs"), number_of(t.duration_secs)));
        let e = Json::Object(pairs);
        proof {
            reveal_strlit("title");
            reveal_strlit("artist");
            reveal_strlit("album");
            reveal_strlit("duration_secs");
            let p = pairs@;
            assert(p[0].0@ == "title"@);
            assert(member(p, "title"@) == Some(p[0].1));
            assert(p.drop_first()[0].0@ == "artist"@);
            assert(member(p.drop_first(), "artist"@) == Some(p[1].1));
            assert(member(p, "artist"@) == Some(p[1].1));
            assert(p.drop_first().drop_first()[0].0@ == "album"@);
            assert(member(p.drop_first().drop_first(), "album"@) == Some(p[2].1));
            assert(member(p.drop_first(), "album"@) == Some(p[2].1));
            assert(p[0].0@[0] != "album"@[0]);
            assert(p[0].0@ != "album"@);
            assert(member(p, "album"@) == Some(p[2].1));
            let q = p.drop_first().drop_first().drop_first();
            assert(q[0].0@ == "duration_secs"@);
            assert(member(q, "duration_secs"@) == Some(p[3].1));
            assert(member(p.drop_first().drop_first(), "duration_secs"@) == Some(p[3].1));
            assert(member(p.drop_first(), "duration_secs"@) == Some(p[3].1));
            assert(member(p, "duration_secs"@) == Some(p[3].1));
        }
        entries.push(e);
    }
    Json::Array(entries)
}

} // verus!
