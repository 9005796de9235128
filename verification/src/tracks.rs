//! Tracks of a playlist, and the details shown for the selected one.

use vstd::prelude::*;

verus! {

/// The view of an optional string.
pub open spec fn opt_view(o: Option<String>) -> Option<Seq<char>> {
    match o {
        Some(s) => Some(s@),
        None => None,
    }
}

/// A copy of an optional string with the same view.
pub fn copy_opt(o: &Option<String>) -> (r: Option<String>)
    ensures
        opt_view(r) == opt_view(*o),
{
    match o {
        Some(s) => Some(s.clone()),
        None => None,
    }
}

/// Metadata taken from an import manifest (`*-tracks.json`) rather than from a
/// local audio file's tags: the track was imported without downloading audio.
#[derive(Debug, Clone)]
pub struct RemoteTrackMetadata {
    pub artist: String,
    pub album: String,
    pub duration_secs: u64,
    /// The track's id on the source service, when the manifest records one.
    pub external_id: Option<String>,
}

pub struct RemoteView {
    pub artist: Seq<char>,
    pub album: Seq<char>,
    pub duration_secs: u64,
    pub external_id: Option<Seq<char>>,
}

impl View for RemoteTrackMetadata {
    type V = RemoteView;

    open spec fn view(&self) -> RemoteView {
        RemoteView {
            artist: self.artist@,
            album: self.album@,
            duration_secs: self.duration_secs,
            external_id: opt_view(self.external_id),
        }
    }
}

/// One track of a playlist: a local file, or an entry of an import manifest.
#[derive(Debug, Clone)]
pub struct TrackFile {
    pub name: String,
    pub path: String,
    pub size_bytes: u64,
    /// Last modification, in seconds since the Unix epoch.
    pub modified: Option<u64>,
    pub remote_metadata: Option<RemoteTrackMetadata>,
}

pub struct TrackFileView {
    pub name: Seq<char>,
    pub path: Seq<char>,
    pub size_bytes: u64,
    pub modified: Option<u64>,
    pub remote: Option<RemoteView>,
}

impl View for TrackFile {
    type V = TrackFileView;

    open spec fn view(&self) -> TrackFileView {
        TrackFileView {
            name: self.name@,
            path: self.path@,
            size_bytes: self.size_bytes,
            modified: self.modified,
            remote: match self.remote_metadata {
                Some(r) => Some(r@),
                None => None,
            },
        }
    }
}

/// The views of a list of tracks.
pub open spec fn tracks_view(v: Seq<TrackFile>) -> Seq<TrackFileView> {
    v.map_values(|t: TrackFile| t@)
}

/// Audio tags of a track, as shown in the details panel.
#[derive(Debug, Clone)]
pub struct TrackMetadata {
    pub title: Option<String>,
    pub artist: Option<String>,
    pub album: Option<String>,
    pub year: Option<u32>,
    pub genre: Option<String>,
    pub duration_secs: u64,
    pub cover: Option<Vec<u8>>,
}

pub struct TrackMetadataView {
    pub title: Option<Seq<char>>,
    pub artist: Option<Seq<char>>,
    pub album: Option<Seq<char>>,
    pub year: Option<u32>,
    pub genre: Option<Seq<char>>,
    pub duration_secs: u64,
    pub cover: Option<Seq<u8>>,
}

impl View for TrackMetadata {
    type V = TrackMetadataView;

    open spec fn view(&self) -> TrackMetadataView {
        TrackMetadataView {
            title: opt_view(self.title),
            artist: opt_view(self.artist),
            album: opt_view(self.album),
            year: self.year,
            genre: opt_view(self.genre),
            duration_secs: self.duration_secs,
            cover: match self.cover {
                Some(c) => Some(c@),
                None => None,
            },
        }
    }
}

/// The view of optional metadata.
pub open spec fn metadata_view(m: Option<TrackMetadata>) -> Option<TrackMetadataView> {
    match m {
        Some(m) => Some(m@),
        None => None,
    }
}

/// `Some(s)` unless `s` is empty.
pub open spec fn non_empty(s: Seq<char>) -> Option<Seq<char>> {
    if s.len() == 0 {
        None
    } else {
        Some(s)
    }
}

/// The details shown for a track known only from an import manifest.
pub open spec fn remote_details(name: Seq<char>, r: RemoteView) -> TrackMetadataView {
    TrackMetadataView {
        title: Some(name),
        artist: non_empty(r.artist),
        album: non_empty(r.album),
        year: None,
        genre: None,
        duration_secs: r.duration_secs,
        cover: None,
    }
}

fn non_empty_copy(s: &String) -> (r: Option<String>)
    ensures
        opt_view(r) == non_empty(s@),
{
    if s.as_str().is_empty() {
        None
    } else {
        Some(s.clone())
    }
}

/// The details of a track known only from an import manifest: its title, and the
/// artist and album when they are not empty.
pub fn metadata_from_remote(name: &String, remote: &RemoteTrackMetadata) -> (m: TrackMetadata)
    ensures
        m@ == remote_details(name@, remote@),
{
    TrackMetadata {
        title: Some(name.clone()),
        artist: non_empty_copy(&remote.artist),
        album: non_empty_copy(&remote.album),
        year: None,
        genre: None,
        duration_secs: remote.duration_secs,
        cover: None,
    }
}

} // verus!
