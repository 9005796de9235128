//! The crate map: crates (named sets of mirrored folders), their locations and
//! the playlists found in them, with a mathematical view of each.

use vstd::prelude::*;
use vstd::string::*;

use crate::text::{owned, seq_strings, copy_strings, StrSeq};

verus! {

broadcast use vstd::string::group_string_axioms;

/// A streaming service a playlist can be linked to.
#[derive(Debug, Clone, Copy, PartialEq, Eq, Structural)]
pub enum ImportService {
    Tidal,
    Spotify,
    SoundCloud,
}

/// The display name of a service.
pub open spec fn service_label(service: ImportService) -> Seq<char> {
    match service {
        ImportService::Tidal => "Tidal"@,
        ImportService::Spotify => "Spotify"@,
        ImportService::SoundCloud => "SoundCloud"@,
    }
}

/// The services in the order the import screen lists them.
pub open spec fn service_at(index: int) -> ImportService {
    if index == 0 {
        ImportService::Tidal
    } else if index == 1 {
        ImportService::Spotify
    } else {
        ImportService::SoundCloud
    }
}

/// How many services the import screen offers.
pub const SERVICE_COUNT: usize = 3;

impl ImportService {
    /// The service listed at `index` on the import screen.
    pub fn at(index: usize) -> (s: ImportService)
        requires
            index < SERVICE_COUNT,
        ensures
            s == service_at(index as int),
    {
        if index == 0 {
            ImportService::Tidal
        } else if index == 1 {
            ImportService::Spotify
        } else {
            ImportService::SoundCloud
        }
    }

    /// The display name of the service.
    pub fn label(self) -> (r: &'static str)
        ensures
            r@ == service_label(self),
    {
        match self {
            ImportService::Tidal => "Tidal",
            ImportService::Spotify => "Spotify",
            ImportService::SoundCloud => "SoundCloud",
        }
    }

    /// Whether importing from this service fetches the track list online
    /// (Spotify and SoundCloud) rather than only recording a name.
    pub fn fetches_online(self) -> (r: bool)
        ensures
            r == (self == ImportService::Spotify || self == ImportService::SoundCloud),
    {
        match self {
            ImportService::Tidal => false,
            _ => true,
        }
    }
}

/// One folder path of a crate.
#[derive(Debug, Clone)]
pub struct Location {
    pub path: String,
    pub removable: bool,
}

pub struct LocationView {
    pub path: Seq<char>,
    pub removable: bool,
}

impl View for Location {
    type V = LocationView;

    open spec fn view(&self) -> LocationView {
        LocationView { path: self.path@, removable: self.removable }
    }
}

impl Location {
    /// A copy with the same view.
    pub fn duplicate(&self) -> (r: Location)
        ensures
            r@ == self@,
    {
        Location { path: self.path.clone(), removable: self.removable }
    }
}

/// Where a playlist is linked on a streaming service.
#[derive(Debug, Clone)]
pub struct PlaylistLink {
    pub service: ImportService,
    pub external_name: String,
    pub source_url: Option<String>,
}

pub struct PlaylistLinkView {
    pub service: ImportService,
    pub external_name: Seq<char>,
    pub source_url: Option<Seq<char>>,
}

impl View for PlaylistLink {
    type V = PlaylistLinkView;

    open spec fn view(&self) -> PlaylistLinkView {
        PlaylistLinkView {
            service: self.service,
            external_name: self.external_name@,
            source_url: match &self.source_url {
                Some(u) => Some(u@),
                None => None,
            },
        }
    }
}

impl PlaylistLink {
    /// A copy with the same view.
    pub fn duplicate(&self) -> (r: PlaylistLink)
        ensures
            r@ == self@,
    {
        PlaylistLink {
            service: self.service,
            external_name: self.external_name.clone(),
            source_url: match &self.source_url {
                Some(u) => Some(u.clone()),
                None => None,
            },
        }
    }
}

/// The view of an optional link.
pub open spec fn link_view(l: Option<PlaylistLink>) -> Option<PlaylistLinkView> {
    match l {
        Some(l) => Some(l@),
        None => None,
    }
}

/// A copy of an optional link with the same view.
pub fn copy_link(l: &Option<PlaylistLink>) -> (r: Option<PlaylistLink>)
    ensures
        link_view(r) == link_view(*l),
{
    match l {
        Some(l) => Some(l.duplicate()),
        None => None,
    }
}

/// A playlist: a subfolder found under a crate's paths.
#[derive(Debug, Clone)]
pub struct Playlist {
    pub name: String,
    pub track_count: usize,
    pub synced: usize,
    pub tags: Vec<String>,
    pub link: Option<PlaylistLink>,
}

pub struct PlaylistView {
    pub name: Seq<char>,
    pub track_count: usize,
    pub synced: usize,
    pub tags: StrSeq,
    pub link: Option<PlaylistLinkView>,
}

impl View for Playlist {
    type V = PlaylistView;

    open spec fn view(&self) -> PlaylistView {
        PlaylistView {
            name: self.name@,
            track_count: self.track_count,
            synced: self.synced,
            tags: seq_strings(self.tags@),
            link: link_view(self.link),
        }
    }
}

/// Whether a playlist counts as synced: every track is present in every location.
pub open spec fn is_synced(p: PlaylistView) -> bool {
    p.synced == p.track_count
}

/// The sync status shown for a playlist.
pub open spec fn status_text(p: PlaylistView) -> Seq<char> {
    if is_synced(p) {
        "synced"@
    } else {
        "needs sync"@
    }
}

impl Playlist {
    /// "synced" when every track is present everywhere, "needs sync" otherwise.
    pub fn status(&self) -> (r: &'static str)
        ensures
            r@ == status_text(self@),
    {
        if self.synced == self.track_count {
            "synced"
        } else {
            "needs sync"
        }
    }

    /// A copy with the same view.
    pub fn duplicate(&self) -> (r: Playlist)
        ensures
            r@ == self@,
    {
        Playlist {
            name: self.name.clone(),
            track_count: self.track_count,
            synced: self.synced,
            tags: copy_strings(&self.tags),
            link: copy_link(&self.link),
        }
    }
}

/// A crate: a named set of folder paths meant to hold the same content.
#[derive(Debug, Clone)]
pub struct CrateLocation {
    pub name: String,
    pub locations: Vec<Location>,
    pub available: bool,
    pub playlists: Vec<Playlist>,
}

pub struct CrateView {
    pub name: Seq<char>,
    pub locations: Seq<LocationView>,
    pub available: bool,
    pub playlists: Seq<PlaylistView>,
}

pub open spec fn locations_view(v: Seq<Location>) -> Seq<LocationView> {
    v.map_values(|l: Location| l@)
}

pub open spec fn playlists_view(v: Seq<Playlist>) -> Seq<PlaylistView> {
    v.map_values(|p: Playlist| p@)
}

pub open spec fn crates_view(v: Seq<CrateLocation>) -> Seq<CrateView> {
    v.map_values(|c: CrateLocation| c@)
}

impl View for CrateLocation {
    type V = CrateView;

    open spec fn view(&self) -> CrateView {
        CrateView {
            name: self.name@,
            locations: locations_view(self.locations@),
            available: self.available,
            playlists: playlists_view(self.playlists@),
        }
    }
}

/// A copy of a list of playlists with the same view.
pub fn copy_playlists(v: &Vec<Playlist>) -> (r: Vec<Playlist>)
    ensures
        playlists_view(r@) == playlists_view(v@),
{
    let mut r: Vec<Playlist> = Vec::new();
    for i in 0..v.len()
        invariant
            r.len() == i,
            forall|j: int| 0 <= j < i ==> #[trigger] r@[j]@ == v@[j]@,
    {
        r.push(v[i].duplicate());
    }
    assert(playlists_view(r@) =~= playlists_view(v@));
    r
}

/// A copy of a list of locations with the same view.
pub fn copy_locations(v: &Vec<Location>) -> (r: Vec<Location>)
    ensures
        locations_view(r@) == locations_view(v@),
{
    let mut r: Vec<Location> = Vec::new();
    for i in 0..v.len()
        invariant
            r.len() == i,
            forall|j: int| 0 <= j < i ==> #[trigger] r@[j]@ == v@[j]@,
    {
        r.push(v[i].duplicate());
    }
    assert(locations_view(r@) =~= locations_view(v@));
    r
}

impl CrateLocation {
    /// A copy with the same view.
    pub fn duplicate(&self) -> (r: CrateLocation)
        ensures
            r@ == self@,
    {
        CrateLocation {
            name: self.name.clone(),
            locations: copy_locations(&self.locations),
            available: self.available,
            playlists: copy_playlists(&self.playlists),
        }
    }

    /// A new crate named "New crate" with one empty, non-removable path.
    pub fn new_default() -> (r: CrateLocation)
        ensures
            r@ == new_crate_view(),
    {
        let mut locations: Vec<Location> = Vec::new();
        locations.push(Location { path: String::new(), removable: false });
        let r = CrateLocation {
            name: owned("New crate"),
            locations,
            available: true,
            playlists: Vec::new(),
        };
        assert(r@.locations =~= new_crate_view().locations);
        assert(r@.playlists =~= new_crate_view().playlists);
        r
    }
}

/// The crate the "new crate" keys add.
pub open spec fn new_crate_view() -> CrateView {
    CrateView {
        name: "New crate"@,
        locations: seq![LocationView { path: Seq::empty(), removable: false }],
        available: true,
        playlists: Seq::empty(),
    }
}

/// A copy of a list of crates with the same view.
pub fn copy_crates(v: &Vec<CrateLocation>) -> (r: Vec<CrateLocation>)
    ensures
        crates_view(r@) == crates_view(v@),
{
    let mut r: Vec<CrateLocation> = Vec::new();
    for i in 0..v.len()
        invariant
            r.len() == i,
            forall|j: int| 0 <= j < i ==> #[trigger] r@[j]@ == v@[j]@,
    {
        r.push(v[i].duplicate());
    }
    assert(crates_view(r@) =~= crates_view(v@));
    r
}

} // verus!
