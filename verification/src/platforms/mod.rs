//! The track value shared by the full wire-format models.

use vstd::prelude::*;

verus! {

/// A playing track: the artist and the track name.  Equality is
/// structural.
#[derive(Debug, Clone)]
pub struct Track {
    pub artist: String,
    pub name: String,
}

/// The characters of a track's fields.
pub struct TrackView {
    pub artist: Seq<char>,
    pub name: Seq<char>,
}

impl View for Track {
    type V = TrackView;

    open spec fn view(&self) -> TrackView {
        TrackView { artist: self.artist@, name: self.name@ }
    }
}

impl vstd::std_specs::cmp::PartialEqSpecImpl for Track {
    open spec fn obeys_eq_spec() -> bool {
        true
    }

    open spec fn eq_spec(&self, other: &Track) -> bool {
        self@ == other@
    }
}

impl PartialEq for Track {
    fn eq(&self, other: &Track) -> (r: bool) {
        self.artist == other.artist && self.name == other.name
    }
}

/// The view of an optional track.
pub open spec fn platform_track_opt_view(t: Option<Track>) -> Option<TrackView> {
    match t {
        Some(x) => Some(x@),
        None => None,
    }
}

} // verus!
