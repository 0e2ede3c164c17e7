//! The full `Last.fm` "recent tracks" wire format, and the extraction of
//! the now-playing track from it.

use vstd::prelude::*;
use vstd::string::StringExecFns;

use crate::platforms::{platform_track_opt_view, Track as PlayingTrack, TrackView};

verus! {

/// The decoded body of a "recent tracks" response.
#[derive(Debug)]
pub struct Data {
    pub recenttracks: RecentTracks,
}

/// The listed recent tracks with the listing attributes.
#[derive(Debug)]
pub struct RecentTracks {
    pub track: Vec<Track>,
    pub attr: RecentTracksAttr,
}

/// One listed track.
#[derive(Debug)]
pub struct Track {
    pub artist: Artist,
    pub streamable: String,
    pub image: Vec<Image>,
    pub mbid: String,
    pub album: Album,
    pub name: String,
    pub attr: Option<TrackAttr>,
    pub url: String,
    pub date: Option<Date>,
}

/// The artist of a listed track.
#[derive(Debug)]
pub struct Artist {
    pub mbid: String,
    pub text: String,
}

/// One cover image of a listed track.
#[derive(Debug)]
pub struct Image {
    pub size: String,
    pub text: String,
}

/// The album of a listed track.
#[derive(Debug)]
pub struct Album {
    pub mbid: String,
    pub text: String,
}

/// The attributes of a listed track.
#[derive(Debug)]
pub struct TrackAttr {
    /// `"true"` when the track is playing right now.
    pub nowplaying: Option<String>,
}

/// When a listed track was scrobbled.
#[derive(Debug)]
pub struct Date {
    pub uts: String,
    pub text: String,
}

/// The attributes of the whole listing.
#[derive(Debug)]
pub struct RecentTracksAttr {
    pub user: String,
    pub total_pages: String,
    pub page: String,
    pub per_page: String,
    pub total: String,
}

/// The playing track a payload reports: the first listed track, provided
/// it is marked as playing right now.
pub open spec fn spec_current_track(d: Data) -> Option<TrackView> {
    if d.recenttracks.track@.len() > 0 {
        let t = d.recenttracks.track@[0];
        match t.attr {
            Some(a) => match a.nowplaying {
                Some(np) => if np@ == "true"@ {
                    Some(TrackView { artist: t.artist.text@, name: t.name@ })
                } else {
                    None
                },
                None => None,
            },
            None => None,
        }
    } else {
        None
    }
}

impl Data {
    /// Extract the now-playing track from the payload.
    pub fn current_track(&self) -> (r: Option<PlayingTrack>)
        ensures
            platform_track_opt_view(r) == spec_current_track(*self),
    {
        let flag = String::from_str("true");
        if self.recenttracks.track.len() > 0 {
            let t = &self.recenttracks.track[0];
            match &t.attr {
                Some(a) => match &a.nowplaying {
                    Some(np) => if *np == flag {
                        Some(
                            PlayingTrack {
                                artist: t.artist.text.clone(),
                                name: t.name.clone(),
                            },
                        )
                    } else {
                        None
                    },
                    None => None,
                },
                None => None,
            }
        } else {
            None
        }
    }
}

} // verus!
