//! The full `ListenBrainz` "playing now" wire format, and the extraction
//! of the playing track from it.

use vstd::prelude::*;

use crate::platforms::{platform_track_opt_view, Track as PlayingTrack, TrackView};

verus! {

/// The decoded body of a "playing now" response.
#[derive(Debug)]
pub struct Data {
    pub payload: Payload,
}

/// The payload of a "playing now" response.
#[derive(Debug)]
pub struct Payload {
    pub count: u32,
    pub listens: Vec<Listen>,
    pub playing_now: bool,
    pub user_id: String,
}

/// One listed listen.
#[derive(Debug)]
pub struct Listen {
    pub playing_now: bool,
    pub track_metadata: TrackMetadata,
}

/// The metadata of a listen.
#[derive(Debug)]
pub struct TrackMetadata {
    pub additional_info: AdditionalInfo,
    pub artist_name: String,
    pub release_name: Option<String>,
    pub track_name: String,
}

/// The submission details of a listen.
#[derive(Debug)]
pub struct AdditionalInfo {
    pub duration: u32,
    pub music_service_name: String,
    pub origin_url: String,
    pub submission_client: String,
    pub submission_client_version: String,
}

/// The playing track a payload reports: the first listed listen, provided
/// it is marked as playing right now.
pub open spec fn spec_current_track(d: Data) -> Option<TrackView> {
    if d.payload.listens@.len() > 0 {
        let l = d.payload.listens@[0];
        if l.playing_now {
            Some(
                TrackView {
                    artist: l.track_metadata.artist_name@,
                    name: l.track_metadata.track_name@,
                },
            )
        } else {
            None
        }
    } else {
        None
    }
}

impl Data {
    /// Extract the playing track from the payload.
    pub fn current_track(&self) -> (r: Option<PlayingTrack>)
        ensures
            platform_track_opt_view(r) == spec_current_track(*self),
    {
        if self.payload.listens.len() > 0 {
            let l = &self.payload.listens[0];
            if l.playing_now {
                Some(
                    PlayingTrack {
                        artist: l.track_metadata.artist_name.clone(),
                        name: l.track_metadata.track_name.clone(),
                    },
                )
            } else {
                None
            }
        } else {
            None
        }
    }
}

} // verus!
