//! The `ListenBrainz` service: the shape of its "playing now" payload, the
//! extraction of the playing track, and the error taxonomy that decides
//! whether a failed poll stops the pipeline or only skips a tick.
//!
//! The HTTP request and the JSON decoding happen outside the crate; the
//! decoded payload and the observed error data are classified here.

use vstd::prelude::*;

use super::{track_opt_view, PollOutcome, PollOutcomeView, TrackInfo, TrackInfoView};

verus! {

/// The decoded body of a "playing now" response.
#[derive(Debug)]
pub struct Data {
    pub payload: Payload,
}

/// The payload of a "playing now" response.
#[derive(Debug)]
pub struct Payload {
    pub listens: Vec<Listen>,
}

/// One listed listen.
#[derive(Debug)]
pub struct Listen {
    pub playing_now: bool,
    pub track_metadata: TrackMetadata,
}

/// The metadata of a listen.
#[derive(Debug)]
pub struct TrackMetadata {
    pub artist_name: String,
    pub track_name: String,
}

/// The playing track a payload reports: the first listed listen, provided
/// it is marked as playing right now.
pub open spec fn spec_playing_now(d: Data) -> Option<TrackInfoView> {
    if d.payload.listens@.len() > 0 {
        let l = d.payload.listens@[0];
        if l.playing_now {
            Some(
                TrackInfoView {
                    artist: l.track_metadata.artist_name@,
                    name: l.track_metadata.track_name@,
                },
            )
        } else {
            None
        }
    } else {
        None
    }
}

impl Data {
    /// Extract the playing track from the payload.
    pub fn playing_now_track(&self) -> (r: Option<TrackInfo>)
        ensures
            track_opt_view(r) == spec_playing_now(*self),
    {
        if self.payload.listens.len() > 0 {
            let l = &self.payload.listens[0];
            if l.playing_now {
                Some(
                    TrackInfo {
                        artist: l.track_metadata.artist_name.clone(),
                        name: l.track_metadata.track_name.clone(),
                    },
                )
            } else {
                None
            }
        } else {
            None
        }
    }
}

/// Why a `ListenBrainz` poll failed.
#[derive(Debug, Clone, Copy, PartialEq, Eq, Structural)]
pub enum ListenBrainzError {
    /// The user was not found (HTTP 404).
    NotFound,
    /// An unexpected HTTP status.
    UnexpectedStatus(u16),
    /// The call failed before a response was decoded (transport trouble).
    Other,
}

/// How a `ListenBrainz` response is classified: success for 200, an
/// unknown user for 404, an unexpected status for anything else.
pub open spec fn spec_classify_response(status: u16) -> Result<(), ListenBrainzError> {
    if status == 200 {
        Ok(())
    } else if status == 404 {
        Err(ListenBrainzError::NotFound)
    } else {
        Err(ListenBrainzError::UnexpectedStatus(status))
    }
}

/// Classify a `ListenBrainz` HTTP response from its status code.
pub fn classify_response(status: u16) -> (r: Result<(), ListenBrainzError>)
    ensures
        r == spec_classify_response(status),
{
    if status == 200 {
        Ok(())
    } else if status == 404 {
        Err(ListenBrainzError::NotFound)
    } else {
        Err(ListenBrainzError::UnexpectedStatus(status))
    }
}

/// Whether a poll failure is fatal.  An unexpected answer stops the
/// pipeline; an unknown user and transport errors only skip the tick.
pub open spec fn spec_is_fatal(e: ListenBrainzError) -> bool {
    match e {
        ListenBrainzError::NotFound => false,
        ListenBrainzError::UnexpectedStatus(_) => true,
        ListenBrainzError::Other => false,
    }
}

impl ListenBrainzError {
    /// Whether this failure stops the pipeline.
    pub fn is_fatal(&self) -> (r: bool)
        ensures
            r == spec_is_fatal(*self),
    {
        match self {
            ListenBrainzError::NotFound => false,
            ListenBrainzError::UnexpectedStatus(_) => true,
            ListenBrainzError::Other => false,
        }
    }
}

/// Classify a whole poll of the `ListenBrainz` API: a decoded payload
/// yields the extracted track state; a failure is fatal or transient by
/// the taxonomy above.
pub fn poll_outcome(r: Result<Data, ListenBrainzError>) -> (o: PollOutcome)
    ensures
        r matches Ok(d) ==> o@ == PollOutcomeView::Success(spec_playing_now(d)),
        r matches Err(e) ==> o@ == (if spec_is_fatal(e) {
            PollOutcomeView::Fatal
        } else {
            PollOutcomeView::Transient
        }),
{
    match r {
        Ok(d) => PollOutcome::Success(d.playing_now_track()),
        Err(e) => if e.is_fatal() {
            PollOutcome::Fatal
        } else {
            PollOutcome::Transient
        },
    }
}

} // verus!
