//! The `Last.fm` service: the shape of its "recent tracks" payload, the
//! extraction of the now-playing track, and the error taxonomy that decides
//! whether a failed poll stops the pipeline or only skips a tick.
//!
//! The HTTP request and the JSON decoding happen outside the crate; the
//! decoded payload and the observed error data are classified here.

use vstd::prelude::*;
use vstd::string::StringExecFns;

use super::{track_opt_view, PollOutcome, PollOutcomeView, TrackInfo, TrackInfoView};

verus! {

/// The decoded body of a "recent tracks" response.
#[derive(Debug)]
pub struct Data {
    pub recenttracks: RecentTracks,
}

/// The listed recent tracks.
#[derive(Debug)]
pub struct RecentTracks {
    pub track: Vec<Track>,
}

/// One listed track.
#[derive(Debug)]
pub struct Track {
    pub artist: Artist,
    pub name: String,
    pub attr: Option<TrackAttr>,
}

/// The artist of a listed track.
#[derive(Debug)]
pub struct Artist {
    pub text: String,
}

/// The attributes of a listed track.
#[derive(Debug)]
pub struct TrackAttr {
    /// `"true"` when the track is playing right now.
    pub nowplaying: Option<String>,
}

/// The playing track a payload reports: the first listed track, provided
/// it is marked as playing right now.
pub open spec fn spec_now_playing(d: Data) -> Option<TrackInfoView> {
    if d.recenttracks.track@.len() > 0 {
        let t = d.recenttracks.track@[0];
        match t.attr {
            Some(a) => match a.nowplaying {
                Some(np) => if np@ == "true"@ {
                    Some(TrackInfoView { artist: t.artist.text@, name: t.name@ })
                } else {
                    None
                },
                None => None,
            },
            None => None,
        }
    } else {
        None
    }
}

impl Data {
    /// Extract the now-playing track from the payload.
    pub fn now_playing_track(&self) -> (r: Option<TrackInfo>)
        ensures
            track_opt_view(r) == spec_now_playing(*self),
    {
        let flag = String::from_str("true");
        if self.recenttracks.track.len() > 0 {
            let t = &self.recenttracks.track[0];
            match &t.attr {
                Some(a) => match &a.nowplaying {
                    Some(np) => if *np == flag {
                        Some(
                            TrackInfo {
                                artist: t.artist.text.clone(),
                                name: t.name.clone(),
                            },
                        )
                    } else {
                        None
                    },
                    None => None,
                },
                None => None,
            }
        } else {
            None
        }
    }
}

/// The documented error classes of the `Last.fm` API, by error code.
#[derive(Debug, Clone, Copy, PartialEq, Eq, Structural)]
pub enum LastFMAPIError {
    /// Code 4: authentication failed.
    AuthenticationFailed,
    /// Code 8: something went wrong with the API.
    OperationFailed,
    /// Code 10: the provided API key is invalid.
    InvalidAPIKey,
    /// Code 11: the API is temporarily offline.
    ServiceOffline,
    /// Code 16: a temporary error occurred.
    TemporaryError,
    /// Code 26: the API key has been suspended.
    SuspendedAPIKey,
    /// Code 29: the rate limit was exceeded.
    RateLimitExceeded,
}

/// Why a `Last.fm` poll failed.
#[derive(Debug)]
pub enum LastFMError {
    /// A documented API error.
    APIError(LastFMAPIError),
    /// An unknown error code; carries the message the body reported.
    UnexpectedAPIError(String),
    /// An unexpected HTTP status.
    UnexpectedStatus(u16),
    /// The call failed before a response was decoded (transport trouble).
    Other,
}

/// The documented API error for an error code, if the code is documented.
pub open spec fn spec_api_error_of_code(code: u64) -> Option<LastFMAPIError> {
    if code == 4 {
        Some(LastFMAPIError::AuthenticationFailed)
    } else if code == 8 {
        Some(LastFMAPIError::OperationFailed)
    } else if code == 10 {
        Some(LastFMAPIError::InvalidAPIKey)
    } else if code == 11 {
        Some(LastFMAPIError::ServiceOffline)
    } else if code == 16 {
        Some(LastFMAPIError::TemporaryError)
    } else if code == 26 {
        Some(LastFMAPIError::SuspendedAPIKey)
    } else if code == 29 {
        Some(LastFMAPIError::RateLimitExceeded)
    } else {
        None
    }
}

/// Map a reported error code to its documented API error.
pub fn api_error_of_code(code: u64) -> (r: Option<LastFMAPIError>)
    ensures
        r == spec_api_error_of_code(code),
{
    if code == 4 {
        Some(LastFMAPIError::AuthenticationFailed)
    } else if code == 8 {
        Some(LastFMAPIError::OperationFailed)
    } else if code == 10 {
        Some(LastFMAPIError::InvalidAPIKey)
    } else if code == 11 {
        Some(LastFMAPIError::ServiceOffline)
    } else if code == 16 {
        Some(LastFMAPIError::TemporaryError)
    } else if code == 26 {
        Some(LastFMAPIError::SuspendedAPIKey)
    } else if code == 29 {
        Some(LastFMAPIError::RateLimitExceeded)
    } else {
        None
    }
}

/// How a `Last.fm` response is classified: success for 200; for 403 the
/// error code decides, falling back to the body's message when the code is
/// unknown or missing; anything else is an unexpected status.
pub open spec fn spec_classify_response(status: u16, error_code: Option<u64>, message: String)
    -> Result<(), LastFMError> {
    if status == 200 {
        Ok(())
    } else if status == 403 {
        match error_code {
            Some(c) => match spec_api_error_of_code(c) {
                Some(e) => Err(LastFMError::APIError(e)),
                None => Err(LastFMError::UnexpectedAPIError(message)),
            },
            None => Err(LastFMError::UnexpectedAPIError(message)),
        }
    } else {
        Err(LastFMError::UnexpectedStatus(status))
    }
}

/// Classify a `Last.fm` HTTP response from its status, the error code of a
/// 403 body (when one was decoded) and the message it carried.
pub fn classify_response(status: u16, error_code: Option<u64>, message: String) -> (r: Result<
    (),
    LastFMError,
>)
    ensures
        r == spec_classify_response(status, error_code, message),
{
    if status == 200 {
        Ok(())
    } else if status == 403 {
        match error_code {
            Some(c) => match api_error_of_code(c) {
                Some(e) => Err(LastFMError::APIError(e)),
                None => Err(LastFMError::UnexpectedAPIError(message)),
            },
            None => Err(LastFMError::UnexpectedAPIError(message)),
        }
    } else {
        Err(LastFMError::UnexpectedStatus(status))
    }
}

/// Whether a poll failure is fatal.  Invalid or suspended credentials and
/// unexpected answers stop the pipeline; rate limits, temporary trouble and
/// transport errors only skip the tick.
pub open spec fn spec_is_fatal(e: LastFMError) -> bool {
    match e {
        LastFMError::APIError(a) => match a {
            LastFMAPIError::AuthenticationFailed => true,
            LastFMAPIError::InvalidAPIKey => true,
            LastFMAPIError::SuspendedAPIKey => true,
            LastFMAPIError::OperationFailed => false,
            LastFMAPIError::ServiceOffline => false,
            LastFMAPIError::TemporaryError => false,
            LastFMAPIError::RateLimitExceeded => false,
        },
        LastFMError::UnexpectedAPIError(_) => true,
        LastFMError::UnexpectedStatus(_) => true,
        LastFMError::Other => false,
    }
}

impl LastFMError {
    /// Whether this failure stops the pipeline.
    pub fn is_fatal(&self) -> (r: bool)
        ensures
            r == spec_is_fatal(*self),
    {
        match self {
            LastFMError::APIError(a) => match a {
                LastFMAPIError::AuthenticationFailed => true,
                LastFMAPIError::InvalidAPIKey => true,
                LastFMAPIError::SuspendedAPIKey => true,
                LastFMAPIError::OperationFailed => false,
                LastFMAPIError::ServiceOffline => false,
                LastFMAPIError::TemporaryError => false,
                LastFMAPIError::RateLimitExceeded => false,
            },
            LastFMError::UnexpectedAPIError(_) => true,
            LastFMError::UnexpectedStatus(_) => true,
            LastFMError::Other => false,
        }
    }
}

/// Classify a whole poll of the `Last.fm` API: a decoded payload yields the
/// extracted track state; a failure is fatal or transient by the taxonomy
/// above.
pub fn poll_outcome(r: Result<Data, LastFMError>) -> (o: PollOutcome)
    ensures
        r matches Ok(d) ==> o@ == PollOutcomeView::Success(spec_now_playing(d)),
        r matches Err(e) ==> o@ == (if spec_is_fatal(e) {
            PollOutcomeView::Fatal
        } else {
            PollOutcomeView::Transient
        }),
{
    match r {
        Ok(d) => PollOutcome::Success(d.now_playing_track()),
        Err(e) => if e.is_fatal() {
            PollOutcome::Fatal
        } else {
            PollOutcome::Transient
        },
    }
}

} // verus!
