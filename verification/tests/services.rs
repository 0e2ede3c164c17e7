//! Tests for the service payload extraction, the error taxonomies and the
//! polling loop.

use lure::cli::start::ChannelData;
use lure::services::lastfm;
use lure::services::lastfm::{LastFMAPIError, LastFMError};
use lure::services::listenbrainz;
use lure::services::listenbrainz::ListenBrainzError;
use lure::services::{PollOutcome, Poller, TrackInfo};

fn lastfm_payload(nowplaying: Option<&str>) -> lastfm::Data {
    lastfm::Data {
        recenttracks: lastfm::RecentTracks {
            track: vec![lastfm::Track {
                artist: lastfm::Artist {
                    text: "Signals".to_string(),
                },
                name: "Midnight".to_string(),
                attr: nowplaying.map(|np| lastfm::TrackAttr {
                    nowplaying: Some(np.to_string()),
                }),
            }],
        },
    }
}

#[test]
fn lastfm_extracts_now_playing_track() {
    let track = lastfm_payload(Some("true")).now_playing_track();
    assert_eq!(
        track,
        Some(TrackInfo {
            artist: "Signals".to_string(),
            name: "Midnight".to_string(),
        })
    );
}

#[test]
fn lastfm_ignores_track_not_marked_playing() {
    assert_eq!(lastfm_payload(Some("false")).now_playing_track(), None);
    assert_eq!(lastfm_payload(None).now_playing_track(), None);
}

#[test]
fn lastfm_ignores_empty_listing() {
    let empty = lastfm::Data {
        recenttracks: lastfm::RecentTracks { track: vec![] },
    };
    assert_eq!(empty.now_playing_track(), None);
}

#[test]
fn lastfm_classifies_error_codes() {
    let classify = |code| lastfm::classify_response(403, Some(code), "m".to_string());
    assert!(matches!(
        classify(4),
        Err(LastFMError::APIError(LastFMAPIError::AuthenticationFailed))
    ));
    assert!(matches!(
        classify(8),
        Err(LastFMError::APIError(LastFMAPIError::OperationFailed))
    ));
    assert!(matches!(
        classify(10),
        Err(LastFMError::APIError(LastFMAPIError::InvalidAPIKey))
    ));
    assert!(matches!(
        classify(11),
        Err(LastFMError::APIError(LastFMAPIError::ServiceOffline))
    ));
    assert!(matches!(
        classify(16),
        Err(LastFMError::APIError(LastFMAPIError::TemporaryError))
    ));
    assert!(matches!(
        classify(26),
        Err(LastFMError::APIError(LastFMAPIError::SuspendedAPIKey))
    ));
    assert!(matches!(
        classify(29),
        Err(LastFMError::APIError(LastFMAPIError::RateLimitExceeded))
    ));
    match classify(999) {
        Err(LastFMError::UnexpectedAPIError(message)) => assert_eq!(message, "m"),
        other => panic!("unexpected classification {other:?}"),
    }
    assert!(matches!(
        lastfm::classify_response(200, None, String::new()),
        Ok(())
    ));
    assert!(matches!(
        lastfm::classify_response(500, None, String::new()),
        Err(LastFMError::UnexpectedStatus(500))
    ));
}

#[test]
fn lastfm_failures_split_into_fatal_and_transient() {
    assert!(LastFMError::APIError(LastFMAPIError::AuthenticationFailed).is_fatal());
    assert!(LastFMError::APIError(LastFMAPIError::InvalidAPIKey).is_fatal());
    assert!(LastFMError::APIError(LastFMAPIError::SuspendedAPIKey).is_fatal());
    assert!(LastFMError::UnexpectedAPIError("m".to_string()).is_fatal());
    assert!(LastFMError::UnexpectedStatus(500).is_fatal());
    assert!(!LastFMError::APIError(LastFMAPIError::RateLimitExceeded).is_fatal());
    assert!(!LastFMError::APIError(LastFMAPIError::TemporaryError).is_fatal());
    assert!(!LastFMError::APIError(LastFMAPIError::OperationFailed).is_fatal());
    assert!(!LastFMError::APIError(LastFMAPIError::ServiceOffline).is_fatal());
    assert!(!LastFMError::Other.is_fatal());
}

#[test]
fn listenbrainz_extracts_playing_listen() {
    let data = listenbrainz::Data {
        payload: listenbrainz::Payload {
            listens: vec![listenbrainz::Listen {
                playing_now: true,
                track_metadata: listenbrainz::TrackMetadata {
                    artist_name: "Signals".to_string(),
                    track_name: "Midnight".to_string(),
                },
            }],
        },
    };
    assert_eq!(
        data.playing_now_track(),
        Some(TrackInfo {
            artist: "Signals".to_string(),
            name: "Midnight".to_string(),
        })
    );
}

#[test]
fn listenbrainz_ignores_stopped_listen() {
    let data = listenbrainz::Data {
        payload: listenbrainz::Payload {
            listens: vec![listenbrainz::Listen {
                playing_now: false,
                track_metadata: listenbrainz::TrackMetadata {
                    artist_name: "a".to_string(),
                    track_name: "b".to_string(),
                },
            }],
        },
    };
    assert_eq!(data.playing_now_track(), None);
    let empty = listenbrainz::Data {
        payload: listenbrainz::Payload { listens: vec![] },
    };
    assert_eq!(empty.playing_now_track(), None);
}

#[test]
fn listenbrainz_classifies_statuses() {
    assert!(matches!(listenbrainz::classify_response(200), Ok(())));
    assert_eq!(
        listenbrainz::classify_response(404),
        Err(ListenBrainzError::NotFound)
    );
    assert_eq!(
        listenbrainz::classify_response(503),
        Err(ListenBrainzError::UnexpectedStatus(503))
    );
    assert!(!ListenBrainzError::NotFound.is_fatal());
    assert!(!ListenBrainzError::Other.is_fatal());
    assert!(ListenBrainzError::UnexpectedStatus(503).is_fatal());
}

#[test]
fn poll_outcomes_follow_the_taxonomy() {
    let success = lastfm::poll_outcome(Ok(lastfm_payload(Some("true"))));
    match success {
        PollOutcome::Success(Some(t)) => assert_eq!(t.name, "Midnight"),
        other => panic!("unexpected outcome {other:?}"),
    }
    assert!(matches!(
        lastfm::poll_outcome(Err(LastFMError::APIError(LastFMAPIError::RateLimitExceeded))),
        PollOutcome::Transient
    ));
    assert!(matches!(
        lastfm::poll_outcome(Err(LastFMError::APIError(
            LastFMAPIError::AuthenticationFailed
        ))),
        PollOutcome::Fatal
    ));
}

#[test]
fn fatal_poll_emits_one_shutdown_and_stops() {
    // A fatal classification: no further polls, exactly one
    // non-reverting shutdown event emitted.
    let mut poller = Poller::new();
    let mut emitted: Vec<ChannelData> = Vec::new();

    let outcomes = vec![
        PollOutcome::Success(Some(TrackInfo {
            artist: "a".to_string(),
            name: "b".to_string(),
        })),
        PollOutcome::Transient,
        PollOutcome::Fatal,
    ];
    for outcome in outcomes {
        assert!(!poller.stopped);
        if let Some(msg) = poller.on_poll(outcome) {
            emitted.push(msg);
        }
    }
    assert!(poller.stopped);
    assert_eq!(emitted.len(), 2);
    assert!(matches!(emitted[0], ChannelData::Track(Some(_))));
    assert!(matches!(emitted[1], ChannelData::Exit(false)));
    let exits = emitted
        .iter()
        .filter(|m| matches!(m, ChannelData::Exit(_)))
        .count();
    assert_eq!(exits, 1);
}

#[test]
fn transient_poll_emits_nothing() {
    let mut poller = Poller::new();
    assert!(poller.on_poll(PollOutcome::Transient).is_none());
    assert!(!poller.stopped);
}
