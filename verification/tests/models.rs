//! Tests for the full wire-format models and their extraction.

use lure::models::{lastfm, listenbrainz};
use lure::platforms::Track;

fn lastfm_track(nowplaying: Option<&str>) -> lastfm::Track {
    lastfm::Track {
        artist: lastfm::Artist {
            mbid: String::new(),
            text: "Signals".to_string(),
        },
        streamable: "0".to_string(),
        image: vec![lastfm::Image {
            size: "small".to_string(),
            text: "https://images.example/cover.png".to_string(),
        }],
        mbid: String::new(),
        album: lastfm::Album {
            mbid: String::new(),
            text: "Glass".to_string(),
        },
        name: "Midnight".to_string(),
        attr: nowplaying.map(|np| lastfm::TrackAttr {
            nowplaying: Some(np.to_string()),
        }),
        url: "https://tracks.example/midnight".to_string(),
        date: Some(lastfm::Date {
            uts: "1700000000".to_string(),
            text: "17 Nov 2023".to_string(),
        }),
    }
}

fn lastfm_data(tracks: Vec<lastfm::Track>) -> lastfm::Data {
    lastfm::Data {
        recenttracks: lastfm::RecentTracks {
            track: tracks,
            attr: lastfm::RecentTracksAttr {
                user: "user".to_string(),
                total_pages: "1".to_string(),
                page: "1".to_string(),
                per_page: "1".to_string(),
                total: "1".to_string(),
            },
        },
    }
}

#[test]
fn lastfm_wire_model_extracts_the_playing_track() {
    let data = lastfm_data(vec![lastfm_track(Some("true"))]);
    assert_eq!(
        data.current_track(),
        Some(Track {
            artist: "Signals".to_string(),
            name: "Midnight".to_string(),
        })
    );
}

#[test]
fn lastfm_wire_model_ignores_finished_tracks() {
    assert_eq!(lastfm_data(vec![lastfm_track(None)]).current_track(), None);
    assert_eq!(
        lastfm_data(vec![lastfm_track(Some("false"))]).current_track(),
        None
    );
    assert_eq!(lastfm_data(vec![]).current_track(), None);
}

fn listenbrainz_data(playing_now: bool) -> listenbrainz::Data {
    listenbrainz::Data {
        payload: listenbrainz::Payload {
            count: 1,
            listens: vec![listenbrainz::Listen {
                playing_now,
                track_metadata: listenbrainz::TrackMetadata {
                    additional_info: listenbrainz::AdditionalInfo {
                        duration: 240,
                        music_service_name: "player".to_string(),
                        origin_url: "https://music.example/track".to_string(),
                        submission_client: "client".to_string(),
                        submission_client_version: "1.0".to_string(),
                    },
                    artist_name: "Signals".to_string(),
                    release_name: Some("Glass".to_string()),
                    track_name: "Midnight".to_string(),
                },
            }],
            playing_now,
            user_id: "user".to_string(),
        },
    }
}

#[test]
fn listenbrainz_wire_model_extracts_the_playing_track() {
    assert_eq!(
        listenbrainz_data(true).current_track(),
        Some(Track {
            artist: "Signals".to_string(),
            name: "Midnight".to_string(),
        })
    );
}

#[test]
fn listenbrainz_wire_model_ignores_stopped_listens() {
    assert_eq!(listenbrainz_data(false).current_track(), None);
}
