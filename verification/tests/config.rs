//! Tests for the configuration model, its defaults and its validation.

use lure::config::{
    default_check_interval, default_listenbrainz_api_url, default_revolt_api_url,
    default_revolt_status_template, Config, LastFMServiceOptions, ListenBrainzServiceOptions,
    RevoltOptions, RevoltStatusOptions, SelectedService, ServiceOptions, Services, StartupError,
};

fn base_config(enable: Option<Services>, services: ServiceOptions) -> Config {
    Config {
        enable,
        services,
        revolt: RevoltOptions::default(),
    }
}

fn lastfm_options() -> LastFMServiceOptions {
    LastFMServiceOptions {
        username: "user".to_string(),
        api_key: "key".to_string(),
        check_interval: 16,
    }
}

fn listenbrainz_options() -> ListenBrainzServiceOptions {
    ListenBrainzServiceOptions {
        username: "user".to_string(),
        api_url: default_listenbrainz_api_url(),
        check_interval: 16,
    }
}

#[test]
fn default_values_match_the_documented_ones() {
    assert_eq!(
        default_revolt_status_template(),
        "🎵 Listening to %NAME% by %ARTIST%"
    );
    assert_eq!(default_revolt_api_url(), "https://api.revolt.chat");
    assert_eq!(default_listenbrainz_api_url(), "https://api.listenbrainz.org");
    assert_eq!(default_check_interval(), 16);
}

#[test]
fn default_options_use_the_default_values() {
    let revolt = RevoltOptions::default();
    assert_eq!(revolt.api_url, "https://api.revolt.chat");
    assert_eq!(revolt.session_token, "");
    assert_eq!(revolt.status.template, "🎵 Listening to %NAME% by %ARTIST%");
    assert!(revolt.status.idle.is_none());

    let status = RevoltStatusOptions::default();
    assert_eq!(status.template, "🎵 Listening to %NAME% by %ARTIST%");
    assert!(status.idle.is_none());

    let services = ServiceOptions::default();
    assert!(services.lastfm.is_none());
    assert!(services.listenbrainz.is_none());

    let lastfm = LastFMServiceOptions::default();
    assert_eq!(lastfm.username, "");
    assert_eq!(lastfm.api_key, "");
    assert_eq!(lastfm.check_interval, 16);

    let listenbrainz = ListenBrainzServiceOptions::default();
    assert_eq!(listenbrainz.username, "");
    assert_eq!(listenbrainz.api_url, "https://api.listenbrainz.org");
    assert_eq!(listenbrainz.check_interval, 16);
}

#[test]
fn selecting_with_nothing_enabled_is_rejected() {
    let config = base_config(None, ServiceOptions::default());
    assert_eq!(
        config.select_service().unwrap_err(),
        StartupError::NoServiceEnabled
    );
}

#[test]
fn selecting_an_unconfigured_service_is_rejected() {
    let config = base_config(Some(Services::LastFM), ServiceOptions::default());
    assert_eq!(
        config.select_service().unwrap_err(),
        StartupError::MissingLastFMOptions
    );
    let config = base_config(Some(Services::ListenBrainz), ServiceOptions::default());
    assert_eq!(
        config.select_service().unwrap_err(),
        StartupError::MissingListenBrainzOptions
    );
}

#[test]
fn selecting_a_configured_service_yields_its_options() {
    let config = base_config(
        Some(Services::LastFM),
        ServiceOptions {
            lastfm: Some(lastfm_options()),
            listenbrainz: Some(listenbrainz_options()),
        },
    );
    match config.select_service() {
        Ok(SelectedService::LastFM(options)) => {
            assert_eq!(options.username, "user");
            assert_eq!(options.api_key, "key");
        }
        other => panic!("unexpected selection {other:?}"),
    }

    let config = base_config(
        Some(Services::ListenBrainz),
        ServiceOptions {
            lastfm: Some(lastfm_options()),
            listenbrainz: Some(listenbrainz_options()),
        },
    );
    match config.select_service() {
        Ok(SelectedService::ListenBrainz(options)) => {
            assert_eq!(options.username, "user");
            assert_eq!(options.api_url, "https://api.listenbrainz.org");
        }
        other => panic!("unexpected selection {other:?}"),
    }
}

#[test]
fn startup_errors_have_their_messages() {
    assert_eq!(
        StartupError::NoServiceEnabled.message(),
        "No service is enabled. Please enable a service in the configuration file."
    );
    assert_eq!(
        StartupError::MissingLastFMOptions.message(),
        "Last.fm is enabled, but no configuration is provided."
    );
    assert_eq!(
        StartupError::MissingListenBrainzOptions.message(),
        "ListenBrainz is enabled, but no configuration is provided."
    );
}
