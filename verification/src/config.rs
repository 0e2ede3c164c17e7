//! Configuration model of the relay.
//!
//! The structures mirror the configuration file: which service is enabled,
//! the per-service options, and the presence-service (Revolt) options.
//! Loading and merging of the file itself is I/O and happens outside the
//! crate; the validation that decides whether a loaded configuration can
//! start the pipeline is verified here.

use vstd::prelude::*;
use vstd::string::StringExecFns;

verus! {

/// Which listening-activity service to poll.
#[derive(Debug, Clone, Copy, PartialEq, Eq, Structural)]
pub enum Services {
    /// `Last.fm` service.
    LastFM,
    /// `ListenBrainz` service.
    ListenBrainz,
}

/// Root of the configuration file.
#[derive(Debug)]
pub struct Config {
    /// Which service to enable for checking the listening status.
    pub enable: Option<Services>,
    /// Configuration for the services.
    pub services: ServiceOptions,
    /// Configuration for Revolt.
    pub revolt: RevoltOptions,
}

/// Options for each supported service; a service may be left unconfigured.
#[derive(Debug)]
pub struct ServiceOptions {
    /// Options for the `Last.fm` service.
    pub lastfm: Option<LastFMServiceOptions>,
    /// Options for the `ListenBrainz` service.
    pub listenbrainz: Option<ListenBrainzServiceOptions>,
}

/// Options for the Revolt presence service.
#[derive(Debug)]
pub struct RevoltOptions {
    /// Status options.
    pub status: RevoltStatusOptions,
    /// The API URL of the instance.
    pub api_url: String,
    /// The session token of the account.
    pub session_token: String,
}

/// How the status text is rendered.
#[derive(Debug)]
pub struct RevoltStatusOptions {
    /// The status template; `%ARTIST%` and `%NAME%` are substituted.
    pub template: String,
    /// The status text to set while nothing is playing, if any.
    pub idle: Option<String>,
}

/// Options for the `Last.fm` service.
#[derive(Debug)]
pub struct LastFMServiceOptions {
    /// `Last.fm` username to check for listening activity.
    pub username: String,
    /// `Last.fm` API key to use for checking listening activity.
    pub api_key: String,
    /// Interval in seconds to check for listening activity.
    pub check_interval: u8,
}

/// Options for the `ListenBrainz` service.
#[derive(Debug)]
pub struct ListenBrainzServiceOptions {
    /// `ListenBrainz` username to check for listening activity.
    pub username: String,
    /// `ListenBrainz` API URL to use for checking listening activity.
    pub api_url: String,
    /// Interval in seconds to check for listening activity.
    pub check_interval: u8,
}

/// The characters of the default status template.
pub open spec fn default_template_view() -> Seq<char> {
    "🎵 Listening to %NAME% by %ARTIST%"@
}

/// The characters of the default Revolt API URL.
pub open spec fn default_revolt_api_url_view() -> Seq<char> {
    "https://api.revolt.chat"@
}

/// The characters of the default ListenBrainz API URL.
pub open spec fn default_listenbrainz_api_url_view() -> Seq<char> {
    "https://api.listenbrainz.org"@
}

/// Default status template.
pub fn default_revolt_status_template() -> (r: String)
    ensures
        r@ == default_template_view(),
{
    String::from_str("🎵 Listening to %NAME% by %ARTIST%")
}

/// Default Revolt API URL.
pub fn default_revolt_api_url() -> (r: String)
    ensures
        r@ == default_revolt_api_url_view(),
{
    String::from_str("https://api.revolt.chat")
}

/// Default polling interval, in seconds.
pub fn default_check_interval() -> (r: u8)
    ensures
        r == 16,
{
    16
}

/// Default ListenBrainz API URL.
pub fn default_listenbrainz_api_url() -> (r: String)
    ensures
        r@ == default_listenbrainz_api_url_view(),
{
    String::from_str("https://api.listenbrainz.org")
}

impl Default for RevoltStatusOptions {
    /// The default status options: the default template, no idle text.
    fn default() -> (r: Self)
        ensures
            r.template@ == default_template_view(),
            r.idle is None,
    {
        RevoltStatusOptions { template: default_revolt_status_template(), idle: None }
    }
}

impl Default for RevoltOptions {
    /// The default Revolt options: default status, default API URL, empty token.
    fn default() -> (r: Self)
        ensures
            r.status.template@ == default_template_view(),
            r.status.idle is None,
            r.api_url@ == default_revolt_api_url_view(),
            r.session_token@ == Seq::<char>::empty(),
    {
        RevoltOptions {
            status: RevoltStatusOptions::default(),
            api_url: default_revolt_api_url(),
            session_token: String::new(),
        }
    }
}

impl Default for ServiceOptions {
    /// By default no service is configured.
    fn default() -> (r: Self)
        ensures
            r.lastfm is None,
            r.listenbrainz is None,
    {
        ServiceOptions { lastfm: None, listenbrainz: None }
    }
}

impl Default for LastFMServiceOptions {
    /// Empty identity and the default polling interval.
    fn default() -> (r: Self)
        ensures
            r.username@ == Seq::<char>::empty(),
            r.api_key@ == Seq::<char>::empty(),
            r.check_interval == 16,
    {
        LastFMServiceOptions {
            username: String::new(),
            api_key: String::new(),
            check_interval: default_check_interval(),
        }
    }
}

impl Default for ListenBrainzServiceOptions {
    /// Empty identity, the default API URL and the default polling interval.
    fn default() -> (r: Self)
        ensures
            r.username@ == Seq::<char>::empty(),
            r.api_url@ == default_listenbrainz_api_url_view(),
            r.check_interval == 16,
    {
        ListenBrainzServiceOptions {
            username: String::new(),
            api_url: default_listenbrainz_api_url(),
            check_interval: default_check_interval(),
        }
    }
}

/// Why a configuration cannot start the pipeline.
#[derive(Debug, Clone, Copy, PartialEq, Eq, Structural)]
pub enum StartupError {
    /// No service is enabled.
    NoServiceEnabled,
    /// `Last.fm` is enabled but not configured.
    MissingLastFMOptions,
    /// `ListenBrainz` is enabled but not configured.
    MissingListenBrainzOptions,
}

impl StartupError {
    /// The operator-facing description of the error.
    pub fn message(&self) -> (r: String)
        ensures
            *self is NoServiceEnabled ==> r@
                == "No service is enabled. Please enable a service in the configuration file."@,
            *self is MissingLastFMOptions ==> r@
                == "Last.fm is enabled, but no configuration is provided."@,
            *self is MissingListenBrainzOptions ==> r@
                == "ListenBrainz is enabled, but no configuration is provided."@,
    {
        match self {
            StartupError::NoServiceEnabled => String::from_str(
                "No service is enabled. Please enable a service in the configuration file.",
            ),
            StartupError::MissingLastFMOptions => String::from_str(
                "Last.fm is enabled, but no configuration is provided.",
            ),
            StartupError::MissingListenBrainzOptions => String::from_str(
                "ListenBrainz is enabled, but no configuration is provided.",
            ),
        }
    }
}

/// The service the pipeline will poll, with its options.
#[derive(Debug)]
pub enum SelectedService {
    LastFM(LastFMServiceOptions),
    ListenBrainz(ListenBrainzServiceOptions),
}

impl Config {
    /// What selecting a service from this configuration yields: the enabled
    /// service with its options, or the error that rejects the configuration.
    pub open spec fn spec_selection(self) -> Result<SelectedService, StartupError> {
        match self.enable {
            None => Err(StartupError::NoServiceEnabled),
            Some(Services::LastFM) => match self.services.lastfm {
                Some(o) => Ok(SelectedService::LastFM(o)),
                None => Err(StartupError::MissingLastFMOptions),
            },
            Some(Services::ListenBrainz) => match self.services.listenbrainz {
                Some(o) => Ok(SelectedService::ListenBrainz(o)),
                None => Err(StartupError::MissingListenBrainzOptions),
            },
        }
    }

    /// Decide which service the pipeline polls.  Exactly the enabled service
    /// is selected; a configuration that enables no service, or enables a
    /// service it does not configure, is rejected.
    pub fn select_service(self) -> (r: Result<SelectedService, StartupError>)
        ensures
            r == self.spec_selection(),
    {
        match self.enable {
            None => Err(StartupError::NoServiceEnabled),
            Some(Services::LastFM) => match self.services.lastfm {
                Some(o) => Ok(SelectedService::LastFM(o)),
                None => Err(StartupError::MissingLastFMOptions),
            },
            Some(Services::ListenBrainz) => match self.services.listenbrainz {
                Some(o) => Ok(SelectedService::ListenBrainz(o)),
                None => Err(StartupError::MissingListenBrainzOptions),
            },
        }
    }
}

} // verus!
