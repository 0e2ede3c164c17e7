//! Full wire-format models of the two listening-activity providers.

pub mod lastfm;
pub mod listenbrainz;
