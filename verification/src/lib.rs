//! A presence relay: it watches a listening-activity source for the track a
//! user is currently playing and mirrors that as a status message on a
//! remote presence service.
//!
//! The crate verifies the decision logic of the pipeline: configuration
//! validation, classification of poll results, status-text rendering,
//! deduplication, rate-limit retry, and the graceful-shutdown protocol.
//! All I/O (HTTP, signals, timers, prompts) lives outside the crate and
//! drives the state machines defined here.

pub mod cli;
pub mod config;
pub mod models;
pub mod platforms;
pub mod revolt;
pub mod services;
pub mod text;
