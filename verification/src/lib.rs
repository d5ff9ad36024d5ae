//! Retention tooling for a TV "broadcatching" library: decide which
//! fully-watched, fully-aired seasons are past their retention period and
//! may be reclaimed, and drive the idempotent deletion protocol that acts
//! on those decisions.
//!
//! The crate is a pure decision library. It models the inventories of the
//! download tracker (series, seasons, episode files, tags) and of the
//! watch trackers (seasons with watched counts), computes the eligible set
//! with [`engine::decide`], and exposes the per-step decisions of the
//! deletion protocol in [`orchestrator`]. All network traffic stays with
//! the callers; they hand plain snapshot values in and take decisions out.

pub mod commands;
pub mod config;
pub mod digits;
pub mod engine;
pub mod jellyfin;
pub mod orchestrator;
pub mod plex;
pub mod report;
pub mod sonarr;
pub mod watched;
