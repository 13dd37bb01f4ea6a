//! Live status of bike-share stations, served through a short-lived cache.
//!
//! The heart of the crate is [`cache::Cache`]: a snapshot of the station list
//! together with the instant it was taken, a five-minute time-to-live, and the
//! rules that decide when the upstream feed has to be asked again.

pub mod api;
pub mod cache;
pub mod db;
pub mod instant;
pub mod matcher;
pub mod status;
pub mod text;
