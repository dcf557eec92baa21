//! A small space-status bot library: it models the tri-state status of a
//! hackerspace, decodes the status endpoint's JSON payload, decides when a
//! status transition must be announced, and answers chat queries about the
//! current status.

pub mod config;
pub mod fetch;
pub mod poller;
pub mod router;
pub mod status;
pub mod store;
pub mod strutil;
pub mod text;
