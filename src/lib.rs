//! Stream and recording pipeline manager: the registry of live stream
//! sessions, the attach/detach protocol of recording branches, and the
//! rules that turn their outcomes into registry rows and HTTP replies.
pub mod error;
pub mod session;
pub mod config;
pub mod models;
pub mod ids;
pub mod manager;
pub mod waits;
pub mod recording;
pub mod api;
pub mod laws;
