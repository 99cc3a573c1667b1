//! Native backend core for a desktop administration application: the
//! update-download progress state machine, the JWT expiry check, and the
//! small pure decision functions behind configuration, window-state and
//! CSV-export persistence. All I/O (HTTP, files, process spawning, the
//! key-value store) is driven from outside; this crate holds the logic
//! and its contracts.

pub mod auth;
pub mod config;
pub mod export;
pub mod system;
pub mod text;
pub mod updater;
pub mod window;
