//! State synchronisation between a desktop media player and a remote music
//! library: normalising player signals, tracking library membership, and
//! deriving the snapshots that are published to local consumers.

pub mod api;
pub mod config;
pub mod dbus;
pub mod liked_tracker;
pub mod monitor_client;
pub mod output;
pub mod play_pause_tracker;
pub mod saved_tracker;
pub mod service;
pub mod text;
pub mod tracker;
pub mod wake_watcher;
