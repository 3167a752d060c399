//! A small configuration store for a desktop application backend.
//!
//! The store keeps one JSON record (a database path and three load
//! thresholds), derives a SQLite connection descriptor from it, and writes
//! the identity of the host machine and user as JSON.

pub mod config;
pub mod json;
pub mod codec;
pub mod connection;
pub mod identity;
pub mod store;
pub mod laws;

pub use config::{AppConfig, ConfigError};
pub use identity::Identity;
pub use store::ConfigStore;
