//! The configuration record and the errors of the store.

use vstd::prelude::*;

verus! {

/// The persisted configuration record.
#[derive(Clone, Debug, PartialEq, Eq)]
pub struct AppConfig {
    /// Path of the database file, relative or absolute.
    pub db_path: String,
    /// Threshold values handed through to the front-end.
    pub low_load: i32,
    pub medium_load: i32,
    pub high_load: i32,
}

/// The mathematical value of an [`AppConfig`].
pub struct AppConfigView {
    pub db_path: Seq<char>,
    pub low_load: i32,
    pub medium_load: i32,
    pub high_load: i32,
}

impl View for AppConfig {
    type V = AppConfigView;

    open spec fn view(&self) -> AppConfigView {
        AppConfigView {
            db_path: self.db_path@,
            low_load: self.low_load,
            medium_load: self.medium_load,
            high_load: self.high_load,
        }
    }
}

impl AppConfigView {
    /// The record with its database path replaced.
    pub open spec fn with_db_path(self, path: Seq<char>) -> AppConfigView {
        AppConfigView { db_path: path, ..self }
    }
}

/// Why an operation of the store failed.
#[derive(Clone, Copy, Debug, PartialEq, Eq, Structural)]
pub enum ConfigError {
    /// The backing file is missing, unreadable or unwritable.
    IoError,
    /// The backing file does not hold a configuration record.
    ParseError,
}

impl AppConfig {
    /// Replaces the database path and keeps the thresholds.
    pub fn with_db_path(self, path: String) -> (r: AppConfig)
        ensures
            r@ == self@.with_db_path(path@),
    {
        AppConfig {
            db_path: path,
            low_load: self.low_load,
            medium_load: self.medium_load,
            high_load: self.high_load,
        }
    }
}

} // verus!
