//! The configuration store: the backing file as a value, and the operations
//! that read, change and write the record in it.
//!
//! A store holds what the backing file holds: its text, or nothing where the
//! file is missing or cannot be read. Every operation reads the record anew
//! from that text; nothing is cached between operations.

use vstd::prelude::*;
use crate::codec::{decode_config, decoded, encode_config, encoded, result_view};
use crate::config::{AppConfig, AppConfigView, ConfigError};
use crate::connection::{connection_string, connection_text};

verus! {

/// The backing file of the configuration.
#[derive(Clone, Debug, PartialEq, Eq)]
pub struct ConfigStore {
    /// The text of the file; `None` where the file is missing or unreadable.
    pub contents: Option<String>,
}

impl View for ConfigStore {
    type V = Option<Seq<char>>;

    open spec fn view(&self) -> Option<Seq<char>> {
        match self.contents {
            Some(text) => Some(text@),
            None => None,
        }
    }
}

/// The record that a backing file holds: a missing file is an I/O error, a
/// text that is no record a parse error.
pub open spec fn loaded(contents: Option<Seq<char>>) -> Result<AppConfigView, ConfigError> {
    match contents {
        Some(text) => decoded(text),
        None => Err(ConfigError::IoError),
    }
}

impl ConfigStore {
    /// Reads the record from the backing file.
    pub fn read_config(&self) -> (r: Result<AppConfig, ConfigError>)
        ensures
            result_view(r) == loaded(self@),
    {
        match &self.contents {
            Some(text) => decode_config(text.as_str()),
            None => Err(ConfigError::IoError),
        }
    }

    /// Overwrites the backing file with the record.
    pub fn set_config_file(&mut self, config: &AppConfig)
        ensures
            final(self)@ == Some(encoded(config@)),
    {
        self.contents = Some(encode_config(config));
    }

    /// The database path of the stored record.
    pub fn get_db_path(&self) -> (r: Result<String, ConfigError>)
        ensures
            match r {
                Ok(path) => loaded(self@) is Ok && path@ == loaded(self@)->Ok_0.db_path,
                Err(e) => loaded(self@) == Err::<AppConfigView, ConfigError>(e),
            },
    {
        match self.read_config() {
            Ok(config) => Ok(config.db_path),
            Err(e) => Err(e),
        }
    }

    /// Replaces the database path of the stored record and keeps its
    /// thresholds. A store whose record cannot be read is left as it is.
    pub fn set_db_path(&mut self, path: String) -> (r: Result<(), ConfigError>)
        ensures
            match r {
                Ok(_) => loaded(old(self)@) is Ok && final(self)@ == Some(
                    encoded(loaded(old(self)@)->Ok_0.with_db_path(path@)),
                ),
                Err(e) => loaded(old(self)@) == Err::<AppConfigView, ConfigError>(e)
                    && *final(self) == *old(self),
            },
    {
        match self.read_config() {
            Ok(config) => {
                let changed = config.with_db_path(path);
                self.set_config_file(&changed);
                Ok(())
            },
            Err(e) => Err(e),
        }
    }

    /// Replaces the stored record as a whole. The old record is read first
    /// and then dropped: a store whose record cannot be read is left as it
    /// is.
    pub fn set_config(&mut self, config: AppConfig) -> (r: Result<(), ConfigError>)
        ensures
            match r {
                Ok(_) => loaded(old(self)@) is Ok && final(self)@ == Some(encoded(config@)),
                Err(e) => loaded(old(self)@) == Err::<AppConfigView, ConfigError>(e)
                    && *final(self) == *old(self),
            },
    {
        match self.read_config() {
            Ok(_) => {
                self.set_config_file(&config);
                Ok(())
            },
            Err(e) => Err(e),
        }
    }

    /// The stored record as JSON text.
    pub fn get_config(&self) -> (r: Result<String, ConfigError>)
        ensures
            match r {
                Ok(text) => loaded(self@) is Ok && text@ == encoded(loaded(self@)->Ok_0),
                Err(e) => loaded(self@) == Err::<AppConfigView, ConfigError>(e),
            },
    {
        match self.read_config() {
            Ok(config) => Ok(encode_config(&config)),
            Err(e) => Err(e),
        }
    }

    /// The connection descriptor of the stored database path, seen from the
    /// working directory `cwd`.
    pub fn get_db_connection_string(&self, cwd: &str) -> (r: Result<String, ConfigError>)
        ensures
            match r {
                Ok(text) => loaded(self@) is Ok && text@ == connection_text(
                    cwd@,
                    loaded(self@)->Ok_0.db_path,
                ),
                Err(e) => loaded(self@) == Err::<AppConfigView, ConfigError>(e),
            },
    {
        match self.read_config() {
            Ok(config) => Ok(connection_string(cwd, config.db_path.as_str())),
            Err(e) => Err(e),
        }
    }
}

} // verus!
