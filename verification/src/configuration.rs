//! The settings of the repository, as read from its configuration file.

use vstd::prelude::*;
use crate::logging::LogOutput;
use crate::text::{decimal, push_decimal};

verus! {

pub struct Settings {
    pub application: ApplicationSettings,
    pub database: DatabaseSettings,
    pub cache_storage: CacheStorageSettings,
    pub search_engine: SearchEngineSettings,
    pub ocafiles_cache: OCFilesCacheSettings,
}

pub struct ApplicationSettings {
    pub host: String,
    pub port: u16,
    pub data_entries_path: Option<String>,
    pub log_to_file: bool,
    pub log_path: Option<String>,
    pub overlayfile_dir: String,
}

pub struct DatabaseSettings {
    pub path: String,
}

pub struct CacheStorageSettings {
    pub path: String,
}

pub struct OCFilesCacheSettings {
    pub path: String,
}

pub struct SearchEngineSettings {
    pub path: String,
}

/// The directory for data-entry sheets when none is configured.
pub open spec fn default_data_entries_path() -> Seq<char> {
    "/tmp"@
}

impl ApplicationSettings {
    /// The address to listen on: `host:port`.
    pub fn address(&self) -> (address: String)
        ensures
            address@ == self.host@ + ":"@ + decimal(self.port as nat),
    {
        let mut address = self.host.clone();
        address.append(":");
        push_decimal(&mut address, self.port);
        address
    }

    /// Where to log: the configured file (or the default file) when logging
    /// to a file, else standard error.
    pub fn log_output(&self) -> (output: LogOutput)
        ensures
            self.log_to_file ==> (output matches LogOutput::File(path) && path == self.log_path),
            !self.log_to_file ==> output is Stderr,
    {
        if self.log_to_file {
            LogOutput::File(self.log_path.clone())
        } else {
            LogOutput::Stderr
        }
    }

    /// The directory for data-entry sheets: the configured one, else `/tmp`.
    pub fn data_entries_dir(&self) -> (dir: String)
        ensures
            dir@ == (match self.data_entries_path {
                Some(p) => p@,
                None => default_data_entries_path(),
            }),
    {
        match &self.data_entries_path {
            Some(p) => p.clone(),
            None => String::from_str("/tmp"),
        }
    }
}

} // verus!
