//! Where the log goes.

use vstd::prelude::*;
use crate::text::opt_text;

verus! {

/// The destination of the log: standard error, or a file (the default file
/// when no path is given).
pub enum LogOutput {
    Stderr,
    File(Option<String>),
}

/// The log file used when logging to a file without a path.
pub open spec fn default_log_path() -> Seq<char> {
    "/var/log/oca-repository.log"@
}

impl LogOutput {
    /// The file to log into, if logging to a file: the given path, else the
    /// default file.
    pub fn file_path(&self) -> (path: Option<String>)
        ensures
            opt_text(path) == (match self {
                LogOutput::Stderr => None,
                LogOutput::File(Some(p)) => Some(p@),
                LogOutput::File(None) => Some(default_log_path()),
            }),
    {
        match self {
            LogOutput::Stderr => None,
            LogOutput::File(Some(p)) => Some(p.clone()),
            LogOutput::File(None) => Some(String::from_str("/var/log/oca-repository.log")),
        }
    }
}

} // verus!
