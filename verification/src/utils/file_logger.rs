//! Log files of the commands that a run starts.

use crate::utils::dir::{joined, DirUtils};
use vstd::prelude::*;
use vstd::string::*;

verus! {

/// A log file.
#[derive(Clone, Debug, PartialEq, Eq)]
pub struct FileLogger {
    pub log_path: String,
}

impl FileLogger {
    /// The log file named `file_name`, in the directory `logs` below
    /// `config_dir`, or below the current directory when there is no
    /// configuration directory.
    pub fn new(config_dir: Option<String>, file_name: &str) -> (logger: Self)
        ensures
            logger.log_path@ == joined(
                joined(
                    match config_dir {
                        Some(d) => d@,
                        None => "./"@,
                    },
                    "logs"@,
                ),
                file_name@,
            ),
    {
        let base = match config_dir {
            Some(d) => d,
            None => String::from_str("./"),
        };
        let log_dir = DirUtils::join(base.as_str(), "logs");
        FileLogger { log_path: DirUtils::join(log_dir.as_str(), file_name) }
    }

    /// The directory that has to exist before the file can be written.
    pub fn log_dir(config_dir: Option<String>) -> (dir: String)
        ensures
            dir@ == joined(
                match config_dir {
                    Some(d) => d@,
                    None => "./"@,
                },
                "logs"@,
            ),
    {
        let base = match config_dir {
            Some(d) => d,
            None => String::from_str("./"),
        };
        DirUtils::join(base.as_str(), "logs")
    }

    /// The line that is appended to the file for `message`, written at the
    /// time `timestamp`.
    pub fn log(&self, timestamp: &str, message: &str) -> (line: String)
        ensures
            line@ == "["@ + timestamp@ + "] "@ + message@ + "\n"@,
    {
        let mut line = String::from_str("[");
        line.append(timestamp);
        line.append("] ");
        line.append(message);
        line.append("\n");
        line
    }
}

} // verus!
