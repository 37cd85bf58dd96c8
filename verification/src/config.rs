//! The configuration file's contents, as plain data. Reading and parsing
//! the file itself is I/O and lives in the binary around this crate; an
//! absent file arrives here as a value with every field `None`.

use vstd::prelude::*;

verus! {

/// Optional settings read from the configuration file.
#[derive(Debug)]
pub struct ConfigFile {
    /// Duration of the focus timer.
    pub duration: Option<String>,
    /// Whether to disable notifications.
    pub no_notification: Option<bool>,
    /// Whether to keep the status bar visible.
    pub keep_status_bar: Option<bool>,
    /// Whether to print the remaining time.
    pub print_time: Option<bool>,
}

impl ConfigFile {
    /// A configuration with nothing set, as an absent file leaves it.
    pub fn empty() -> (r: ConfigFile)
        ensures
            r.duration is None,
            r.no_notification is None,
            r.keep_status_bar is None,
            r.print_time is None,
    {
        ConfigFile { duration: None, no_notification: None, keep_status_bar: None, print_time: None }
    }
}

} // verus!
