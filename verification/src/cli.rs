//! The command-line surface, as plain data. The binary around this crate
//! parses the actual command line and hands the values over in this form.

use vstd::prelude::*;

verus! {

/// Subcommands that act as a client against a running session instead of
/// starting a new one.
#[derive(Debug)]
pub enum Commands {
    /// Stop the timer.
    Stop,
    /// Pause or resume the timer.
    TogglePause,
    /// Query the status of the timer.
    Status,
}

/// Command-line arguments.
#[derive(Debug)]
pub struct Cli {
    /// Subcommand, if any.
    pub command: Option<Commands>,
    /// Duration to wait, e.g. `"5s"`, `"2m"`, `"1h"`.
    pub duration: Option<String>,
    /// Disable the timer-end notification.
    pub no_notification: bool,
    /// Keep the status bar visible.
    pub keep_status_bar: bool,
    /// Print the remaining time.
    pub print_time: bool,
    /// Path to the configuration file.
    pub config: Option<String>,
    /// Log level, e.g. `"error"` or `"debug"`.
    pub log_level: String,
}

} // verus!
