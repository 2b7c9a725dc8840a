//! Log configuration and message formatting.
//!
//! Verbosity is carried as an explicit configuration value rather than a
//! process-wide flag; the binary decides where the formatted lines go.

use vstd::prelude::*;

verus! {

/// Log configuration for one run: how verbose the output should be.
pub struct LogConfig {
    pub verbosity: u8,
}

/// Builds the log configuration for a run from the requested verbosity.
pub fn init_logging(verbosity: u8) -> (cfg: LogConfig)
    ensures
        cfg.verbosity == verbosity,
{
    LogConfig { verbosity }
}

impl LogConfig {
    /// Debug messages are emitted only at verbosity one or higher.
    pub fn debug_enabled(&self) -> (r: bool)
        ensures
            r == (self.verbosity >= 1),
    {
        self.verbosity >= 1
    }
}

/// Formats an informational message line.
pub fn info_line(msg: &str) -> (r: String)
    ensures
        r@ == "[INFO] "@ + msg@,
{
    let mut s = String::new();
    s.append("[INFO] ");
    s.append(msg);
    s
}

/// Formats a debug message line.
pub fn debug_line(msg: &str) -> (r: String)
    ensures
        r@ == "[DEBUG] "@ + msg@,
{
    let mut s = String::new();
    s.append("[DEBUG] ");
    s.append(msg);
    s
}

} // verus!
