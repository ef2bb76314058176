//! Log line formatting.
//!
//! Writing, reading and trimming the log file are the caller's work; this
//! module decides only what a log line's text is, so that every writer
//! produces the same shape.

use vstd::prelude::*;
use vstd::string::*;
use crate::config::LoggingConfig;

verus! {

/// The dash-separated entry shape: `timestamp - LEVEL - message` with a
/// carriage-return line ending.
pub open spec fn dashed_entry_text(ts: Seq<char>, level: Seq<char>, msg: Seq<char>) -> Seq<char> {
    ts + " - "@ + level + " - "@ + msg + "\r\n"@
}

/// The bracketed entry shape: `[timestamp][LEVEL] message` with a newline.
pub open spec fn bracketed_entry_text(ts: Seq<char>, level: Seq<char>, msg: Seq<char>) -> Seq<
    char,
> {
    "["@ + ts + "]["@ + level + "] "@ + msg + "\n"@
}

/// Render a bracketed log line, the shape the message centre's log uses.
pub fn format_log_line(timestamp: &str, level: &str, message: &str) -> (r: String)
    ensures
        r@ == bracketed_entry_text(timestamp@, level@, message@),
{
    let r = String::from_str("[").concat(timestamp).concat("][").concat(level).concat(
        "] ",
    ).concat(message).concat("\n");
    assert(r@ =~= bracketed_entry_text(timestamp@, level@, message@));
    r
}

/// Holds the logging choices and renders entries for them.
#[derive(Debug, Clone)]
pub struct LogManager {
    /// The logging choices this manager follows.
    pub config: LoggingConfig,
}

impl LogManager {
    /// A manager over the given logging choices.
    pub fn new(config: LoggingConfig) -> (r: Self)
        ensures
            r.config == config,
    {
        LogManager { config }
    }

    /// Render a dash-separated entry, or nothing when logging is off.
    pub fn format_entry(&self, timestamp: &str, level: &str, message: &str) -> (r: Option<String>)
        ensures
            self.config.enable_logging ==> (r matches Some(l) && l@ == dashed_entry_text(
                timestamp@,
                level@,
                message@,
            )),
            !self.config.enable_logging ==> r is None,
    {
        if !self.config.enable_logging {
            return None;
        }
        let r = String::from_str(timestamp).concat(" - ").concat(level).concat(" - ").concat(
            message,
        ).concat("\r\n");
        assert(r@ =~= dashed_entry_text(timestamp@, level@, message@));
        Some(r)
    }
}

} // verus!
