//! Log verbosity as named on the command line.

use vstd::prelude::*;
use crate::text::{joined, str_eq};

verus! {

/// The lower-case form of a text, as the standard library computes it.
pub uninterp spec fn lower_of(s: Seq<char>) -> Seq<char>;

/// Relies on `str::to_lowercase`: the result depends on the characters alone.
#[verifier::external_body]
fn lowercase(s: &str) -> (r: String)
    ensures
        r@ == lower_of(s@),
{
    s.to_lowercase()
}

/// How much is logged, from most to least.
#[derive(Clone, Copy, Debug, PartialEq, Eq, Structural)]
pub enum LogLevel {
    Trace,
    Debug,
    Info,
    Warn,
    Error,
}

/// The level that a lower-case name stands for.
pub open spec fn level_of(s: Seq<char>) -> Option<LogLevel> {
    if s == "trace"@ {
        Some(LogLevel::Trace)
    } else if s == "debug"@ {
        Some(LogLevel::Debug)
    } else if s == "info"@ {
        Some(LogLevel::Info)
    } else if s == "warn"@ {
        Some(LogLevel::Warn)
    } else if s == "error"@ {
        Some(LogLevel::Error)
    } else {
        None
    }
}

/// Reads a level name that is already in lower case.
pub fn level_from_lowercase(lowered: &str) -> (r: Option<LogLevel>)
    ensures
        r == level_of(lowered@),
{
    if str_eq(lowered, "trace") {
        Some(LogLevel::Trace)
    } else if str_eq(lowered, "debug") {
        Some(LogLevel::Debug)
    } else if str_eq(lowered, "info") {
        Some(LogLevel::Info)
    } else if str_eq(lowered, "warn") {
        Some(LogLevel::Warn)
    } else if str_eq(lowered, "error") {
        Some(LogLevel::Error)
    } else {
        None
    }
}

/// Reads a level name in any case; an unknown name is an error that quotes it.
pub fn parse_log_level(level: &str) -> (r: Result<LogLevel, String>)
    ensures
        match level_of(lower_of(level@)) {
            Some(l) => r == Ok::<LogLevel, String>(l),
            None => r is Err && r->Err_0@ == "Invalid log level: "@ + level@,
        },
{
    let lowered = lowercase(level);
    match level_from_lowercase(lowered.as_str()) {
        Some(l) => Ok(l),
        None => Err(joined("Invalid log level: ", level)),
    }
}

} // verus!
