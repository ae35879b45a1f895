//! The fixed set of severity levels, how a user-supplied string maps into it,
//! and the ordering that decides whether a record passes the configured
//! filter.

use vstd::prelude::*;

use crate::strutil::str_eq;

verus! {

/// The recognized severities, from least to most verbose.
#[derive(Clone, Copy, Debug, PartialEq, Eq, Structural)]
pub enum Level {
    Error,
    Warn,
    Info,
    Debug,
    Trace,
}

/// The verbosity rank of a level: `Error` is the least verbose, `Trace` the
/// most. A record is forwarded when its rank is at most the filter's rank.
pub open spec fn verbosity(l: Level) -> int {
    match l {
        Level::Error => 0,
        Level::Warn => 1,
        Level::Info => 2,
        Level::Debug => 3,
        Level::Trace => 4,
    }
}

/// The level named by a string: exactly the five lower-case names are
/// recognized; every other string maps to `None`.
pub open spec fn level_from(s: Seq<char>) -> Option<Level> {
    if s == "error"@ {
        Some(Level::Error)
    } else if s == "warn"@ {
        Some(Level::Warn)
    } else if s == "info"@ {
        Some(Level::Info)
    } else if s == "debug"@ {
        Some(Level::Debug)
    } else if s == "trace"@ {
        Some(Level::Trace)
    } else {
        None
    }
}

/// Map a user-supplied severity string to its level; `None` exactly on
/// unrecognized input.
pub fn parse_level(s: &str) -> (r: Option<Level>)
    ensures
        r == level_from(s@),
{
    if str_eq(s, "error") {
        Some(Level::Error)
    } else if str_eq(s, "warn") {
        Some(Level::Warn)
    } else if str_eq(s, "info") {
        Some(Level::Info)
    } else if str_eq(s, "debug") {
        Some(Level::Debug)
    } else if str_eq(s, "trace") {
        Some(Level::Trace)
    } else {
        None
    }
}

/// The executable verbosity rank, equal to [`verbosity`].
pub fn verbosity_rank(l: Level) -> (r: u8)
    ensures
        r as int == verbosity(l),
{
    match l {
        Level::Error => 0,
        Level::Warn => 1,
        Level::Info => 2,
        Level::Debug => 3,
        Level::Trace => 4,
    }
}

/// Whether a record emitted at `record` passes a filter configured at
/// `filter`: exactly when the record is at or above the filter in severity,
/// that is, at most as verbose.
pub fn passes_filter(record: Level, filter: Level) -> (r: bool)
    ensures
        r == (verbosity(record) <= verbosity(filter)),
{
    verbosity_rank(record) <= verbosity_rank(filter)
}

} // verus!
