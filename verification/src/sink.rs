//! A verified model of the process-wide log sink.
//!
//! A conventional logging facade is a single global dispatch point, so the
//! sink is modelled explicitly as a single-assignment registry: `try_install`
//! claims the slot or reports a conflict, and `emit` forwards a record to the
//! installed sink exactly when the record is at or above the configured
//! filter. The real process-wide registry is the `log` facade, reached
//! through the trusted boundary; this model states the same contract over
//! plain values, where it can be proved and exercised.

use vstd::prelude::*;

use crate::level::Level;
use crate::level::passes_filter;
use crate::level::verbosity;
use crate::LogError;

verus! {

/// One record as the provider receives it: the resource tag of the sink that
/// forwarded it, the severity it was emitted at, and its body.
pub struct LogRecord {
    pub tag: String,
    pub level: Level,
    pub body: String,
}

/// The sink occupying the global slot: its resource tag, its severity filter,
/// and every record it has forwarded, in order.
pub struct InstalledSink {
    pub tag: String,
    pub filter: Level,
    pub forwarded: Vec<LogRecord>,
}

/// The single-assignment global registry: at most one sink is ever active,
/// and installing over an active sink is a conflict, never an override.
pub struct SinkRegistry {
    pub active: Option<InstalledSink>,
}

impl SinkRegistry {
    /// A registry with an empty slot.
    pub fn new() -> (r: Self)
        ensures
            r.active is None,
    {
        SinkRegistry { active: None }
    }

    /// Claim the global slot for a sink with the given tag and filter.
    /// Succeeds exactly when the slot is empty; a second installation yields
    /// `SinkConflict` and leaves the first sink active and untouched.
    pub fn try_install(&mut self, tag: String, filter: Level) -> (r: Result<(), LogError>)
        ensures
            old(self).active is None ==> {
                &&& r is Ok
                &&& final(self).active matches Some(s)
                    && s.tag@ == tag@
                    && s.filter == filter
                    && s.forwarded@.len() == 0
            },
            old(self).active is Some ==> {
                &&& r matches Err(LogError::SinkConflict)
                &&& *final(self) == *old(self)
            },
    {
        if self.active.is_some() {
            Err(LogError::SinkConflict)
        } else {
            self.active = Some(InstalledSink { tag, filter, forwarded: Vec::new() });
            Ok(())
        }
    }

    /// Hand a record emitted through the facade to the registry. When a sink
    /// is active and the record is at or above its filter, exactly one
    /// corresponding record is appended to what the sink has forwarded and
    /// the result is `true`; otherwise nothing changes and the result is
    /// `false`.
    pub fn emit(&mut self, level: Level, body: String) -> (r: bool)
        ensures
            old(self).active is None ==> {
                &&& r == false
                &&& *final(self) == *old(self)
            },
            old(self).active matches Some(s) ==> {
                &&& verbosity(level) > verbosity(s.filter) ==> {
                    &&& r == false
                    &&& *final(self) == *old(self)
                }
                &&& verbosity(level) <= verbosity(s.filter) ==> {
                    &&& r == true
                    &&& final(self).active matches Some(t)
                        && t.tag@ == s.tag@
                        && t.filter == s.filter
                        && t.forwarded@.len() == s.forwarded@.len() + 1
                        && (forall|i: int| 0 <= i < s.forwarded@.len()
                            ==> t.forwarded@[i] == s.forwarded@[i])
                        && t.forwarded@.last().tag@ == s.tag@
                        && t.forwarded@.last().level == level
                        && t.forwarded@.last().body@ == body@
                }
            },
    {
        let mut slot = self.active.take();
        let r: bool;
        match slot {
            None => {
                r = false;
                slot = None;
            },
            Some(mut sink) => {
                if passes_filter(level, sink.filter) {
                    let tag = sink.tag.clone();
                    sink.forwarded.push(LogRecord { tag, level, body });
                    r = true;
                } else {
                    r = false;
                }
                slot = Some(sink);
            },
        }
        self.active = slot;
        r
    }
}

} // verus!
