//! Lifecycle management for a logging pipeline that exports records through an
//! OpenTelemetry collector over HTTP.
//!
//! The crate owns the one piece of logic in such a wrapper that deserves exact
//! statements: the manager that builds a provider pipeline, installs it as the
//! process-wide log sink at most once, filters records by severity, and shuts
//! the pipeline down in an orderly, idempotent way. Batching, encoding and
//! transport are delegated to the OpenTelemetry SDK and exporter crates, which
//! are reached only through the trusted boundary in [`otel`].

pub mod endpoint;
pub mod level;
pub mod log;
pub mod otel;
pub mod sink;
pub mod strutil;

use vstd::prelude::*;

verus! {

use crate::level::Level;

/// The lifecycle of one manager instance: it starts with no pipeline, `init`
/// moves it to `Initialized`, and `shutdown` moves it to `ShutDown`.
#[derive(Clone, Copy, Debug, PartialEq, Eq, Structural)]
pub enum Lifecycle {
    Uninitialized,
    Initialized,
    ShutDown,
}

/// Everything that can go wrong while managing the pipeline.
#[derive(Debug)]
pub enum LogError {
    /// The severity string handed to `init` is not one of the recognized
    /// levels; carries the offending input.
    Config(String),
    /// The exporter or provider could not be constructed (for instance, a
    /// malformed endpoint).
    Build,
    /// A process-wide log sink was already installed; the existing sink is
    /// left active.
    SinkConflict,
    /// Flushing or closing the pipeline failed during teardown.
    Shutdown,
}

/// Owns the lifetime of a telemetry logging pipeline: holds the provider
/// handle after a successful `init_log` and guarantees that `shutdown` flushes
/// and closes it exactly once.
#[derive(Debug)]
pub struct Opentelemetry {
    /// The provider handle built by the last successful `init_log`, shared
    /// with the installed bridge.
    pub logger: Option<opentelemetry_sdk::logs::SdkLoggerProvider>,
    /// Where this instance stands in its lifecycle.
    pub state: Lifecycle,
    /// The severity filter configured by the last successful `init_log`.
    pub level: Option<Level>,
}

impl Opentelemetry {
    /// A provider handle is held exactly in the `Initialized` state, and the
    /// configured level is recorded exactly as long as the pipeline is live.
    pub open spec fn wf(self) -> bool {
        &&& self.state is Initialized <==> self.logger is Some
        &&& self.state is Initialized <==> self.level is Some
    }

    /// A manager that holds no pipeline and has no side effects.
    pub fn new() -> (r: Self)
        ensures
            r.wf(),
            r.state is Uninitialized,
            r.level is None,
    {
        Opentelemetry { logger: None, state: Lifecycle::Uninitialized, level: None }
    }

    /// Initialize a new logger with the provided tag, level, and exporter
    /// endpoint, and install it as the process-wide sink. See
    /// [`crate::log::init`] for the full contract; keep the manager alive for
    /// as long as records may still be emitted.
    pub fn init_log(
        &mut self,
        tag: &str,
        level: &str,
        exporter_endpoint: &str,
    ) -> (r: Result<(), LogError>)
        requires
            old(self).wf(),
        ensures
            final(self).wf(),
            crate::level::level_from(level@) is None <==> r matches Err(LogError::Config(_)),
            r matches Err(LogError::Config(s)) ==> s@ == level@ && *final(self) == *old(self),
            r matches Err(LogError::Build) ==> *final(self) == *old(self),
            r matches Err(LogError::SinkConflict) ==> *final(self) == *old(self),
            !(r matches Err(LogError::Shutdown)),
            r is Ok ==> {
                &&& final(self).state is Initialized
                &&& final(self).level == crate::level::level_from(level@)
            },
    {
        crate::log::init(self, String::from_str(tag), level, exporter_endpoint)
    }

    /// Flush and close the held pipeline. On an `Initialized` manager this
    /// moves it to `ShutDown`, reporting a flush failure as `Shutdown`
    /// without undoing the transition; on a manager holding no pipeline it is
    /// a no-op returning success, so a second call after a shutdown always
    /// succeeds and performs no further action.
    pub fn shutdown(&mut self) -> (r: Result<(), LogError>)
        requires
            old(self).wf(),
        ensures
            final(self).wf(),
            old(self).state is Uninitialized ==> r is Ok && *final(self) == *old(self),
            old(self).state is ShutDown ==> r is Ok && *final(self) == *old(self),
            old(self).state is Initialized ==> {
                &&& final(self).state is ShutDown
                &&& final(self).level is None
                &&& r is Ok || r matches Err(LogError::Shutdown)
            },
    {
        match self.state {
            Lifecycle::Initialized => {
                let previous = self.logger.take();
                self.state = Lifecycle::ShutDown;
                self.level = None;
                match previous {
                    Some(p) => match crate::otel::provider_shutdown(&p) {
                        Ok(()) => Ok(()),
                        Err(_) => Err(LogError::Shutdown),
                    },
                    None => Ok(()),
                }
            },
            _ => Ok(()),
        }
    }
}

impl Default for Opentelemetry {
    fn default() -> (r: Self)
        ensures
            r.wf(),
            r.state is Uninitialized,
            r.level is None,
    {
        Self::new()
    }
}

} // verus!
