//! Building the pipeline and installing it as the process-wide sink.

use vstd::prelude::*;

use crate::endpoint::export_target;
use crate::level::level_from;
use crate::level::parse_level;
use crate::otel;
use crate::Lifecycle;
use crate::LogError;
use crate::Opentelemetry;

verus! {

/// Initialize a new logger exported with OpenTelemetry.
///
/// The severity string is parsed first: an unrecognized one is rejected with
/// `Config` before anything is built or any global state is touched. Then an
/// exporter aimed at exactly `exporter_endpoint + "/v1/logs"` is built and
/// wrapped in a batching provider tagged `service.name = tag`; a bridge from
/// the `log` facade to that provider is installed as the process-wide sink.
/// The registration is single-assignment, so a conflicting installation
/// leaves both the manager and the already-active sink untouched. Only when
/// installation succeeded is the manager committed: a previously held
/// pipeline is flushed and shut down before the new provider replaces it, the
/// process-wide filter is set to the parsed level, and the manager is
/// `Initialized`.
///
/// A manager may call this in any state: a second call while `Initialized`
/// rebuilds the pipeline rather than failing, and a call after `shutdown`
/// re-enters `Initialized` — though either succeeds only if the global slot
/// can still be claimed, which the facade grants once per process.
pub fn init(
    manager: &mut Opentelemetry,
    tag: String,
    level: &str,
    exporter_endpoint: &str,
) -> (r: Result<(), LogError>)
    requires
        old(manager).wf(),
    ensures
        final(manager).wf(),
        level_from(level@) is None <==> r matches Err(LogError::Config(_)),
        r matches Err(LogError::Config(s)) ==> s@ == level@ && *final(manager) == *old(manager),
        r matches Err(LogError::Build) ==> *final(manager) == *old(manager),
        r matches Err(LogError::SinkConflict) ==> *final(manager) == *old(manager),
        !(r matches Err(LogError::Shutdown)),
        r is Ok ==> {
            &&& final(manager).state is Initialized
            &&& final(manager).level == level_from(level@)
        },
{
    let parsed = match parse_level(level) {
        Some(l) => l,
        None => {
            return Err(LogError::Config(String::from_str(level)));
        },
    };
    let target = export_target(exporter_endpoint);
    let exporter = match otel::build_exporter(target.as_str()) {
        Ok(e) => e,
        Err(_) => {
            return Err(LogError::Build);
        },
    };
    let provider = otel::build_provider(exporter, tag.as_str());
    match otel::install_bridge(&provider) {
        Ok(()) => {},
        Err(_) => {
            return Err(LogError::SinkConflict);
        },
    }
    // Drain the previous pipeline, if any, before it is replaced, so that
    // buffered records are not silently dropped; a flush failure here must
    // not undo an installation that already succeeded.
    let previous = manager.logger.take();
    match previous {
        Some(p) => {
            let _ = otel::provider_shutdown(&p);
        },
        None => {},
    }
    otel::set_global_level(parsed);
    manager.logger = Some(provider);
    manager.state = Lifecycle::Initialized;
    manager.level = Some(parsed);
    Ok(())
}

} // verus!
