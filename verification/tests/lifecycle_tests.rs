use opentelemetry_log::Lifecycle;
use opentelemetry_log::LogError;
use opentelemetry_log::Opentelemetry;

// The process-wide logger slot can be claimed only once per process, so
// everything that exercises a real installation runs in this one test, in
// order.
#[test]
fn lifecycle_end_to_end() {
    // A successful init takes the manager to Initialized and records the
    // parsed filter.
    let mut first = Opentelemetry::new();
    let r = first.init_log("svc-a", "info", "http://localhost:4318");
    assert!(r.is_ok());
    assert!(matches!(first.state, Lifecycle::Initialized));
    assert!(first.logger.is_some());
    assert!(matches!(first.level, Some(opentelemetry_log::level::Level::Info)));

    // A second manager cannot claim the slot: the conflict is reported and
    // the second manager is left untouched.
    let mut second = Opentelemetry::new();
    let r2 = second.init_log("svc-b", "info", "http://localhost:4318");
    assert!(matches!(r2, Err(LogError::SinkConflict)));
    assert!(matches!(second.state, Lifecycle::Uninitialized));
    assert!(second.logger.is_none());

    // Re-initializing the first manager conflicts for the same reason and
    // leaves its live pipeline as it was.
    let r3 = first.init_log("svc-a", "debug", "http://localhost:4318");
    assert!(matches!(r3, Err(LogError::SinkConflict)));
    assert!(matches!(first.state, Lifecycle::Initialized));
    assert!(matches!(first.level, Some(opentelemetry_log::level::Level::Info)));

    // Shutdown flushes (nothing is buffered here) and moves to ShutDown.
    let s1 = first.shutdown();
    assert!(s1.is_ok());
    assert!(matches!(first.state, Lifecycle::ShutDown));
    assert!(first.logger.is_none());
    assert!(first.level.is_none());

    // A second shutdown is a successful no-op.
    let s2 = first.shutdown();
    assert!(s2.is_ok());
    assert!(matches!(first.state, Lifecycle::ShutDown));
}
