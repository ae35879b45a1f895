use opentelemetry_log::level::parse_level;
use opentelemetry_log::level::passes_filter;
use opentelemetry_log::level::verbosity_rank;
use opentelemetry_log::level::Level;

#[test]
fn recognizes_error() {
    assert!(matches!(parse_level("error"), Some(Level::Error)));
}

#[test]
fn recognizes_warn() {
    assert!(matches!(parse_level("warn"), Some(Level::Warn)));
}

#[test]
fn recognizes_info() {
    assert!(matches!(parse_level("info"), Some(Level::Info)));
}

#[test]
fn recognizes_debug() {
    assert!(matches!(parse_level("debug"), Some(Level::Debug)));
}

#[test]
fn recognizes_trace() {
    assert!(matches!(parse_level("trace"), Some(Level::Trace)));
}

#[test]
fn rejects_unknown_strings() {
    assert!(parse_level("verbose").is_none());
    assert!(parse_level("").is_none());
    assert!(parse_level("warning").is_none());
    assert!(parse_level("inf").is_none());
    assert!(parse_level("info ").is_none());
}

#[test]
fn rejects_other_case() {
    assert!(parse_level("INFO").is_none());
    assert!(parse_level("Error").is_none());
}

#[test]
fn verbosity_orders_levels() {
    assert_eq!(verbosity_rank(Level::Error), 0);
    assert_eq!(verbosity_rank(Level::Warn), 1);
    assert_eq!(verbosity_rank(Level::Info), 2);
    assert_eq!(verbosity_rank(Level::Debug), 3);
    assert_eq!(verbosity_rank(Level::Trace), 4);
}

#[test]
fn filter_passes_at_or_above() {
    assert!(passes_filter(Level::Error, Level::Info));
    assert!(passes_filter(Level::Warn, Level::Info));
    assert!(passes_filter(Level::Info, Level::Info));
    assert!(!passes_filter(Level::Debug, Level::Info));
    assert!(!passes_filter(Level::Trace, Level::Info));
}
