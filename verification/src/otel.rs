//! The trusted boundary to the OpenTelemetry crates and to the `log` facade.
//!
//! Every item here either declares an outside type so that it can stand in
//! signatures, or wraps one outside operation in a function whose contract
//! Verus believes. All decisions — which level is recognized, what the
//! exporter target is, how the manager's state moves — are made in verified
//! code outside this module; the wrappers only carry values across the
//! boundary.

use vstd::prelude::*;

use opentelemetry::KeyValue;
use opentelemetry_appender_log::OpenTelemetryLogBridge;
use opentelemetry_otlp::WithExportConfig;
use opentelemetry_sdk::logs::BatchLogProcessor;
use opentelemetry_sdk::logs::SdkLoggerProvider;
use opentelemetry_sdk::Resource;

use crate::level::Level;

verus! {

/// The SDK's provider handle: a configured pipeline of exporter, batching
/// processor and resource attributes. Opaque here; held by the manager and
/// passed back to the SDK for shutdown.
#[verifier::external_type_specification]
#[verifier::external_body]
pub struct ExSdkLoggerProvider(SdkLoggerProvider);

/// The OTLP log exporter, carried from [`build_exporter`] to
/// [`build_provider`].
#[verifier::external_type_specification]
#[verifier::external_body]
pub struct ExLogExporter(opentelemetry_otlp::LogExporter);

/// The error the OTLP crate reports when an exporter cannot be constructed.
#[verifier::external_type_specification]
#[verifier::external_body]
pub struct ExExporterBuildError(opentelemetry_otlp::ExporterBuildError);

/// The error the SDK reports when flushing or closing a provider fails.
#[verifier::external_type_specification]
#[verifier::external_body]
pub struct ExOTelSdkError(opentelemetry_sdk::error::OTelSdkError);

/// The error the `log` facade reports when a global logger is already set.
#[verifier::external_type_specification]
#[verifier::external_body]
pub struct ExSetLoggerError(log::SetLoggerError);

/// Relies on `opentelemetry_otlp::LogExporter::builder`: constructs an
/// exporter for binary-protocol HTTP transport aimed at exactly the given
/// target URL; `Err` when the target cannot be parsed or the transport cannot
/// be set up.
#[verifier::external_body]
pub(crate) fn build_exporter(target: &str) -> Result<
    opentelemetry_otlp::LogExporter,
    opentelemetry_otlp::ExporterBuildError,
> {
    opentelemetry_otlp::LogExporter::builder()
        .with_http()
        .with_protocol(opentelemetry_otlp::Protocol::HttpBinary)
        .with_endpoint(target)
        .build()
}

/// Relies on `BatchLogProcessor::builder`, `Resource::builder` and
/// `SdkLoggerProvider::builder`: wraps the exporter in a batching processor
/// with the SDK's default bounds and builds a provider whose resource carries
/// the attribute `service.name = tag` (the key is the semantic-conventions
/// `SERVICE_NAME` constant).
#[verifier::external_body]
pub(crate) fn build_provider(
    exporter: opentelemetry_otlp::LogExporter,
    tag: &str,
) -> SdkLoggerProvider {
    let processor = BatchLogProcessor::builder(exporter).build();
    let resource = Resource::builder()
        .with_attributes(vec![KeyValue::new(
            opentelemetry_semantic_conventions::resource::SERVICE_NAME,
            tag.to_owned(),
        )])
        .build();
    SdkLoggerProvider::builder().with_resource(resource).with_log_processor(processor).build()
}

/// Relies on `log::set_boxed_logger`: registers a bridge from the facade to
/// the given provider (an `OpenTelemetryLogBridge`, built here because its
/// type cannot stand in a signature) as the process-wide logger. The
/// registration is single-assignment: the facade returns `Err` exactly when a
/// global logger was already installed, and then leaves the installed one
/// active.
#[verifier::external_body]
pub(crate) fn install_bridge(provider: &SdkLoggerProvider) -> Result<(), log::SetLoggerError> {
    let bridge = OpenTelemetryLogBridge::new(provider);
    log::set_boxed_logger(Box::new(bridge))
}

/// Relies on `log::set_max_level`: sets the process-wide maximum severity
/// filter to the filter matching the given level, so that records more
/// verbose than it are dropped at the call site.
#[verifier::external_body]
pub(crate) fn set_global_level(level: Level) {
    let filter = match level {
        Level::Error => log::LevelFilter::Error,
        Level::Warn => log::LevelFilter::Warn,
        Level::Info => log::LevelFilter::Info,
        Level::Debug => log::LevelFilter::Debug,
        Level::Trace => log::LevelFilter::Trace,
    };
    log::set_max_level(filter);
}

/// Relies on `SdkLoggerProvider::shutdown`: flushes all buffered batches with
/// a bounded timeout and closes the transport; `Err` when a flush fails, times
/// out, or the provider was already shut down.
#[verifier::external_body]
pub(crate) fn provider_shutdown(provider: &SdkLoggerProvider) -> Result<
    (),
    opentelemetry_sdk::error::OTelSdkError,
> {
    provider.shutdown()
}

} // verus!
