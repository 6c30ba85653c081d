//! Configuration and transport selection for an OTLP exporter.
//!
//! A host application says, for each signal, how its telemetry leaves the
//! process: over which protocol, to which endpoint, with what compression,
//! headers and timeout. This crate merges what the application says with the
//! environment and the built-in defaults into one checked configuration, and
//! brings the failures of the transports under one set of errors.

use vstd::prelude::*;

pub mod compression;
pub mod config;
pub mod endpoint;
pub mod environment;
pub mod error;
pub mod exporter;
pub mod headers;
pub mod pipeline;
pub mod text;

pub use crate::compression::{select, Compression, CompressionSupport};
pub use crate::config::{
    resolve, ExportConfig, ExportSettings, Resolved, TransportKind,
    OTEL_EXPORTER_OTLP_ENDPOINT_DEFAULT, OTEL_EXPORTER_OTLP_PROTOCOL_DEFAULT,
    OTEL_EXPORTER_OTLP_TIMEOUT_DEFAULT,
};
pub use crate::environment::{Environment, Setting, Signal};
pub use crate::error::{Error, RemoteStatus, StatusCode};
pub use crate::exporter::{
    HttpExporter, HttpExporterBuilder, TlsRoots, TonicExporter, TonicExporterBuilder,
};
pub use crate::pipeline::OtlpSignalPipeline;

verus! {

/// The communication protocol to use when exporting data.
#[derive(Clone, Copy, Debug, PartialEq, Eq, Structural)]
pub enum Protocol {
    /// gRPC.
    Grpc,
    /// HTTP with a binary protobuf body.
    HttpBinary,
    /// HTTP with a JSON body.
    HttpJson,
}

/// The start of a pipeline: choose the signal on it.
#[derive(Debug)]
pub struct OtlpPipeline;

/// The start of an exporter builder: choose the transport on it.
#[derive(Debug)]
pub struct OtlpExporterPipeline;

/// Stands in a pipeline where no exporter builder is attached yet.
#[derive(Debug)]
pub struct NoExporterConfig(());

impl Default for NoExporterConfig {
    fn default() -> (placeholder: NoExporterConfig) {
        NoExporterConfig(())
    }
}

impl OtlpExporterPipeline {
    /// A builder of an exporter that sends over gRPC. It was told nothing yet,
    /// and has no interceptor.
    pub fn tonic(self) -> (builder: TonicExporterBuilder<()>)
        ensures
            builder.settings@ == ExportSettings::blank(),
            builder.tls_roots is None,
            builder.channel is None,
            builder.interceptor is None,
    {
        TonicExporterBuilder::new()
    }

    /// A builder of an exporter that sends over HTTP with a client of type
    /// `C`. It was told nothing yet, and has no client.
    pub fn http<C>(self) -> (builder: HttpExporterBuilder<C>)
        ensures
            builder.settings@ == ExportSettings::blank(),
            builder.client is None,
    {
        HttpExporterBuilder::new()
    }
}

/// Starts a pipeline.
pub fn new_pipeline() -> (pipeline: OtlpPipeline)
    ensures
        pipeline == OtlpPipeline,
{
    OtlpPipeline
}

/// Starts an exporter builder.
pub fn new_exporter() -> (start: OtlpExporterPipeline)
    ensures
        start == OtlpExporterPipeline,
{
    OtlpExporterPipeline
}

} // verus!
