//! The pipeline of one signal: the place where an exporter builder is attached
//! and, once, turned into the exporter of that signal.

use crate::compression::CompressionSupport;
use crate::config::{resolves, TransportKind};
use crate::environment::{Environment, Signal};
use crate::error::Error;
use crate::exporter::{HttpExporter, HttpExporterBuilder, TonicExporter, TonicExporterBuilder};
use crate::{NoExporterConfig, OtlpPipeline};
use vstd::prelude::*;

verus! {

/// The pipeline of one signal, with an exporter builder of type `EB`, or with
/// [`NoExporterConfig`] in its place while none is attached.
#[derive(Debug)]
pub struct OtlpSignalPipeline<EB> {
    /// The signal that the pipeline exports.
    pub signal: Signal,
    /// The builder of its exporter.
    pub exporter_builder: EB,
}

impl OtlpPipeline {
    /// The pipeline of traces.
    pub fn tracing(self) -> (pipeline: OtlpSignalPipeline<NoExporterConfig>)
        ensures
            pipeline.signal == Signal::Traces,
    {
        OtlpSignalPipeline { signal: Signal::Traces, exporter_builder: NoExporterConfig::default() }
    }

    /// The pipeline of metrics.
    pub fn metrics(self) -> (pipeline: OtlpSignalPipeline<NoExporterConfig>)
        ensures
            pipeline.signal == Signal::Metrics,
    {
        OtlpSignalPipeline { signal: Signal::Metrics, exporter_builder: NoExporterConfig::default() }
    }

    /// The pipeline of logs.
    pub fn logging(self) -> (pipeline: OtlpSignalPipeline<NoExporterConfig>)
        ensures
            pipeline.signal == Signal::Logs,
    {
        OtlpSignalPipeline { signal: Signal::Logs, exporter_builder: NoExporterConfig::default() }
    }
}

impl<EB> OtlpSignalPipeline<EB> {
    /// Attaches the builder of the exporter, in place of what was attached.
    pub fn with_exporter<B>(self, builder: B) -> (pipeline: OtlpSignalPipeline<B>)
        ensures
            pipeline.signal == self.signal,
            pipeline.exporter_builder == builder,
    {
        OtlpSignalPipeline { signal: self.signal, exporter_builder: builder }
    }
}

impl<I> OtlpSignalPipeline<TonicExporterBuilder<I>> {
    /// Builds the exporter of the pipeline's signal, once: the pipeline and
    /// its builder are used up. The outcome is that of
    /// [`TonicExporterBuilder::build`] for the signal.
    pub fn build_exporter(self, env: &Environment, support: CompressionSupport) -> (outcome: Result<
        TonicExporter<I>,
        Error,
    >)
        ensures
            resolves(
                self.exporter_builder.settings@,
                env@,
                self.signal,
                TransportKind::Grpc,
                support,
                match outcome {
                    Ok(exporter) => Ok(exporter.resolved()),
                    Err(e) => Err(e),
                },
            ),
            outcome matches Ok(exporter) ==> exporter.resolved().valid() && exporter.chosen_roots()
                == self.exporter_builder.tls_roots && exporter.own_channel()
                == self.exporter_builder.channel && exporter.own_interceptor()
                == self.exporter_builder.interceptor,
    {
        self.exporter_builder.build(self.signal, env, support)
    }
}

impl<C> OtlpSignalPipeline<HttpExporterBuilder<C>> {
    /// Builds the exporter of the pipeline's signal, once: the pipeline and
    /// its builder are used up. The outcome is that of
    /// [`HttpExporterBuilder::build`] for the signal.
    pub fn build_exporter(self, env: &Environment, support: CompressionSupport) -> (outcome: Result<
        HttpExporter<C>,
        Error,
    >)
        ensures
            self.exporter_builder.client is None ==> outcome matches Err(Error::NoHttpClient),
            self.exporter_builder.client is Some ==> resolves(
                self.exporter_builder.settings@,
                env@,
                self.signal,
                TransportKind::Http,
                support,
                match outcome {
                    Ok(exporter) => Ok(exporter.resolved()),
                    Err(e) => Err(e),
                },
            ),
            outcome matches Ok(exporter) ==> exporter.resolved().valid()
                && self.exporter_builder.client == Some(exporter.own_client()),
    {
        self.exporter_builder.build(self.signal, env, support)
    }
}

} // verus!
