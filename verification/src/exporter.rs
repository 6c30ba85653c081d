//! The builders of exporters, one for each transport, and the exporters that
//! they build.

use crate::compression::CompressionSupport;
use crate::config::{resolve, resolves, ExportConfig, ExportSettings, Resolved, TransportKind};
use crate::environment::{Environment, Signal};
use crate::error::Error;
use crate::headers::encoded;
use crate::text::{entries_view, pairs_text};
use crate::Protocol;
use vstd::prelude::*;

verus! {

/// `tonic::transport::Channel`, a gRPC channel. Carried from the builder to
/// the exporter, never used here.
#[verifier::external_type_specification]
#[verifier::external_body]
pub struct ExChannel(tonic::transport::Channel);

/// `tonic::metadata::MetadataMap`, the metadata of a gRPC call. Taken from the
/// caller and read out entry by entry.
#[verifier::external_type_specification]
#[verifier::external_body]
pub struct ExMetadataMap(tonic::metadata::MetadataMap);

/// The entries that a metadata map holds, each as its key and the bytes of its
/// value in the form of a header, in the order in which the map hands them out.
pub uninterp spec fn metadata_entries(metadata: tonic::metadata::MetadataMap) -> Seq<
    (Seq<char>, Seq<u8>),
>;

/// Turns the map into its headers with `tonic::metadata::MetadataMap::into_headers`
/// and hands out each entry as the text of its name and a copy of the bytes of
/// its value. [`metadata_entries`] stands for what comes out.
#[verifier::external_body]
fn read_metadata(metadata: tonic::metadata::MetadataMap) -> (entries: Vec<(String, Vec<u8>)>)
    ensures
        entries_view(entries@) == metadata_entries(metadata),
{
    let headers = metadata.into_headers();
    headers.iter().map(|(name, value)| (name.as_str().to_owned(), value.as_bytes().to_vec())).collect()
}

/// The set of trusted roots that a gRPC client asks for when it connects
/// over TLS.
#[derive(Clone, Copy, Debug, PartialEq, Eq, Structural)]
pub enum TlsRoots {
    /// The roots that the system trusts.
    Native,
    /// The roots that Mozilla ships.
    Webpki,
}

/// Builds an exporter that sends over gRPC, with an interceptor of type `I`
/// where the caller brings one.
#[derive(Debug)]
pub struct TonicExporterBuilder<I> {
    /// What the builder was told of the settings that every exporter has.
    pub settings: ExportSettings,
    /// The trusted roots to ask for, where the builder was told.
    pub tls_roots: Option<TlsRoots>,
    /// The channel to send on, where the caller brings its own.
    pub channel: Option<tonic::transport::Channel>,
    /// What is to look at every request before it is sent, where the caller
    /// brings it.
    pub interceptor: Option<I>,
}

/// An exporter that sends over gRPC. What it holds was checked when it was
/// built, and does not change.
#[derive(Debug)]
pub struct TonicExporter<I> {
    config: ExportConfig,
    metadata: Vec<(String, Vec<u8>)>,
    tls_roots: Option<TlsRoots>,
    channel: Option<tonic::transport::Channel>,
    interceptor: Option<I>,
}

/// Builds an exporter that sends over HTTP, with a client of type `C`.
#[derive(Debug)]
pub struct HttpExporterBuilder<C> {
    /// What the builder was told of the settings that every exporter has.
    pub settings: ExportSettings,
    /// The client to send with, once the builder was given one.
    pub client: Option<C>,
}

/// An exporter that sends over HTTP, with a client of type `C`. What it holds
/// was checked when it was built, and does not change.
#[derive(Debug)]
pub struct HttpExporter<C> {
    config: ExportConfig,
    headers: Vec<(String, Vec<u8>)>,
    client: C,
}

impl<I> TonicExporter<I> {
    #[verifier::type_invariant]
    spec fn well_formed(self) -> bool {
        self.resolved().valid() && self.config.protocol == Protocol::Grpc
    }

    /// The configuration and the metadata, as they were resolved.
    pub closed spec fn resolved(self) -> Resolved {
        Resolved { config: self.config, headers: self.metadata }
    }

    /// The trusted roots to ask for, where the builder was told.
    pub closed spec fn chosen_roots(self) -> Option<TlsRoots> {
        self.tls_roots
    }

    /// The channel to send on, where the caller brought its own.
    pub closed spec fn own_channel(self) -> Option<tonic::transport::Channel> {
        self.channel
    }

    /// What is to look at every request, where the caller brought it.
    pub closed spec fn own_interceptor(self) -> Option<I> {
        self.interceptor
    }

    /// The configuration that the exporter was built with. It is valid, and its
    /// protocol is gRPC.
    pub fn config(&self) -> (config: &ExportConfig)
        ensures
            *config == self.resolved().config,
            config@.valid(),
            config.protocol == Protocol::Grpc,
    {
        proof {
            use_type_invariant(self);
        }
        &self.config
    }

    /// The metadata that goes with every request, in the order in which it is
    /// to be set. Each entry may be sent.
    pub fn metadata(&self) -> (metadata: &Vec<(String, Vec<u8>)>)
        ensures
            *metadata == self.resolved().headers,
            self.resolved().valid(),
    {
        proof {
            use_type_invariant(self);
        }
        &self.metadata
    }

    /// The trusted roots to ask for, where the builder was told.
    pub fn tls_roots(&self) -> (roots: Option<TlsRoots>)
        ensures
            roots == self.chosen_roots(),
    {
        self.tls_roots
    }

    /// Takes the exporter apart: the resolved configuration and metadata, the
    /// trusted roots, the caller's channel and the caller's interceptor.
    pub fn into_parts(self) -> (parts: (
        Resolved,
        Option<TlsRoots>,
        Option<tonic::transport::Channel>,
        Option<I>,
    ))
        ensures
            parts.0 == self.resolved(),
            parts.0.valid(),
            parts.1 == self.chosen_roots(),
            parts.2 == self.own_channel(),
            parts.3 == self.own_interceptor(),
    {
        proof {
            use_type_invariant(&self);
        }
        (
            Resolved { config: self.config, headers: self.metadata },
            self.tls_roots,
            self.channel,
            self.interceptor,
        )
    }
}

impl<C> HttpExporter<C> {
    #[verifier::type_invariant]
    spec fn well_formed(self) -> bool {
        self.resolved().valid() && self.config.protocol != Protocol::Grpc
    }

    /// The configuration and the headers, as they were resolved.
    pub closed spec fn resolved(self) -> Resolved {
        Resolved { config: self.config, headers: self.headers }
    }

    /// The client that the exporter sends with.
    pub closed spec fn own_client(self) -> C {
        self.client
    }

    /// The configuration that the exporter was built with. It is valid, and its
    /// protocol is one of HTTP.
    pub fn config(&self) -> (config: &ExportConfig)
        ensures
            *config == self.resolved().config,
            config@.valid(),
            config.protocol != Protocol::Grpc,
    {
        proof {
            use_type_invariant(self);
        }
        &self.config
    }

    /// The headers that go with every request, in the order in which they are
    /// to be set. Each may be sent.
    pub fn headers(&self) -> (headers: &Vec<(String, Vec<u8>)>)
        ensures
            *headers == self.resolved().headers,
            self.resolved().valid(),
    {
        proof {
            use_type_invariant(self);
        }
        &self.headers
    }

    /// The client that the exporter sends with.
    pub fn client(&self) -> (client: &C)
        ensures
            *client == self.own_client(),
    {
        &self.client
    }

    /// Takes the exporter apart: the resolved configuration and headers, and
    /// the client.
    pub fn into_parts(self) -> (parts: (Resolved, C))
        ensures
            parts.0 == self.resolved(),
            parts.0.valid(),
            parts.1 == self.own_client(),
    {
        proof {
            use_type_invariant(&self);
        }
        (Resolved { config: self.config, headers: self.headers }, self.client)
    }
}

impl TonicExporterBuilder<()> {
    /// A builder that was told nothing yet, and has no interceptor.
    pub fn new() -> (builder: TonicExporterBuilder<()>)
        ensures
            builder.settings@ == ExportSettings::blank(),
            builder.tls_roots is None,
            builder.channel is None,
            builder.interceptor is None,
    {
        TonicExporterBuilder {
            settings: ExportSettings::new(),
            tls_roots: None,
            channel: None,
            interceptor: None,
        }
    }
}

impl<I> TonicExporterBuilder<I> {

    /// Sets the endpoint.
    pub fn with_endpoint(self, endpoint: &str) -> (builder: TonicExporterBuilder<I>)
        ensures
            builder.settings@ == self.settings@.endpoint(endpoint@),
            builder.tls_roots == self.tls_roots,
            builder.channel == self.channel,
            builder.interceptor == self.interceptor,
    {
        TonicExporterBuilder {
            settings: self.settings.with_endpoint(endpoint),
            tls_roots: self.tls_roots,
            channel: self.channel,
            interceptor: self.interceptor,
        }
    }

    /// Sets the protocol.
    pub fn with_protocol(self, protocol: Protocol) -> (builder: TonicExporterBuilder<I>)
        ensures
            builder.settings@ == self.settings@.protocol(protocol),
            builder.tls_roots == self.tls_roots,
            builder.channel == self.channel,
            builder.interceptor == self.interceptor,
    {
        TonicExporterBuilder {
            settings: self.settings.with_protocol(protocol),
            tls_roots: self.tls_roots,
            channel: self.channel,
            interceptor: self.interceptor,
        }
    }

    /// Sets the timeout, in milliseconds.
    pub fn with_timeout(self, millis: u64) -> (builder: TonicExporterBuilder<I>)
        ensures
            builder.settings@ == self.settings@.timeout(millis),
            builder.tls_roots == self.tls_roots,
            builder.channel == self.channel,
            builder.interceptor == self.interceptor,
    {
        TonicExporterBuilder {
            settings: self.settings.with_timeout(millis),
            tls_roots: self.tls_roots,
            channel: self.channel,
            interceptor: self.interceptor,
        }
    }

    /// Asks for the compression algorithm of this name.
    pub fn with_compression(self, name: &str) -> (builder: TonicExporterBuilder<I>)
        ensures
            builder.settings@ == self.settings@.compression(name@),
            builder.tls_roots == self.tls_roots,
            builder.channel == self.channel,
            builder.interceptor == self.interceptor,
    {
        TonicExporterBuilder {
            settings: self.settings.with_compression(name),
            tls_roots: self.tls_roots,
            channel: self.channel,
            interceptor: self.interceptor,
        }
    }

    /// Sets the endpoint, the protocol and the timeout to those of `config`,
    /// and the compression to the one that `config` names, if it names one.
    pub fn with_export_config(self, config: ExportConfig) -> (builder: TonicExporterBuilder<I>)
        ensures
            builder.settings@ == self.settings@.export_config(config@),
            builder.tls_roots == self.tls_roots,
            builder.channel == self.channel,
            builder.interceptor == self.interceptor,
    {
        TonicExporterBuilder {
            settings: self.settings.with_export_config(config),
            tls_roots: self.tls_roots,
            channel: self.channel,
            interceptor: self.interceptor,
        }
    }

    /// Adds headers that are text to send with every request, after what was
    /// added before.
    pub fn with_headers(self, headers: Vec<(String, String)>) -> (builder: TonicExporterBuilder<I>)
        ensures
            builder.settings@ == self.settings@.more_headers(encoded(pairs_text(headers@))),
            builder.tls_roots == self.tls_roots,
            builder.channel == self.channel,
            builder.interceptor == self.interceptor,
    {
        TonicExporterBuilder {
            settings: self.settings.with_headers(headers),
            tls_roots: self.tls_roots,
            channel: self.channel,
            interceptor: self.interceptor,
        }
    }

    /// Adds the entries of a metadata map to send with every request, after
    /// what was added before.
    pub fn with_metadata(self, metadata: tonic::metadata::MetadataMap) -> (builder:
        TonicExporterBuilder<I>)
        ensures
            builder.settings@ == self.settings@.more_headers(metadata_entries(metadata)),
            builder.tls_roots == self.tls_roots,
            builder.channel == self.channel,
            builder.interceptor == self.interceptor,
    {
        TonicExporterBuilder {
            settings: self.settings.with_entries(read_metadata(metadata)),
            tls_roots: self.tls_roots,
            channel: self.channel,
            interceptor: self.interceptor,
        }
    }

    /// Chooses the trusted roots to ask for.
    pub fn with_tls_roots(self, roots: TlsRoots) -> (builder: TonicExporterBuilder<I>)
        ensures
            builder.settings == self.settings,
            builder.tls_roots == Some(roots),
            builder.channel == self.channel,
            builder.interceptor == self.interceptor,
    {
        TonicExporterBuilder {
            settings: self.settings,
            tls_roots: Some(roots),
            channel: self.channel,
            interceptor: self.interceptor,
        }
    }

    /// Brings a channel of the caller's own to send on.
    pub fn with_channel(self, channel: tonic::transport::Channel) -> (builder:
        TonicExporterBuilder<I>)
        ensures
            builder.settings == self.settings,
            builder.tls_roots == self.tls_roots,
            builder.channel == Some(channel),
            builder.interceptor == self.interceptor,
    {
        TonicExporterBuilder {
            settings: self.settings,
            tls_roots: self.tls_roots,
            channel: Some(channel),
            interceptor: self.interceptor,
        }
    }

    /// Brings what is to look at every request before it is sent, in place of
    /// what the builder held for that.
    pub fn with_interceptor<J>(self, interceptor: J) -> (builder: TonicExporterBuilder<J>)
        ensures
            builder.settings == self.settings,
            builder.tls_roots == self.tls_roots,
            builder.channel == self.channel,
            builder.interceptor == Some(interceptor),
    {
        TonicExporterBuilder {
            settings: self.settings,
            tls_roots: self.tls_roots,
            channel: self.channel,
            interceptor: Some(interceptor),
        }
    }

    /// Builds the exporter of `signal`.
    ///
    /// The configuration is resolved for gRPC from what the builder was told,
    /// `env` and the defaults. Where a setting is refused, the error says so
    /// and nothing is built; else the exporter holds the resolved configuration
    /// and metadata, and what the builder held besides.
    pub fn build(self, signal: Signal, env: &Environment, support: CompressionSupport) -> (outcome:
        Result<TonicExporter<I>, Error>)
        ensures
            resolves(
                self.settings@,
                env@,
                signal,
                TransportKind::Grpc,
                support,
                match outcome {
                    Ok(exporter) => Ok(exporter.resolved()),
                    Err(e) => Err(e),
                },
            ),
            outcome matches Ok(exporter) ==> exporter.resolved().valid() && exporter.chosen_roots()
                == self.tls_roots && exporter.own_channel() == self.channel
                && exporter.own_interceptor() == self.interceptor,
    {
        match resolve(&self.settings, env, signal, TransportKind::Grpc, support) {
            Ok(resolved) => Ok(
                TonicExporter {
                    config: resolved.config,
                    metadata: resolved.headers,
                    tls_roots: self.tls_roots,
                    channel: self.channel,
                    interceptor: self.interceptor,
                },
            ),
            Err(e) => Err(e),
        }
    }
}

impl<C> HttpExporterBuilder<C> {
    /// A builder that was told nothing yet, and has no client.
    pub fn new() -> (builder: HttpExporterBuilder<C>)
        ensures
            builder.settings@ == ExportSettings::blank(),
            builder.client is None,
    {
        HttpExporterBuilder { settings: ExportSettings::new(), client: None }
    }

    /// Sets the endpoint.
    pub fn with_endpoint(self, endpoint: &str) -> (builder: HttpExporterBuilder<C>)
        ensures
            builder.settings@ == self.settings@.endpoint(endpoint@),
            builder.client == self.client,
    {
        HttpExporterBuilder { settings: self.settings.with_endpoint(endpoint), client: self.client }
    }

    /// Sets the protocol.
    pub fn with_protocol(self, protocol: Protocol) -> (builder: HttpExporterBuilder<C>)
        ensures
            builder.settings@ == self.settings@.protocol(protocol),
            builder.client == self.client,
    {
        HttpExporterBuilder { settings: self.settings.with_protocol(protocol), client: self.client }
    }

    /// Sets the timeout, in milliseconds.
    pub fn with_timeout(self, millis: u64) -> (builder: HttpExporterBuilder<C>)
        ensures
            builder.settings@ == self.settings@.timeout(millis),
            builder.client == self.client,
    {
        HttpExporterBuilder { settings: self.settings.with_timeout(millis), client: self.client }
    }

    /// Asks for the compression algorithm of this name.
    pub fn with_compression(self, name: &str) -> (builder: HttpExporterBuilder<C>)
        ensures
            builder.settings@ == self.settings@.compression(name@),
            builder.client == self.client,
    {
        HttpExporterBuilder { settings: self.settings.with_compression(name), client: self.client }
    }

    /// Sets the endpoint, the protocol and the timeout to those of `config`,
    /// and the compression to the one that `config` names, if it names one.
    pub fn with_export_config(self, config: ExportConfig) -> (builder: HttpExporterBuilder<C>)
        ensures
            builder.settings@ == self.settings@.export_config(config@),
            builder.client == self.client,
    {
        HttpExporterBuilder {
            settings: self.settings.with_export_config(config),
            client: self.client,
        }
    }

    /// Adds headers to send with every request, after what was added before.
    pub fn with_headers(self, headers: Vec<(String, String)>) -> (builder: HttpExporterBuilder<C>)
        ensures
            builder.settings@ == self.settings@.more_headers(encoded(pairs_text(headers@))),
            builder.client == self.client,
    {
        HttpExporterBuilder { settings: self.settings.with_headers(headers), client: self.client }
    }

    /// Gives the builder the client to send with.
    pub fn with_http_client(self, client: C) -> (builder: HttpExporterBuilder<C>)
        ensures
            builder.settings == self.settings,
            builder.client == Some(client),
    {
        HttpExporterBuilder { settings: self.settings, client: Some(client) }
    }

    /// Builds the exporter of `signal`.
    ///
    /// Without a client nothing is resolved and the error is `NoHttpClient`.
    /// With one, the configuration is resolved for HTTP from what the builder
    /// was told, `env` and the defaults. Where a setting is refused, the error
    /// says so and nothing is built; else the exporter holds the resolved
    /// configuration and headers, and the client.
    pub fn build(self, signal: Signal, env: &Environment, support: CompressionSupport) -> (outcome:
        Result<HttpExporter<C>, Error>)
        ensures
            self.client is None ==> outcome matches Err(Error::NoHttpClient),
            self.client is Some ==> resolves(
                self.settings@,
                env@,
                signal,
                TransportKind::Http,
                support,
                match outcome {
                    Ok(exporter) => Ok(exporter.resolved()),
                    Err(e) => Err(e),
                },
            ),
            outcome matches Ok(exporter) ==> exporter.resolved().valid() && self.client == Some(
                exporter.own_client(),
            ),
    {
        let client = match self.client {
            Some(client) => client,
            None => {
                return Err(Error::NoHttpClient);
            },
        };
        match resolve(&self.settings, env, signal, TransportKind::Http, support) {
            Ok(resolved) => Ok(
                HttpExporter { config: resolved.config, headers: resolved.headers, client },
            ),
            Err(e) => Err(e),
        }
    }
}

} // verus!
