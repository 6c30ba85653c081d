//! The configuration of one exporter, and how it is resolved from what the
//! builder was told, what the environment says and the built-in defaults.

use crate::compression::{select, selection, selects, Compression, CompressionSupport};
use crate::endpoint::{check_endpoint, endpoint_fault, reports_endpoint_fault};
use crate::environment::{
    env_setting, general_name, signal_name, Environment, Setting, Signal,
};
use crate::error::Error;
use crate::headers::{
    check_headers, encode_pairs, encoded, header_pairs, headers_checked, parse_header_string,
};
use crate::text::{chars_of, entries_view, opt_text, pairs_text, str_eq};
use crate::Protocol;
use vstd::prelude::*;
use vstd::slice::slice_to_vec;
use vstd::string::StringExecFns;

verus! {

/// The endpoint where neither the builder nor the environment names one.
pub const OTEL_EXPORTER_OTLP_ENDPOINT_DEFAULT: &'static str = "http://localhost:4317";

/// The name of the protocol that a gRPC exporter has where neither the builder
/// nor the environment names one. An HTTP exporter then has `http/protobuf`.
pub const OTEL_EXPORTER_OTLP_PROTOCOL_DEFAULT: &'static str = "grpc";

/// The timeout, in milliseconds, where neither the builder nor the environment
/// gives one.
pub const OTEL_EXPORTER_OTLP_TIMEOUT_DEFAULT: u64 = 10000;

/// Why the channel cannot be set up: the protocol is not one that the
/// transport of the exporter speaks.
pub const REJECTED_PROTOCOL: &'static str = "the protocol does not suit the transport of the exporter";

/// Why the channel cannot be set up: the builder was given a timeout of zero.
pub const REJECTED_TIMEOUT: &'static str = "the timeout must be positive";

impl Protocol {
    /// The name by which the environment asks for this protocol.
    pub open spec fn spec_name(self) -> Seq<char> {
        match self {
            Protocol::Grpc => "grpc"@,
            Protocol::HttpBinary => "http/protobuf"@,
            Protocol::HttpJson => "http/json"@,
        }
    }

    /// The name by which the environment asks for this protocol.
    pub fn name(self) -> (name: &'static str)
        ensures
            name@ == self.spec_name(),
    {
        match self {
            Protocol::Grpc => "grpc",
            Protocol::HttpBinary => "http/protobuf",
            Protocol::HttpJson => "http/json",
        }
    }

    /// The protocol that `name` names, if it names one.
    pub open spec fn named(name: Seq<char>) -> Option<Protocol> {
        if name == "grpc"@ {
            Some(Protocol::Grpc)
        } else if name == "http/protobuf"@ {
            Some(Protocol::HttpBinary)
        } else if name == "http/json"@ {
            Some(Protocol::HttpJson)
        } else {
            None
        }
    }

    /// Reads the name of a protocol.
    pub fn parse(name: &str) -> (protocol: Option<Protocol>)
        ensures
            protocol == Protocol::named(name@),
    {
        if str_eq(name, "grpc") {
            Some(Protocol::Grpc)
        } else if str_eq(name, "http/protobuf") {
            Some(Protocol::HttpBinary)
        } else if str_eq(name, "http/json") {
            Some(Protocol::HttpJson)
        } else {
            None
        }
    }
}

/// Each protocol is named by its own name.
pub proof fn lemma_protocol_names(protocol: Protocol)
    ensures
        Protocol::named(protocol.spec_name()) == Some(protocol),
{
    reveal_strlit("grpc");
    reveal_strlit("http/protobuf");
    reveal_strlit("http/json");
    assert("grpc"@.len() != "http/protobuf"@.len());
    assert("grpc"@.len() != "http/json"@.len());
    assert("http/protobuf"@.len() != "http/json"@.len());
}

/// The transport that an exporter is built on.
#[derive(Clone, Copy, Debug, PartialEq, Eq, Structural)]
pub enum TransportKind {
    /// A gRPC channel.
    Grpc,
    /// An HTTP client.
    Http,
}

impl TransportKind {
    /// Whether this transport speaks `protocol`: gRPC speaks `Grpc`, HTTP
    /// speaks `HttpBinary` and `HttpJson`.
    pub open spec fn carries(self, protocol: Protocol) -> bool {
        match self {
            TransportKind::Grpc => protocol == Protocol::Grpc,
            TransportKind::Http => protocol != Protocol::Grpc,
        }
    }

    /// The protocol of this transport where nothing names one: gRPC for gRPC,
    /// and HTTP with a binary body for HTTP.
    pub open spec fn default_protocol(self) -> Protocol {
        match self {
            TransportKind::Grpc => Protocol::Grpc,
            TransportKind::Http => Protocol::HttpBinary,
        }
    }

    /// The protocol of this transport where nothing names one.
    pub fn protocol_by_default(self) -> (protocol: Protocol)
        ensures
            protocol == self.default_protocol(),
            self.carries(protocol),
    {
        match self {
            TransportKind::Grpc => Protocol::Grpc,
            TransportKind::Http => Protocol::HttpBinary,
        }
    }

    /// Whether this transport speaks `protocol`.
    pub fn speaks(self, protocol: Protocol) -> (yes: bool)
        ensures
            yes == self.carries(protocol),
    {
        match self {
            TransportKind::Grpc => protocol == Protocol::Grpc,
            TransportKind::Http => protocol != Protocol::Grpc,
        }
    }
}

/// Whether `c` is a decimal digit.
pub open spec fn is_digit(c: char) -> bool {
    '0' <= c <= '9'
}

/// The number that the decimal digits `s` write.
pub open spec fn decimal_value(s: Seq<char>) -> nat
    decreases s.len(),
{
    if s.len() == 0 {
        0
    } else {
        (decimal_value(s.drop_last()) * 10 + (s.last() as int - '0' as int)) as nat
    }
}

/// The timeout, in milliseconds, that `s` gives: `s` is one or more decimal
/// digits, and the number they write is positive and fits 64 bits. Any other
/// text gives none.
pub open spec fn millis_of(s: Seq<char>) -> Option<u64> {
    if s.len() > 0 && (forall|i: int| 0 <= i < s.len() ==> is_digit(#[trigger] s[i])) && 0
        < decimal_value(s) <= u64::MAX {
        Some(decimal_value(s) as u64)
    } else {
        None
    }
}

/// Among digits, a longer text writes no smaller a number than its beginning.
proof fn lemma_decimal_value_grows(s: Seq<char>, k: int)
    requires
        0 <= k <= s.len(),
        forall|i: int| 0 <= i < s.len() ==> is_digit(#[trigger] s[i]),
    ensures
        decimal_value(s.take(k)) <= decimal_value(s),
    decreases s.len() - k,
{
    if k < s.len() {
        let longer = s.take(k + 1);
        assert(longer.drop_last() =~= s.take(k));
        assert(is_digit(s[k]));
        assert(longer.last() == s[k]);
        lemma_decimal_value_grows(s, k + 1);
    } else {
        assert(s.take(k) =~= s);
    }
}

/// Reads a timeout in milliseconds: see [`millis_of`].
pub fn parse_millis(text: &str) -> (millis: Option<u64>)
    ensures
        millis == millis_of(text@),
{
    let chars = chars_of(text);
    if chars.len() == 0 {
        return None;
    }
    let mut value: u64 = 0;
    let mut i: usize = 0;
    assert(chars@.take(0) =~= Seq::<char>::empty());
    while i < chars.len()
        invariant
            i <= chars.len(),
            chars@ == text@,
            forall|j: int| 0 <= j < i ==> is_digit(#[trigger] chars@[j]),
            value == decimal_value(chars@.take(i as int)),
        decreases chars.len() - i,
    {
        let c = chars[i];
        if !(c >= '0' && c <= '9') {
            return None;
        }
        let digit: u64 = (c as u32 - '0' as u32) as u64;
        proof {
            assert(chars@.take(i as int + 1).drop_last() =~= chars@.take(i as int));
            assert(chars@.take(i as int + 1).last() == c);
        }
        if value > (u64::MAX - digit) / 10 {
            proof {
                if forall|j: int| 0 <= j < chars@.len() ==> is_digit(#[trigger] chars@[j]) {
                    lemma_decimal_value_grows(chars@, i as int + 1);
                }
            }
            return None;
        }
        value = value * 10 + digit;
        i += 1;
    }
    assert(chars@.take(i as int) =~= chars@);
    if value == 0 {
        None
    } else {
        Some(value)
    }
}

/// The whole milliseconds that a span of `seconds` and `nanos` takes, counted
/// up: a part of a millisecond counts as one.
pub open spec fn whole_millis(seconds: u64, nanos: u32) -> int {
    seconds * 1000 + (nanos + 999_999) / 1_000_000
}

/// The timeout, in milliseconds, for a duration given as its whole seconds and
/// the nanoseconds beyond them: the milliseconds that it takes, counted up, and
/// the largest number where they do not fit 64 bits. Only the empty duration
/// gives zero.
pub fn timeout_from_parts(seconds: u64, nanos: u32) -> (millis: u64)
    ensures
        millis == if whole_millis(seconds, nanos) <= u64::MAX {
            whole_millis(seconds, nanos)
        } else {
            u64::MAX as int
        },
        millis == 0 <==> seconds == 0 && nanos == 0,
{
    let part: u64 = (nanos as u64 + 999_999) / 1_000_000;
    if seconds > (u64::MAX - part) / 1000 {
        u64::MAX
    } else {
        seconds * 1000 + part
    }
}

/// The configuration that an exporter is built with.
#[derive(Clone, Debug, PartialEq, Eq)]
pub struct ExportConfig {
    /// Where the telemetry is sent.
    pub endpoint: String,
    /// The protocol that it is sent with.
    pub protocol: Protocol,
    /// How long, in milliseconds, the backend is given to take a batch.
    pub timeout_millis: u64,
    /// How the payload is compressed, if it is.
    pub compression: Option<Compression>,
}

/// An [`ExportConfig`] as plain values.
pub ghost struct ExportConfigView {
    pub endpoint: Seq<char>,
    pub protocol: Protocol,
    pub timeout_millis: u64,
    pub compression: Option<Compression>,
}

impl View for ExportConfig {
    type V = ExportConfigView;

    open spec fn view(&self) -> ExportConfigView {
        ExportConfigView {
            endpoint: self.endpoint@,
            protocol: self.protocol,
            timeout_millis: self.timeout_millis,
            compression: self.compression,
        }
    }
}

impl Default for ExportConfig {
    /// The configuration of the built-in defaults: the default endpoint, gRPC,
    /// the default timeout, and no compression.
    fn default() -> (config: ExportConfig)
        ensures
            config@ == (ExportConfigView {
                endpoint: OTEL_EXPORTER_OTLP_ENDPOINT_DEFAULT@,
                protocol: Protocol::Grpc,
                timeout_millis: OTEL_EXPORTER_OTLP_TIMEOUT_DEFAULT,
                compression: None,
            }),
    {
        ExportConfig {
            endpoint: OTEL_EXPORTER_OTLP_ENDPOINT_DEFAULT.to_owned(),
            protocol: Protocol::Grpc,
            timeout_millis: OTEL_EXPORTER_OTLP_TIMEOUT_DEFAULT,
            compression: None,
        }
    }
}

impl ExportConfigView {
    /// What every configuration that an exporter holds meets: the endpoint is a
    /// URI that the protocol can use, and the timeout is positive.
    pub open spec fn valid(self) -> bool {
        endpoint_fault(self.endpoint, self.protocol) is None && self.timeout_millis > 0
    }
}

/// What a builder was told, setting by setting. What it was not told is `None`,
/// and is left to the environment and the defaults.
#[derive(Clone, Debug, PartialEq, Eq)]
pub struct ExportSettings {
    /// The endpoint.
    pub endpoint: Option<String>,
    /// The protocol.
    pub protocol: Option<Protocol>,
    /// The timeout, in milliseconds.
    pub timeout_millis: Option<u64>,
    /// The name of the compression algorithm.
    pub compression: Option<String>,
    /// The headers, in the order in which they were given: each a name and the
    /// bytes of its value.
    pub headers: Vec<(String, Vec<u8>)>,
}

/// [`ExportSettings`] as plain values.
pub ghost struct ExportSettingsView {
    pub endpoint: Option<Seq<char>>,
    pub protocol: Option<Protocol>,
    pub timeout_millis: Option<u64>,
    pub compression: Option<Seq<char>>,
    pub headers: Seq<(Seq<char>, Seq<u8>)>,
}

impl View for ExportSettings {
    type V = ExportSettingsView;

    open spec fn view(&self) -> ExportSettingsView {
        ExportSettingsView {
            endpoint: opt_text(self.endpoint),
            protocol: self.protocol,
            timeout_millis: self.timeout_millis,
            compression: opt_text(self.compression),
            headers: entries_view(self.headers@),
        }
    }
}

impl ExportSettingsView {
    /// These settings with the endpoint set.
    pub open spec fn endpoint(self, endpoint: Seq<char>) -> ExportSettingsView {
        ExportSettingsView { endpoint: Some(endpoint), ..self }
    }

    /// These settings with the protocol set.
    pub open spec fn protocol(self, protocol: Protocol) -> ExportSettingsView {
        ExportSettingsView { protocol: Some(protocol), ..self }
    }

    /// These settings with the timeout set.
    pub open spec fn timeout(self, millis: u64) -> ExportSettingsView {
        ExportSettingsView { timeout_millis: Some(millis), ..self }
    }

    /// These settings with the name of the compression set.
    pub open spec fn compression(self, name: Seq<char>) -> ExportSettingsView {
        ExportSettingsView { compression: Some(name), ..self }
    }

    /// These settings with the endpoint, the protocol and the timeout of
    /// `config`, and with the compression that `config` names, if it names one.
    pub open spec fn export_config(self, config: ExportConfigView) -> ExportSettingsView {
        ExportSettingsView {
            endpoint: Some(config.endpoint),
            protocol: Some(config.protocol),
            timeout_millis: Some(config.timeout_millis),
            compression: match config.compression {
                Some(algorithm) => Some(algorithm.spec_name()),
                None => self.compression,
            },
            ..self
        }
    }

    /// These settings with `headers` after the headers that they hold.
    pub open spec fn more_headers(self, headers: Seq<(Seq<char>, Seq<u8>)>) -> ExportSettingsView {
        ExportSettingsView { headers: self.headers + headers, ..self }
    }
}

impl ExportSettings {
    /// Settings that leave everything to the environment and the defaults.
    pub open spec fn blank() -> ExportSettingsView {
        ExportSettingsView {
            endpoint: None,
            protocol: None,
            timeout_millis: None,
            compression: None,
            headers: Seq::empty(),
        }
    }

    /// Settings that leave everything to the environment and the defaults.
    pub fn new() -> (settings: ExportSettings)
        ensures
            settings@ == ExportSettings::blank(),
    {
        let settings = ExportSettings {
            endpoint: None,
            protocol: None,
            timeout_millis: None,
            compression: None,
            headers: Vec::new(),
        };
        assert(settings@.headers =~= Seq::empty());
        settings
    }

    /// Sets the endpoint.
    pub fn with_endpoint(self, endpoint: &str) -> (settings: ExportSettings)
        ensures
            settings@ == self@.endpoint(endpoint@),
    {
        ExportSettings {
            endpoint: Some(endpoint.to_owned()),
            protocol: self.protocol,
            timeout_millis: self.timeout_millis,
            compression: self.compression,
            headers: self.headers,
        }
    }

    /// Sets the protocol.
    pub fn with_protocol(self, protocol: Protocol) -> (settings: ExportSettings)
        ensures
            settings@ == self@.protocol(protocol),
    {
        ExportSettings {
            endpoint: self.endpoint,
            protocol: Some(protocol),
            timeout_millis: self.timeout_millis,
            compression: self.compression,
            headers: self.headers,
        }
    }

    /// Sets the timeout, in milliseconds.
    pub fn with_timeout(self, millis: u64) -> (settings: ExportSettings)
        ensures
            settings@ == self@.timeout(millis),
    {
        ExportSettings {
            endpoint: self.endpoint,
            protocol: self.protocol,
            timeout_millis: Some(millis),
            compression: self.compression,
            headers: self.headers,
        }
    }

    /// Asks for the compression algorithm of this name.
    pub fn with_compression(self, name: &str) -> (settings: ExportSettings)
        ensures
            settings@ == self@.compression(name@),
    {
        ExportSettings {
            endpoint: self.endpoint,
            protocol: self.protocol,
            timeout_millis: self.timeout_millis,
            compression: Some(name.to_owned()),
            headers: self.headers,
        }
    }

    /// Sets the endpoint, the protocol and the timeout to those of `config`,
    /// and the compression to the one that `config` names, if it names one.
    pub fn with_export_config(self, config: ExportConfig) -> (settings: ExportSettings)
        ensures
            settings@ == self@.export_config(config@),
    {
        let compression = match config.compression {
            Some(algorithm) => Some(algorithm.name().to_owned()),
            None => self.compression,
        };
        ExportSettings {
            endpoint: Some(config.endpoint),
            protocol: Some(config.protocol),
            timeout_millis: Some(config.timeout_millis),
            compression,
            headers: self.headers,
        }
    }

    /// Adds headers that are text, after those that the settings hold.
    pub fn with_headers(self, headers: Vec<(String, String)>) -> (settings: ExportSettings)
        ensures
            settings@ == self@.more_headers(encoded(pairs_text(headers@))),
    {
        self.with_entries(encode_pairs(&headers))
    }

    /// Adds entries, after the headers that the settings hold.
    pub fn with_entries(self, entries: Vec<(String, Vec<u8>)>) -> (settings: ExportSettings)
        ensures
            settings@ == self@.more_headers(entries_view(entries@)),
    {
        let mut all = self.headers;
        let mut more = entries;
        let ghost before = all@;
        let ghost added = more@;
        all.append(&mut more);
        assert(entries_view(all@) =~= entries_view(before) + entries_view(added));
        ExportSettings {
            endpoint: self.endpoint,
            protocol: self.protocol,
            timeout_millis: self.timeout_millis,
            compression: self.compression,
            headers: all,
        }
    }
}

/// The endpoint of an exporter: what the builder was told, else what the
/// environment says, else the default.
pub open spec fn resolved_endpoint(
    told: Option<Seq<char>>,
    env: Map<Seq<char>, Seq<char>>,
    signal: Signal,
) -> Seq<char> {
    match told {
        Some(endpoint) => endpoint,
        None => match env_setting(env, signal, Setting::Endpoint) {
            Some(endpoint) => endpoint,
            None => OTEL_EXPORTER_OTLP_ENDPOINT_DEFAULT@,
        },
    }
}

/// The protocol of an exporter on `transport`: what the builder was told, else
/// what the environment says where that names a protocol, else the protocol
/// that the transport has by default.
pub open spec fn resolved_protocol(
    told: Option<Protocol>,
    env: Map<Seq<char>, Seq<char>>,
    signal: Signal,
    transport: TransportKind,
) -> Protocol {
    match told {
        Some(protocol) => protocol,
        None => match env_setting(env, signal, Setting::Protocol) {
            Some(name) => match Protocol::named(name) {
                Some(protocol) => protocol,
                None => transport.default_protocol(),
            },
            None => transport.default_protocol(),
        },
    }
}

/// The timeout of an exporter, in milliseconds: what the builder was told, else
/// what the environment says where that is a timeout, else the default.
pub open spec fn resolved_timeout(
    told: Option<u64>,
    env: Map<Seq<char>, Seq<char>>,
    signal: Signal,
) -> u64 {
    match told {
        Some(millis) => millis,
        None => match env_setting(env, signal, Setting::Timeout) {
            Some(text) => match millis_of(text) {
                Some(millis) => millis,
                None => OTEL_EXPORTER_OTLP_TIMEOUT_DEFAULT,
            },
            None => OTEL_EXPORTER_OTLP_TIMEOUT_DEFAULT,
        },
    }
}

/// The name of the compression that is asked for: what the builder was told,
/// else what the environment says, else none.
pub open spec fn requested_compression(
    told: Option<Seq<char>>,
    env: Map<Seq<char>, Seq<char>>,
    signal: Signal,
) -> Option<Seq<char>> {
    match told {
        Some(name) => Some(name),
        None => env_setting(env, signal, Setting::Compression),
    }
}

/// The headers of an exporter: those that the environment gives, then those
/// that the builder was told, so that for a name that both give the builder's
/// is said last.
pub open spec fn resolved_headers(
    told: Seq<(Seq<char>, Seq<u8>)>,
    env: Map<Seq<char>, Seq<char>>,
    signal: Signal,
) -> Seq<(Seq<char>, Seq<u8>)> {
    match env_setting(env, signal, Setting::Headers) {
        Some(text) => encoded(header_pairs(text)) + told,
        None => told,
    }
}

/// A resolved configuration: what the exporter is built with, and the headers
/// that it sends.
#[derive(Clone, Debug, PartialEq, Eq)]
pub struct Resolved {
    /// The configuration.
    pub config: ExportConfig,
    /// The headers, in the order in which they are to be set: each a name and
    /// the bytes of its value.
    pub headers: Vec<(String, Vec<u8>)>,
}

impl Resolved {
    /// What every resolved configuration meets: the configuration is valid, and
    /// each header may be sent.
    pub open spec fn valid(self) -> bool {
        self.config@.valid() && headers_checked(entries_view(self.headers@), Ok(()))
    }
}

/// What [`resolve`] owes.
///
/// The settings are taken in this order, and the first that is refused decides
/// the error: a protocol that the builder was told or the environment names
/// must suit the transport; the endpoint must be a URI,
/// with a scheme that the protocol can use; a timeout that the builder was told
/// must be positive; the compression that is asked for must be known and
/// supported; each header must be one that may be sent. Where nothing is
/// refused, the outcome holds each setting as resolved.
pub open spec fn resolves(
    told: ExportSettingsView,
    env: Map<Seq<char>, Seq<char>>,
    signal: Signal,
    transport: TransportKind,
    support: CompressionSupport,
    outcome: Result<Resolved, Error>,
) -> bool {
    let protocol = resolved_protocol(told.protocol, env, signal, transport);
    let endpoint = resolved_endpoint(told.endpoint, env, signal);
    let timeout = resolved_timeout(told.timeout_millis, env, signal);
    let compression = requested_compression(told.compression, env, signal);
    let headers = resolved_headers(told.headers, env, signal);
    if !transport.carries(protocol) {
        outcome matches Err(Error::Transport(why)) && why@ == REJECTED_PROTOCOL@
    } else if endpoint_fault(endpoint, protocol) is Some {
        outcome matches Err(e) && reports_endpoint_fault(e, endpoint_fault(endpoint, protocol)->0)
    } else if timeout == 0 {
        outcome matches Err(Error::Transport(why)) && why@ == REJECTED_TIMEOUT@
    } else if compression is Some && selection(compression->0, support).refused() {
        outcome matches Err(e) && selects(compression->0, support, Err(e))
    } else if !headers_checked(headers, Ok(())) {
        outcome matches Err(e) && headers_checked(headers, Err(e))
    } else {
        outcome matches Ok(resolved) && resolved.config@ == (ExportConfigView {
            endpoint,
            protocol,
            timeout_millis: timeout,
            compression: match compression {
                Some(name) => selection(name, support).chosen(),
                None => None,
            },
        }) && entries_view(resolved.headers@) == headers
    }
}

/// A copy of `entries`, appended to `onto`.
fn append_entries(onto: &mut Vec<(String, Vec<u8>)>, entries: &Vec<(String, Vec<u8>)>)
    ensures
        entries_view(final(onto)@) == entries_view(old(onto)@) + entries_view(entries@),
{
    let mut i: usize = 0;
    assert(entries_view(entries@).take(0) =~= Seq::empty());
    assert(entries_view(onto@) =~= entries_view(old(onto)@) + entries_view(entries@).take(0));
    while i < entries.len()
        invariant
            i <= entries.len(),
            entries_view(onto@) == entries_view(old(onto)@) + entries_view(entries@).take(
                i as int,
            ),
        decreases entries.len() - i,
    {
        let ghost before = entries_view(onto@);
        let name = entries[i].0.clone();
        let value = slice_to_vec(entries[i].1.as_slice());
        onto.push((name, value));
        assert(entries_view(onto@) =~= before + seq![(name@, value@)]);
        assert(entries_view(entries@).take(i as int + 1) =~= entries_view(entries@).take(i as int)
            + seq![(name@, value@)]);
        i += 1;
    }
    assert(entries_view(entries@).take(i as int) =~= entries_view(entries@));
}

/// Resolves the configuration of the exporter of `signal` on `transport`.
///
/// Each setting is what the builder was told, else what the environment says
/// (the signal's own variable before the general one), else the default. See
/// [`resolves`] for what is refused, and in which order.
pub fn resolve(
    told: &ExportSettings,
    env: &Environment,
    signal: Signal,
    transport: TransportKind,
    support: CompressionSupport,
) -> (outcome: Result<Resolved, Error>)
    ensures
        resolves(told@, env@, signal, transport, support, outcome),
        outcome matches Ok(resolved) ==> resolved.valid(),
{
    let protocol = match told.protocol {
        Some(protocol) => protocol,
        None => match env.setting(signal, Setting::Protocol) {
            Some(name) => match Protocol::parse(name) {
                Some(protocol) => protocol,
                None => transport.protocol_by_default(),
            },
            None => transport.protocol_by_default(),
        },
    };
    if !transport.speaks(protocol) {
        return Err(Error::Transport(String::from_str(REJECTED_PROTOCOL)));
    }
    let endpoint = match &told.endpoint {
        Some(endpoint) => endpoint.clone(),
        None => match env.setting(signal, Setting::Endpoint) {
            Some(endpoint) => endpoint.to_owned(),
            None => OTEL_EXPORTER_OTLP_ENDPOINT_DEFAULT.to_owned(),
        },
    };
    match check_endpoint(endpoint.as_str(), protocol) {
        Ok(_) => {},
        Err(e) => {
            return Err(e);
        },
    }
    let timeout_millis = match told.timeout_millis {
        Some(millis) => millis,
        None => match env.setting(signal, Setting::Timeout) {
            Some(text) => match parse_millis(text) {
                Some(millis) => millis,
                None => OTEL_EXPORTER_OTLP_TIMEOUT_DEFAULT,
            },
            None => OTEL_EXPORTER_OTLP_TIMEOUT_DEFAULT,
        },
    };
    if timeout_millis == 0 {
        return Err(Error::Transport(String::from_str(REJECTED_TIMEOUT)));
    }
    let selected = match &told.compression {
        Some(name) => select(name.as_str(), support),
        None => match env.setting(signal, Setting::Compression) {
            Some(name) => select(name, support),
            None => Ok(None),
        },
    };
    let compression = match selected {
        Ok(compression) => compression,
        Err(e) => {
            return Err(e);
        },
    };
    let mut headers = match env.setting(signal, Setting::Headers) {
        Some(text) => encode_pairs(&parse_header_string(text)),
        None => Vec::new(),
    };
    assert(env_setting(env@, signal, Setting::Headers) is None ==> entries_view(headers@)
        =~= Seq::empty());
    append_entries(&mut headers, &told.headers);
    assert(entries_view(headers@) =~= resolved_headers(told@.headers, env@, signal));
    match check_headers(&headers) {
        Ok(_) => {},
        Err(e) => {
            return Err(e);
        },
    }
    Ok(Resolved { config: ExportConfig { endpoint, protocol, timeout_millis, compression }, headers })
}

/// The endpoint goes by what the builder was told before the environment, by
/// the signal's own variable before the general one, and by the default last.
pub proof fn lemma_endpoint_precedence(
    told: ExportSettingsView,
    env: Map<Seq<char>, Seq<char>>,
    signal: Signal,
    transport: TransportKind,
    support: CompressionSupport,
    outcome: Result<Resolved, Error>,
)
    requires
        resolves(told, env, signal, transport, support, outcome),
        outcome is Ok,
    ensures
        ({
            let endpoint = outcome->Ok_0.config@.endpoint;
            let own = signal_name(signal, Setting::Endpoint);
            let general = general_name(Setting::Endpoint);
            match told.endpoint {
                Some(explicit) => endpoint == explicit,
                None => if env.contains_key(own) {
                    endpoint == env[own]
                } else if env.contains_key(general) {
                    endpoint == env[general]
                } else {
                    endpoint == OTEL_EXPORTER_OTLP_ENDPOINT_DEFAULT@
                },
            }
        }),
{
}

/// A timeout in the environment that cannot be read is passed over without an
/// error: the timeout is then the default.
pub proof fn lemma_unreadable_timeout_gives_default(
    told: ExportSettingsView,
    env: Map<Seq<char>, Seq<char>>,
    signal: Signal,
)
    requires
        told.timeout_millis is None,
        env_setting(env, signal, Setting::Timeout) matches Some(text) && millis_of(text) is None,
    ensures
        resolved_timeout(told.timeout_millis, env, signal) == OTEL_EXPORTER_OTLP_TIMEOUT_DEFAULT,
{
}

/// A builder that was told a timeout of zero builds nothing, whatever else it
/// was told and whatever the environment says.
pub proof fn lemma_zero_timeout_is_refused(
    told: ExportSettingsView,
    env: Map<Seq<char>, Seq<char>>,
    signal: Signal,
    transport: TransportKind,
    support: CompressionSupport,
    outcome: Result<Resolved, Error>,
)
    requires
        resolves(told, env, signal, transport, support, outcome),
        told.timeout_millis == Some(0u64),
    ensures
        outcome is Err,
{
}

/// Whatever is resolved holds a positive timeout: one that the environment
/// gives is positive where it can be read, and the default is.
pub proof fn lemma_resolved_timeout_is_positive(
    told: Option<u64>,
    env: Map<Seq<char>, Seq<char>>,
    signal: Signal,
)
    ensures
        resolved_timeout(told, env, signal) == 0 <==> told == Some(0u64),
{
}

/// Where neither the builder nor the environment names a protocol, the
/// protocol is one that the transport speaks, so it is never the protocol that
/// refuses the build.
pub proof fn lemma_default_protocol_suits(
    env: Map<Seq<char>, Seq<char>>,
    signal: Signal,
    transport: TransportKind,
)
    requires
        env_setting(env, signal, Setting::Protocol) is None,
    ensures
        transport.carries(resolved_protocol(None, env, signal, transport)),
{
}

/// An HTTP exporter that was told no protocol, under an environment that names
/// none, and that is told an endpoint that is no URI, is refused for the
/// endpoint.
pub proof fn lemma_plain_http_reports_the_endpoint(
    told: ExportSettingsView,
    env: Map<Seq<char>, Seq<char>>,
    signal: Signal,
    support: CompressionSupport,
    outcome: Result<Resolved, Error>,
)
    requires
        resolves(told, env, signal, TransportKind::Http, support, outcome),
        told.protocol is None,
        env_setting(env, signal, Setting::Protocol) is None,
        told.endpoint matches Some(endpoint) && crate::endpoint::uri_scheme(endpoint) is None,
    ensures
        outcome matches Err(e) && e is InvalidUri,
{
}

/// An HTTP exporter that was told no protocol, under an environment that names
/// none, whose endpoint, timeout and compression are in order, and one of whose
/// headers may not be sent, is refused for that header.
pub proof fn lemma_plain_http_reports_the_header(
    told: ExportSettingsView,
    env: Map<Seq<char>, Seq<char>>,
    signal: Signal,
    support: CompressionSupport,
    outcome: Result<Resolved, Error>,
)
    requires
        resolves(told, env, signal, TransportKind::Http, support, outcome),
        told.protocol is None,
        env_setting(env, signal, Setting::Protocol) is None,
        endpoint_fault(resolved_endpoint(told.endpoint, env, signal), Protocol::HttpBinary) is None,
        told.timeout_millis != Some(0u64),
        requested_compression(told.compression, env, signal) is None,
        !headers_checked(resolved_headers(told.headers, env, signal), Ok(())),
    ensures
        outcome matches Err(e) && (e is InvalidHeaderName || e is InvalidHeaderValue)
            && headers_checked(resolved_headers(told.headers, env, signal), Err(e)),
{
}

} // verus!
