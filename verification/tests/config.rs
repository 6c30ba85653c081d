use opentelemetry_otlp::compression::{Compression, CompressionSupport};
use opentelemetry_otlp::config::{
    parse_millis, resolve, timeout_from_parts, ExportConfig, ExportSettings, TransportKind,
    REJECTED_PROTOCOL, REJECTED_TIMEOUT,
};
use opentelemetry_otlp::endpoint::REJECTED_SCHEME;
use opentelemetry_otlp::{
    Environment, Error, Protocol, Signal, OTEL_EXPORTER_OTLP_ENDPOINT_DEFAULT,
    OTEL_EXPORTER_OTLP_PROTOCOL_DEFAULT, OTEL_EXPORTER_OTLP_TIMEOUT_DEFAULT,
};

fn pairs(items: &[(&str, &str)]) -> Vec<(String, String)> {
    items.iter().map(|(k, v)| (k.to_string(), v.to_string())).collect()
}

fn entries(items: &[(&str, &str)]) -> Vec<(String, Vec<u8>)> {
    items.iter().map(|(k, v)| (k.to_string(), v.as_bytes().to_vec())).collect()
}

fn env_of(vars: &[(&str, &str)]) -> Environment {
    let mut env = Environment::new();
    for (name, value) in vars {
        env.set(name, value);
    }
    env
}

fn grpc(told: &ExportSettings, env: &Environment) -> Result<opentelemetry_otlp::Resolved, Error> {
    resolve(told, env, Signal::Traces, TransportKind::Grpc, CompressionSupport::all())
}

#[test]
fn the_defaults_are_the_documented_ones() {
    assert_eq!(OTEL_EXPORTER_OTLP_ENDPOINT_DEFAULT, "http://localhost:4317");
    assert_eq!(OTEL_EXPORTER_OTLP_PROTOCOL_DEFAULT, "grpc");
    assert_eq!(OTEL_EXPORTER_OTLP_TIMEOUT_DEFAULT, 10000);
    assert_eq!(Protocol::parse(OTEL_EXPORTER_OTLP_PROTOCOL_DEFAULT), Some(Protocol::Grpc));
}

#[test]
fn protocols_are_read_by_name() {
    assert_eq!(Protocol::parse("grpc"), Some(Protocol::Grpc));
    assert_eq!(Protocol::parse("http/protobuf"), Some(Protocol::HttpBinary));
    assert_eq!(Protocol::parse("http/json"), Some(Protocol::HttpJson));
    for name in ["", "GRPC", "http", "http/", "http/protobuf ", "json", "grpc\n"] {
        assert_eq!(Protocol::parse(name), None, "{:?}", name);
    }
    for protocol in [Protocol::Grpc, Protocol::HttpBinary, Protocol::HttpJson] {
        assert_eq!(Protocol::parse(protocol.name()), Some(protocol));
    }
}

#[test]
fn transports_speak_their_protocols() {
    assert!(TransportKind::Grpc.speaks(Protocol::Grpc));
    assert!(!TransportKind::Grpc.speaks(Protocol::HttpBinary));
    assert!(!TransportKind::Grpc.speaks(Protocol::HttpJson));
    assert!(!TransportKind::Http.speaks(Protocol::Grpc));
    assert!(TransportKind::Http.speaks(Protocol::HttpBinary));
    assert!(TransportKind::Http.speaks(Protocol::HttpJson));
}

#[test]
fn timeouts_are_read_as_decimal_milliseconds() {
    assert_eq!(parse_millis("5000"), Some(5000));
    assert_eq!(parse_millis("1"), Some(1));
    assert_eq!(parse_millis("007"), Some(7));
    assert_eq!(parse_millis("10000"), Some(10000));
    assert_eq!(parse_millis("18446744073709551615"), Some(u64::MAX));
    assert_eq!(parse_millis("00018446744073709551615"), Some(u64::MAX));
}

#[test]
fn what_is_not_a_positive_number_is_no_timeout() {
    for text in ["", "abc", "0", "000", "-5", "+5", " 5", "5 ", "5.0", "1e3", "5s", "\u{664}", "18446744073709551616", "99999999999999999999999"] {
        assert_eq!(parse_millis(text), None, "{:?}", text);
    }
}

#[test]
fn timeouts_agree_with_the_standard_parser_on_digits() {
    for text in ["3", "42", "18446744073709551614", "18446744073709551615", "18446744073709551616", "184467440737095516150", "27670116110564327424"] {
        let expected = text.parse::<u64>().ok().filter(|n| *n > 0);
        assert_eq!(parse_millis(text), expected, "{:?}", text);
    }
}

#[test]
fn with_nothing_told_and_nothing_set_the_defaults_hold() {
    let resolved = grpc(&ExportSettings::new(), &Environment::new()).unwrap();
    assert_eq!(
        resolved.config,
        ExportConfig {
            endpoint: "http://localhost:4317".to_string(),
            protocol: Protocol::Grpc,
            timeout_millis: 10000,
            compression: None,
        }
    );
    assert_eq!(resolved.headers, entries(&[]));
}

#[test]
fn the_general_variable_beats_the_default_endpoint() {
    let env = env_of(&[("OTEL_EXPORTER_OTLP_ENDPOINT", "http://general:4317")]);
    let resolved = grpc(&ExportSettings::new(), &env).unwrap();
    assert_eq!(resolved.config.endpoint, "http://general:4317");
}

#[test]
fn the_signals_variable_beats_the_general_endpoint() {
    let env = env_of(&[
        ("OTEL_EXPORTER_OTLP_TRACES_ENDPOINT", "http://traces:4317"),
        ("OTEL_EXPORTER_OTLP_ENDPOINT", "http://general:4317"),
        ("OTEL_EXPORTER_OTLP_METRICS_ENDPOINT", "http://metrics:4317"),
    ]);
    let told = ExportSettings::new();
    let all = CompressionSupport::all();
    assert_eq!(resolve(&told, &env, Signal::Traces, TransportKind::Grpc, all).unwrap().config.endpoint, "http://traces:4317");
    assert_eq!(resolve(&told, &env, Signal::Metrics, TransportKind::Grpc, all).unwrap().config.endpoint, "http://metrics:4317");
    assert_eq!(resolve(&told, &env, Signal::Logs, TransportKind::Grpc, all).unwrap().config.endpoint, "http://general:4317");
}

#[test]
fn what_the_builder_was_told_beats_the_environment() {
    let env = env_of(&[
        ("OTEL_EXPORTER_OTLP_TRACES_ENDPOINT", "http://traces:4317"),
        ("OTEL_EXPORTER_OTLP_ENDPOINT", "http://general:4317"),
        ("OTEL_EXPORTER_OTLP_TIMEOUT", "2000"),
        ("OTEL_EXPORTER_OTLP_PROTOCOL", "http/json"),
        ("OTEL_EXPORTER_OTLP_COMPRESSION", "gzip"),
    ]);
    let told = ExportSettings::new()
        .with_endpoint("http://told:4317")
        .with_timeout(3000)
        .with_protocol(Protocol::Grpc)
        .with_compression("zstd");
    let resolved = grpc(&told, &env).unwrap();
    assert_eq!(
        resolved.config,
        ExportConfig {
            endpoint: "http://told:4317".to_string(),
            protocol: Protocol::Grpc,
            timeout_millis: 3000,
            compression: Some(Compression::Zstd),
        }
    );
}

#[test]
fn an_endpoint_told_wins_even_over_a_broken_environment() {
    let env = env_of(&[("OTEL_EXPORTER_OTLP_ENDPOINT", "not a uri")]);
    let told = ExportSettings::new().with_endpoint("http://told:4317");
    assert_eq!(grpc(&told, &env).unwrap().config.endpoint, "http://told:4317");
    assert!(matches!(grpc(&ExportSettings::new(), &env), Err(Error::InvalidUri(_))));
}

#[test]
fn the_environment_sets_the_timeout() {
    let env = env_of(&[("OTEL_EXPORTER_OTLP_TIMEOUT", "2500")]);
    assert_eq!(grpc(&ExportSettings::new(), &env).unwrap().config.timeout_millis, 2500);
    let env = env_of(&[("OTEL_EXPORTER_OTLP_TIMEOUT", "2500"), ("OTEL_EXPORTER_OTLP_TRACES_TIMEOUT", "700")]);
    assert_eq!(grpc(&ExportSettings::new(), &env).unwrap().config.timeout_millis, 700);
}

#[test]
fn a_timeout_in_the_environment_that_cannot_be_read_gives_the_default() {
    for text in ["abc", "", "0", "-1", "1.5", "99999999999999999999"] {
        let env = env_of(&[("OTEL_EXPORTER_OTLP_TIMEOUT", text)]);
        let resolved = grpc(&ExportSettings::new(), &env).unwrap();
        assert_eq!(resolved.config.timeout_millis, 10000, "{:?}", text);
    }
}

#[test]
fn an_unreadable_timeout_of_the_signal_hides_the_general_one() {
    let env = env_of(&[("OTEL_EXPORTER_OTLP_TIMEOUT", "2500"), ("OTEL_EXPORTER_OTLP_TRACES_TIMEOUT", "abc")]);
    assert_eq!(grpc(&ExportSettings::new(), &env).unwrap().config.timeout_millis, 10000);
}

#[test]
fn a_timeout_of_zero_that_was_told_is_refused() {
    let told = ExportSettings::new().with_timeout(0);
    assert_eq!(grpc(&told, &Environment::new()), Err(Error::Transport(REJECTED_TIMEOUT.to_string())));
    let env = env_of(&[("OTEL_EXPORTER_OTLP_TIMEOUT", "2500")]);
    assert_eq!(grpc(&told, &env), Err(Error::Transport(REJECTED_TIMEOUT.to_string())));
}

#[test]
fn the_environment_sets_the_protocol() {
    let env = env_of(&[("OTEL_EXPORTER_OTLP_PROTOCOL", "http/protobuf")]);
    let all = CompressionSupport::all();
    let resolved = resolve(&ExportSettings::new(), &env, Signal::Logs, TransportKind::Http, all).unwrap();
    assert_eq!(resolved.config.protocol, Protocol::HttpBinary);
    let env = env_of(&[("OTEL_EXPORTER_OTLP_PROTOCOL", "http/protobuf"), ("OTEL_EXPORTER_OTLP_LOGS_PROTOCOL", "http/json")]);
    let resolved = resolve(&ExportSettings::new(), &env, Signal::Logs, TransportKind::Http, all).unwrap();
    assert_eq!(resolved.config.protocol, Protocol::HttpJson);
}

#[test]
fn a_protocol_in_the_environment_that_is_not_known_gives_the_default() {
    let env = env_of(&[("OTEL_EXPORTER_OTLP_PROTOCOL", "carrier-pigeon")]);
    assert_eq!(grpc(&ExportSettings::new(), &env).unwrap().config.protocol, Protocol::Grpc);
    let all = CompressionSupport::all();
    let resolved = resolve(&ExportSettings::new(), &env, Signal::Traces, TransportKind::Http, all).unwrap();
    assert_eq!(resolved.config.protocol, Protocol::HttpBinary);
}

#[test]
fn each_transport_has_a_protocol_by_default() {
    assert_eq!(TransportKind::Grpc.protocol_by_default(), Protocol::Grpc);
    assert_eq!(TransportKind::Http.protocol_by_default(), Protocol::HttpBinary);
    let all = CompressionSupport::all();
    let none = Environment::new();
    let resolved = resolve(&ExportSettings::new(), &none, Signal::Logs, TransportKind::Http, all).unwrap();
    assert_eq!(resolved.config.protocol, Protocol::HttpBinary);
    assert_eq!(resolved.config.endpoint, "http://localhost:4317");
    assert_eq!(resolved.config.timeout_millis, 10000);
    let resolved = resolve(&ExportSettings::new(), &none, Signal::Logs, TransportKind::Grpc, all).unwrap();
    assert_eq!(resolved.config.protocol, Protocol::Grpc);
}

#[test]
fn on_http_a_bad_endpoint_or_header_is_reported_without_a_protocol() {
    let all = CompressionSupport::all();
    let none = Environment::new();
    let told = ExportSettings::new().with_endpoint("not a uri");
    assert!(matches!(resolve(&told, &none, Signal::Traces, TransportKind::Http, all), Err(Error::InvalidUri(_))));
    let told = ExportSettings::new().with_headers(pairs(&[("bad name", "v")]));
    assert!(matches!(
        resolve(&told, &none, Signal::Traces, TransportKind::Http, all),
        Err(Error::InvalidHeaderName(_))
    ));
    let told = ExportSettings::new().with_headers(pairs(&[("name", "bad\nvalue")]));
    assert!(matches!(
        resolve(&told, &none, Signal::Traces, TransportKind::Http, all),
        Err(Error::InvalidHeaderValue(_))
    ));
}

#[test]
fn a_protocol_that_does_not_suit_the_transport_is_refused() {
    let refused = Err(Error::Transport(REJECTED_PROTOCOL.to_string()));
    let all = CompressionSupport::all();
    let none = Environment::new();
    assert_eq!(grpc(&ExportSettings::new().with_protocol(Protocol::HttpBinary), &none), refused);
    assert_eq!(grpc(&ExportSettings::new().with_protocol(Protocol::HttpJson), &none), refused);
    let env = env_of(&[("OTEL_EXPORTER_OTLP_PROTOCOL", "grpc")]);
    assert_eq!(resolve(&ExportSettings::new(), &env, Signal::Traces, TransportKind::Http, all), refused);
    assert_eq!(
        resolve(&ExportSettings::new().with_protocol(Protocol::Grpc), &none, Signal::Traces, TransportKind::Http, all),
        refused
    );
    let env = env_of(&[("OTEL_EXPORTER_OTLP_PROTOCOL", "http/json")]);
    assert_eq!(grpc(&ExportSettings::new(), &env), refused);
}

#[test]
fn the_protocol_is_judged_before_everything_else() {
    let told = ExportSettings::new()
        .with_protocol(Protocol::HttpJson)
        .with_endpoint("not a uri")
        .with_timeout(0)
        .with_compression("brotli")
        .with_headers(pairs(&[("bad name", "v")]));
    assert_eq!(grpc(&told, &Environment::new()), Err(Error::Transport(REJECTED_PROTOCOL.to_string())));
}

#[test]
fn the_endpoint_is_judged_before_timeout_compression_and_headers() {
    let told = ExportSettings::new()
        .with_endpoint("not a uri")
        .with_timeout(0)
        .with_compression("brotli")
        .with_headers(pairs(&[("bad name", "v")]));
    assert!(matches!(grpc(&told, &Environment::new()), Err(Error::InvalidUri(_))));
    let told = ExportSettings::new().with_endpoint("ftp://x").with_timeout(0);
    assert_eq!(grpc(&told, &Environment::new()), Err(Error::Transport(REJECTED_SCHEME.to_string())));
}

#[test]
fn the_timeout_is_judged_before_compression_and_headers() {
    let told = ExportSettings::new()
        .with_timeout(0)
        .with_compression("brotli")
        .with_headers(pairs(&[("bad name", "v")]));
    assert_eq!(grpc(&told, &Environment::new()), Err(Error::Transport(REJECTED_TIMEOUT.to_string())));
}

#[test]
fn the_compression_is_judged_before_the_headers() {
    let told = ExportSettings::new().with_compression("brotli").with_headers(pairs(&[("bad name", "v")]));
    assert_eq!(
        grpc(&told, &Environment::new()),
        Err(Error::UnsupportedCompressionAlgorithm("brotli".to_string()))
    );
}

#[test]
fn the_environment_asks_for_compression() {
    let env = env_of(&[("OTEL_EXPORTER_OTLP_COMPRESSION", "gzip")]);
    assert_eq!(grpc(&ExportSettings::new(), &env).unwrap().config.compression, Some(Compression::Gzip));
    let env = env_of(&[("OTEL_EXPORTER_OTLP_COMPRESSION", "gzip"), ("OTEL_EXPORTER_OTLP_TRACES_COMPRESSION", "none")]);
    assert_eq!(grpc(&ExportSettings::new(), &env).unwrap().config.compression, None);
    let env = env_of(&[("OTEL_EXPORTER_OTLP_COMPRESSION", "")]);
    assert_eq!(grpc(&ExportSettings::new(), &env).unwrap().config.compression, None);
}

#[test]
fn a_compression_in_the_environment_that_is_not_known_is_refused() {
    let env = env_of(&[("OTEL_EXPORTER_OTLP_COMPRESSION", "lz4")]);
    assert_eq!(grpc(&ExportSettings::new(), &env), Err(Error::UnsupportedCompressionAlgorithm("lz4".to_string())));
}

#[test]
fn a_compression_that_the_build_lacks_is_refused() {
    let told = ExportSettings::new().with_compression("zstd");
    let support = CompressionSupport { gzip: true, zstd: false };
    assert_eq!(
        resolve(&told, &Environment::new(), Signal::Traces, TransportKind::Grpc, support),
        Err(Error::FeatureRequiredForCompressionAlgorithm("zstd-tonic", Compression::Zstd))
    );
}

#[test]
fn headers_of_the_environment_come_before_those_told() {
    let env = env_of(&[("OTEL_EXPORTER_OTLP_HEADERS", "a=1, b=2")]);
    let told = ExportSettings::new().with_headers(pairs(&[("c", "3")])).with_headers(pairs(&[("a", "4")]));
    let resolved = grpc(&told, &env).unwrap();
    assert_eq!(resolved.headers, entries(&[("a", "1"), ("b", "2"), ("c", "3"), ("a", "4")]));
}

#[test]
fn the_signals_headers_replace_the_general_ones() {
    let env = env_of(&[("OTEL_EXPORTER_OTLP_HEADERS", "a=1"), ("OTEL_EXPORTER_OTLP_TRACES_HEADERS", "t=9")]);
    assert_eq!(grpc(&ExportSettings::new(), &env).unwrap().headers, entries(&[("t", "9")]));
    let all = CompressionSupport::all();
    let metrics = resolve(&ExportSettings::new(), &env, Signal::Metrics, TransportKind::Grpc, all).unwrap();
    assert_eq!(metrics.headers, entries(&[("a", "1")]));
}

#[test]
fn a_header_that_may_not_be_sent_is_refused() {
    let told = ExportSettings::new().with_headers(pairs(&[("ok", "1"), ("bad name", "v")]));
    assert!(matches!(grpc(&told, &Environment::new()), Err(Error::InvalidHeaderName(_))));
    let told = ExportSettings::new().with_headers(pairs(&[("ok", "bad\nvalue")]));
    assert!(matches!(grpc(&told, &Environment::new()), Err(Error::InvalidHeaderValue(_))));
    let env = env_of(&[("OTEL_EXPORTER_OTLP_HEADERS", "bad name=v")]);
    assert!(matches!(grpc(&ExportSettings::new(), &env), Err(Error::InvalidHeaderName(_))));
}

#[test]
fn settings_remember_what_they_were_told() {
    let settings = ExportSettings::new();
    assert_eq!(
        settings,
        ExportSettings { endpoint: None, protocol: None, timeout_millis: None, compression: None, headers: vec![] }
    );
    let settings = settings
        .with_endpoint("http://a")
        .with_protocol(Protocol::HttpJson)
        .with_timeout(5)
        .with_compression("gzip")
        .with_headers(pairs(&[("k", "v")]));
    assert_eq!(
        settings,
        ExportSettings {
            endpoint: Some("http://a".to_string()),
            protocol: Some(Protocol::HttpJson),
            timeout_millis: Some(5),
            compression: Some("gzip".to_string()),
            headers: entries(&[("k", "v")]),
        }
    );
}

#[test]
fn an_export_config_sets_endpoint_protocol_and_timeout() {
    let config = ExportConfig {
        endpoint: "http://localhost:4317".to_string(),
        protocol: Protocol::Grpc,
        timeout_millis: 3000,
        compression: None,
    };
    let settings = ExportSettings::new().with_compression("zstd").with_export_config(config);
    assert_eq!(settings.endpoint, Some("http://localhost:4317".to_string()));
    assert_eq!(settings.protocol, Some(Protocol::Grpc));
    assert_eq!(settings.timeout_millis, Some(3000));
    assert_eq!(settings.compression, Some("zstd".to_string()));
    let config = ExportConfig {
        endpoint: "http://b".to_string(),
        protocol: Protocol::HttpBinary,
        timeout_millis: 1,
        compression: Some(Compression::Gzip),
    };
    let settings = settings.with_export_config(config);
    assert_eq!(settings.compression, Some("gzip".to_string()));
    assert_eq!(settings.endpoint, Some("http://b".to_string()));
}

#[test]
fn the_default_config_holds_the_defaults() {
    assert_eq!(
        ExportConfig::default(),
        ExportConfig {
            endpoint: "http://localhost:4317".to_string(),
            protocol: Protocol::Grpc,
            timeout_millis: 10000,
            compression: None,
        }
    );
    let resolved = grpc(&ExportSettings::new(), &Environment::new()).unwrap();
    assert_eq!(resolved.config, ExportConfig::default());
}

#[test]
fn a_duration_is_counted_in_whole_milliseconds() {
    assert_eq!(timeout_from_parts(0, 0), 0);
    assert_eq!(timeout_from_parts(3, 0), 3000);
    assert_eq!(timeout_from_parts(10, 0), 10000);
    assert_eq!(timeout_from_parts(0, 250_000_000), 250);
    assert_eq!(timeout_from_parts(1, 500_000_000), 1500);
    assert_eq!(timeout_from_parts(0, 999_000_000), 999);
}

#[test]
fn a_part_of_a_millisecond_counts_as_one() {
    assert_eq!(timeout_from_parts(0, 1), 1);
    assert_eq!(timeout_from_parts(0, 999_999), 1);
    assert_eq!(timeout_from_parts(0, 1_000_000), 1);
    assert_eq!(timeout_from_parts(0, 1_000_001), 2);
    assert_eq!(timeout_from_parts(2, 999_999_999), 3000);
    assert_eq!(timeout_from_parts(0, u32::MAX), 4295);
}

#[test]
fn a_duration_too_long_for_64_bits_gives_the_largest_timeout() {
    assert_eq!(timeout_from_parts(u64::MAX, 0), u64::MAX);
    assert_eq!(timeout_from_parts(u64::MAX / 1000, 0), u64::MAX / 1000 * 1000);
    assert_eq!(timeout_from_parts(u64::MAX / 1000, 615_000_000), u64::MAX);
    assert_eq!(timeout_from_parts(u64::MAX / 1000, 615_000_001), u64::MAX);
    assert_eq!(timeout_from_parts(u64::MAX / 1000, 614_000_000), u64::MAX - 1);
    assert_eq!(timeout_from_parts(u64::MAX / 1000 + 1, 0), u64::MAX);
}

#[test]
fn a_duration_agrees_with_the_standard_library_on_whole_milliseconds() {
    for (seconds, nanos) in [(0u64, 0u32), (1, 0), (7, 123_000_000), (86_400, 1_000_000)] {
        let duration = std::time::Duration::new(seconds, nanos);
        assert_eq!(timeout_from_parts(seconds, nanos) as u128, duration.as_millis());
    }
}

#[test]
fn entries_are_added_after_the_headers_that_are_text() {
    let settings = ExportSettings::new()
        .with_headers(pairs(&[("a", "1")]))
        .with_entries(vec![("b-bin".to_string(), vec![0xff, 0x20])])
        .with_headers(pairs(&[("c", "\u{e9}")]));
    assert_eq!(
        settings.headers,
        vec![
            ("a".to_string(), vec![b'1']),
            ("b-bin".to_string(), vec![0xff, 0x20]),
            ("c".to_string(), vec![0xc3, 0xa9]),
        ]
    );
    let resolved = grpc(&settings, &Environment::new()).unwrap();
    assert_eq!(resolved.headers, settings.headers);
}
