use opentelemetry_otlp::compression::{select, Compression, CompressionSupport};
use opentelemetry_otlp::Error;

fn with_gzip_only() -> CompressionSupport {
    CompressionSupport { gzip: true, zstd: false }
}

#[test]
fn empty_name_selects_no_compression() {
    assert_eq!(select("", CompressionSupport::all()), Ok(None));
    assert_eq!(select("", CompressionSupport::none()), Ok(None));
}

#[test]
fn none_selects_no_compression() {
    assert_eq!(select("none", CompressionSupport::all()), Ok(None));
    assert_eq!(select("none", CompressionSupport::none()), Ok(None));
}

#[test]
fn supported_algorithms_are_selected() {
    assert_eq!(select("gzip", CompressionSupport::all()), Ok(Some(Compression::Gzip)));
    assert_eq!(select("zstd", CompressionSupport::all()), Ok(Some(Compression::Zstd)));
    assert_eq!(select("gzip", with_gzip_only()), Ok(Some(Compression::Gzip)));
}

#[test]
fn missing_gzip_names_its_feature() {
    assert_eq!(
        select("gzip", CompressionSupport::none()),
        Err(Error::FeatureRequiredForCompressionAlgorithm("gzip-tonic", Compression::Gzip))
    );
}

#[test]
fn missing_zstd_names_its_feature() {
    assert_eq!(
        select("zstd", with_gzip_only()),
        Err(Error::FeatureRequiredForCompressionAlgorithm("zstd-tonic", Compression::Zstd))
    );
}

#[test]
fn unknown_name_comes_back_unchanged() {
    for name in ["brotli", "GZIP", " gzip", "gzip ", "none ", "Zstd", "deflate,gzip", "\u{e9}"] {
        assert_eq!(
            select(name, CompressionSupport::all()),
            Err(Error::UnsupportedCompressionAlgorithm(name.to_string()))
        );
        assert_eq!(
            select(name, CompressionSupport::none()),
            Err(Error::UnsupportedCompressionAlgorithm(name.to_string()))
        );
    }
}

#[test]
fn algorithms_know_their_names_and_features() {
    assert_eq!(Compression::Gzip.name(), "gzip");
    assert_eq!(Compression::Zstd.name(), "zstd");
    assert_eq!(Compression::Gzip.feature(), "gzip-tonic");
    assert_eq!(Compression::Zstd.feature(), "zstd-tonic");
    assert!(CompressionSupport::all().supports(Compression::Gzip));
    assert!(CompressionSupport::all().supports(Compression::Zstd));
    assert!(!CompressionSupport::none().supports(Compression::Gzip));
    assert!(!with_gzip_only().supports(Compression::Zstd));
}

#[test]
fn every_algorithm_is_selected_by_its_own_name() {
    for algorithm in [Compression::Gzip, Compression::Zstd] {
        assert_eq!(select(algorithm.name(), CompressionSupport::all()), Ok(Some(algorithm)));
    }
}
