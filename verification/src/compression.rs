//! The compression algorithms an exporter can ask for, and the selection of
//! one by name among those that the build supports.

use crate::error::Error;
use crate::text::str_eq;
use vstd::prelude::*;

verus! {

/// A compression algorithm for the exported payload.
#[derive(Clone, Copy, Debug, PartialEq, Eq, Structural)]
pub enum Compression {
    /// gzip.
    Gzip,
    /// zstd.
    Zstd,
}

/// Which algorithms the running build can apply.
#[derive(Clone, Copy, Debug, PartialEq, Eq, Structural)]
pub struct CompressionSupport {
    /// gzip is available.
    pub gzip: bool,
    /// zstd is available.
    pub zstd: bool,
}

impl Compression {
    /// The name by which configuration asks for this algorithm.
    pub open spec fn spec_name(self) -> Seq<char> {
        match self {
            Compression::Gzip => "gzip"@,
            Compression::Zstd => "zstd"@,
        }
    }

    /// The feature that provides this algorithm.
    pub open spec fn spec_feature(self) -> Seq<char> {
        match self {
            Compression::Gzip => "gzip-tonic"@,
            Compression::Zstd => "zstd-tonic"@,
        }
    }

    /// The name by which configuration asks for this algorithm.
    pub fn name(self) -> (name: &'static str)
        ensures
            name@ == self.spec_name(),
    {
        match self {
            Compression::Gzip => "gzip",
            Compression::Zstd => "zstd",
        }
    }

    /// The feature that provides this algorithm.
    pub fn feature(self) -> (feature: &'static str)
        ensures
            feature@ == self.spec_feature(),
    {
        match self {
            Compression::Gzip => "gzip-tonic",
            Compression::Zstd => "zstd-tonic",
        }
    }
}

impl CompressionSupport {
    /// A build with every algorithm.
    pub fn all() -> (support: CompressionSupport)
        ensures
            support.gzip && support.zstd,
    {
        CompressionSupport { gzip: true, zstd: true }
    }

    /// A build without any algorithm.
    pub fn none() -> (support: CompressionSupport)
        ensures
            !support.gzip && !support.zstd,
    {
        CompressionSupport { gzip: false, zstd: false }
    }

    /// Whether the build can apply `algorithm`.
    pub open spec fn has(self, algorithm: Compression) -> bool {
        match algorithm {
            Compression::Gzip => self.gzip,
            Compression::Zstd => self.zstd,
        }
    }

    /// Whether the build can apply `algorithm`.
    pub fn supports(self, algorithm: Compression) -> (yes: bool)
        ensures
            yes == self.has(algorithm),
    {
        match algorithm {
            Compression::Gzip => self.gzip,
            Compression::Zstd => self.zstd,
        }
    }
}

/// Whether `name` asks for no compression: it is empty or reads `none`.
pub open spec fn asks_for_none(name: Seq<char>) -> bool {
    name.len() == 0 || name == "none"@
}

/// The algorithm that `name` names, if it names one.
pub open spec fn named_algorithm(name: Seq<char>) -> Option<Compression> {
    if name == "gzip"@ {
        Some(Compression::Gzip)
    } else if name == "zstd"@ {
        Some(Compression::Zstd)
    } else {
        None
    }
}

/// What a requested name comes to under what the build supports.
#[derive(Clone, Copy, Debug, PartialEq, Eq, Structural)]
pub enum Selection {
    /// No compression is asked for.
    Off,
    /// The algorithm is known and supported.
    Use(Compression),
    /// The algorithm is known, and the build lacks it.
    Missing(Compression),
    /// The name is not one of an algorithm.
    Unknown,
}

impl Selection {
    /// Whether the request is refused.
    pub open spec fn refused(self) -> bool {
        self is Missing || self is Unknown
    }

    /// The algorithm to apply, where the request is not refused.
    pub open spec fn chosen(self) -> Option<Compression> {
        match self {
            Selection::Use(algorithm) => Some(algorithm),
            _ => None,
        }
    }
}

/// What `name` comes to under `support`.
pub open spec fn selection(name: Seq<char>, support: CompressionSupport) -> Selection {
    if asks_for_none(name) {
        Selection::Off
    } else {
        match named_algorithm(name) {
            Some(algorithm) => if support.has(algorithm) {
                Selection::Use(algorithm)
            } else {
                Selection::Missing(algorithm)
            },
            None => Selection::Unknown,
        }
    }
}

/// What [`select`] owes for `name` under `support`: the algorithm where the
/// request is not refused, else the error that says why it is.
pub open spec fn selects(
    name: Seq<char>,
    support: CompressionSupport,
    outcome: Result<Option<Compression>, Error>,
) -> bool {
    match selection(name, support) {
        Selection::Off => outcome matches Ok(None),
        Selection::Use(algorithm) => outcome matches Ok(Some(chosen)) && chosen == algorithm,
        Selection::Missing(algorithm) => outcome matches Err(
            Error::FeatureRequiredForCompressionAlgorithm(feature, wanted),
        ) && feature@ == algorithm.spec_feature() && wanted == algorithm,
        Selection::Unknown => outcome matches Err(Error::UnsupportedCompressionAlgorithm(refused))
            && refused@ == name,
    }
}

/// Checks a requested compression name against what the build supports.
///
/// The empty name and `none` give no compression. `gzip` and `zstd` give the
/// algorithm where the build has it, and otherwise the error that names the
/// missing feature. Any other name is refused and handed back in the error.
pub fn select(name: &str, support: CompressionSupport) -> (outcome: Result<
    Option<Compression>,
    Error,
>)
    ensures
        selects(name@, support, outcome),
{
    if name.is_empty() || str_eq(name, "none") {
        return Ok(None);
    }
    let algorithm = if str_eq(name, "gzip") {
        Compression::Gzip
    } else if str_eq(name, "zstd") {
        Compression::Zstd
    } else {
        return Err(Error::UnsupportedCompressionAlgorithm(name.to_owned()));
    };
    if support.supports(algorithm) {
        Ok(Some(algorithm))
    } else {
        Err(Error::FeatureRequiredForCompressionAlgorithm(algorithm.feature(), algorithm))
    }
}

/// The four names that configuration knows are distinct: each reads as itself.
pub proof fn lemma_known_names()
    ensures
        asks_for_none(""@),
        asks_for_none("none"@),
        !asks_for_none("gzip"@),
        !asks_for_none("zstd"@),
        named_algorithm("gzip"@) == Some(Compression::Gzip),
        named_algorithm("zstd"@) == Some(Compression::Zstd),
{
    reveal_strlit("");
    reveal_strlit("none");
    reveal_strlit("gzip");
    reveal_strlit("zstd");
    assert("gzip"@[0] == 'g');
    assert("zstd"@[0] == 'z');
    assert("none"@[0] == 'n');
}

/// A name that is none of the four known ones is refused, whatever the build
/// supports, and the error carries the name as it was given.
pub proof fn lemma_unknown_name_is_refused(
    name: Seq<char>,
    support: CompressionSupport,
    outcome: Result<Option<Compression>, Error>,
)
    requires
        selects(name, support, outcome),
        name != ""@,
        name != "none"@,
        name != "gzip"@,
        name != "zstd"@,
    ensures
        outcome matches Err(Error::UnsupportedCompressionAlgorithm(refused)) && refused@ == name,
{
    reveal_strlit("");
    assert(name.len() == 0 ==> name =~= ""@);
}

/// A known algorithm that the build lacks is refused with the name of the
/// feature that would provide it.
pub proof fn lemma_missing_feature_is_named(
    algorithm: Compression,
    support: CompressionSupport,
    outcome: Result<Option<Compression>, Error>,
)
    requires
        selects(algorithm.spec_name(), support, outcome),
        !support.has(algorithm),
    ensures
        outcome matches Err(Error::FeatureRequiredForCompressionAlgorithm(feature, wanted))
            && feature@ == algorithm.spec_feature() && wanted == algorithm,
{
    lemma_known_names();
}

} // verus!
