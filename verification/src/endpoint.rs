//! The endpoint of an exporter: whether it is a URI, and whether the protocol
//! can use its scheme.

use crate::error::Error;
use crate::text::{opt_text, str_eq};
use crate::Protocol;
use vstd::prelude::*;
use vstd::string::StringExecFns;

verus! {

/// What `http::Uri` makes of `endpoint`: nothing where it refuses the text, and
/// else the scheme that it read, if it read one.
pub uninterp spec fn uri_scheme(endpoint: Seq<char>) -> Option<Option<Seq<char>>>;

/// Parses `endpoint` with `http::Uri::from_str` and keeps of the parsed URI
/// its scheme, as `scheme_str` hands it out; the parser's refusal is handed on
/// as it is. The outcome depends on the text alone, and [`uri_scheme`] stands
/// for it: nothing is stated here of which texts are URIs.
#[verifier::external_body]
fn read_uri_scheme(endpoint: &str) -> (read: Result<Option<String>, http::uri::InvalidUri>)
    ensures
        match read {
            Ok(scheme) => uri_scheme(endpoint@) == Some(opt_text(scheme)),
            Err(_) => uri_scheme(endpoint@) is None,
        },
{
    let uri = endpoint.parse::<http::Uri>()?;
    Ok(uri.scheme_str().map(String::from))
}

/// Why the channel cannot be set up: gRPC cannot use the endpoint's scheme.
pub const REJECTED_SCHEME: &'static str = "the scheme of the endpoint is not one that gRPC can use";

/// Whether gRPC can use an endpoint with this scheme: it can where there is
/// none, and where it is `http` or `https`.
pub open spec fn grpc_can_use(scheme: Option<Seq<char>>) -> bool {
    match scheme {
        Some(name) => name == "http"@ || name == "https"@,
        None => true,
    }
}

/// Whether gRPC can use an endpoint with this scheme: see [`grpc_can_use`].
pub fn scheme_suits_grpc(scheme: &Option<String>) -> (suits: bool)
    ensures
        suits == grpc_can_use(opt_text(*scheme)),
{
    match scheme {
        Some(name) => str_eq(name.as_str(), "http") || str_eq(name.as_str(), "https"),
        None => true,
    }
}

/// What is wrong with an endpoint.
#[derive(Clone, Copy, Debug, PartialEq, Eq, Structural)]
pub enum EndpointFault {
    /// It is not a URI.
    NotAUri,
    /// It is a URI, and the protocol cannot use its scheme.
    Scheme,
}

/// What is wrong with `endpoint` under `protocol`, if anything.
pub open spec fn endpoint_fault(endpoint: Seq<char>, protocol: Protocol) -> Option<EndpointFault> {
    match uri_scheme(endpoint) {
        None => Some(EndpointFault::NotAUri),
        Some(scheme) => if protocol == Protocol::Grpc && !grpc_can_use(scheme) {
            Some(EndpointFault::Scheme)
        } else {
            None
        },
    }
}

/// Whether `e` is the error that `fault` is reported with.
pub open spec fn reports_endpoint_fault(e: Error, fault: EndpointFault) -> bool {
    match fault {
        EndpointFault::NotAUri => e is InvalidUri,
        EndpointFault::Scheme => e matches Error::Transport(why) && why@ == REJECTED_SCHEME@,
    }
}

/// The judgement on a scheme that was read from an endpoint: an error where
/// the protocol is gRPC and cannot use it.
pub fn judge_scheme(scheme: &Option<String>, protocol: Protocol) -> (outcome: Result<(), Error>)
    ensures
        match outcome {
            Ok(_) => !(protocol == Protocol::Grpc && !grpc_can_use(opt_text(*scheme))),
            Err(e) => protocol == Protocol::Grpc && !grpc_can_use(opt_text(*scheme))
                && reports_endpoint_fault(e, EndpointFault::Scheme),
        },
{
    if protocol == Protocol::Grpc && !scheme_suits_grpc(scheme) {
        Err(Error::Transport(String::from_str(REJECTED_SCHEME)))
    } else {
        Ok(())
    }
}

/// Checks that `endpoint` is a URI and that `protocol` can use its scheme.
pub fn check_endpoint(endpoint: &str, protocol: Protocol) -> (outcome: Result<(), Error>)
    ensures
        match outcome {
            Ok(_) => endpoint_fault(endpoint@, protocol) is None,
            Err(e) => endpoint_fault(endpoint@, protocol) matches Some(fault)
                && reports_endpoint_fault(e, fault),
        },
{
    match read_uri_scheme(endpoint) {
        Ok(scheme) => judge_scheme(&scheme, protocol),
        Err(e) => Err(Error::from_invalid_uri(e)),
    }
}

} // verus!
