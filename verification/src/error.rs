//! The closed set of failures that configuring or running an exporter can
//! report, and the conversions from each transport library's own errors.

use crate::compression::Compression;
use crate::text::opt_text;
use tonic::transport::Error as ChannelError;
use vstd::prelude::*;
use vstd::string::{to_string_from_display_ensures, StringExecFns};

verus! {

/// `tonic::Status`, the status with which a gRPC call ends. Carried, never
/// looked into: what it holds is read through the three functions below.
#[verifier::external_type_specification]
#[verifier::external_body]
pub struct ExTonicStatus(tonic::Status);

/// `tonic::transport::Error`, tonic's failure to set up a channel. Carried, and
/// asked for its text.
#[verifier::external_type_specification]
#[verifier::external_body]
pub struct ExChannelError(ChannelError);

/// `http::uri::InvalidUri`, the URI parser's refusal. Carried, and asked for
/// its text.
#[verifier::external_type_specification]
#[verifier::external_body]
pub struct ExInvalidUri(http::uri::InvalidUri);

/// `http::header::InvalidHeaderName`, the refusal of a header name. Carried,
/// and asked for its text.
#[verifier::external_type_specification]
#[verifier::external_body]
pub struct ExInvalidHeaderName(http::header::InvalidHeaderName);

/// `http::header::InvalidHeaderValue`, the refusal of a header value. Carried,
/// and asked for its text.
#[verifier::external_type_specification]
#[verifier::external_body]
pub struct ExInvalidHeaderValue(http::header::InvalidHeaderValue);

/// `prost::EncodeError`, prost's failure to encode a message. Carried, and
/// asked for its text.
#[verifier::external_type_specification]
#[verifier::external_body]
pub struct ExEncodeError(prost::EncodeError);

/// The status codes of gRPC, in the order of their numbers (0 to 16).
#[derive(Clone, Copy, Debug, PartialEq, Eq, Structural)]
pub enum StatusCode {
    Success,
    Cancelled,
    Unknown,
    InvalidArgument,
    DeadlineExceeded,
    NotFound,
    AlreadyExists,
    PermissionDenied,
    ResourceExhausted,
    FailedPrecondition,
    Aborted,
    OutOfRange,
    Unimplemented,
    Internal,
    Unavailable,
    DataLoss,
    Unauthenticated,
}

impl StatusCode {
    /// The number gRPC gives this code.
    pub open spec fn number(self) -> int {
        match self {
            StatusCode::Success => 0,
            StatusCode::Cancelled => 1,
            StatusCode::Unknown => 2,
            StatusCode::InvalidArgument => 3,
            StatusCode::DeadlineExceeded => 4,
            StatusCode::NotFound => 5,
            StatusCode::AlreadyExists => 6,
            StatusCode::PermissionDenied => 7,
            StatusCode::ResourceExhausted => 8,
            StatusCode::FailedPrecondition => 9,
            StatusCode::Aborted => 10,
            StatusCode::OutOfRange => 11,
            StatusCode::Unimplemented => 12,
            StatusCode::Internal => 13,
            StatusCode::Unavailable => 14,
            StatusCode::DataLoss => 15,
            StatusCode::Unauthenticated => 16,
        }
    }

    /// The number gRPC gives this code.
    pub fn to_number(self) -> (n: i32)
        ensures
            n == self.number(),
    {
        match self {
            StatusCode::Success => 0,
            StatusCode::Cancelled => 1,
            StatusCode::Unknown => 2,
            StatusCode::InvalidArgument => 3,
            StatusCode::DeadlineExceeded => 4,
            StatusCode::NotFound => 5,
            StatusCode::AlreadyExists => 6,
            StatusCode::PermissionDenied => 7,
            StatusCode::ResourceExhausted => 8,
            StatusCode::FailedPrecondition => 9,
            StatusCode::Aborted => 10,
            StatusCode::OutOfRange => 11,
            StatusCode::Unimplemented => 12,
            StatusCode::Internal => 13,
            StatusCode::Unavailable => 14,
            StatusCode::DataLoss => 15,
            StatusCode::Unauthenticated => 16,
        }
    }

    /// The code with the given number. A number that gRPC does not define reads
    /// as `Unknown`.
    pub fn from_number(n: i32) -> (code: StatusCode)
        ensures
            0 <= n <= 16 ==> code.number() == n,
            !(0 <= n <= 16) ==> code == StatusCode::Unknown,
    {
        match n {
            0 => StatusCode::Success,
            1 => StatusCode::Cancelled,
            2 => StatusCode::Unknown,
            3 => StatusCode::InvalidArgument,
            4 => StatusCode::DeadlineExceeded,
            5 => StatusCode::NotFound,
            6 => StatusCode::AlreadyExists,
            7 => StatusCode::PermissionDenied,
            8 => StatusCode::ResourceExhausted,
            9 => StatusCode::FailedPrecondition,
            10 => StatusCode::Aborted,
            11 => StatusCode::OutOfRange,
            12 => StatusCode::Unimplemented,
            13 => StatusCode::Internal,
            14 => StatusCode::Unavailable,
            15 => StatusCode::DataLoss,
            16 => StatusCode::Unauthenticated,
            _ => StatusCode::Unknown,
        }
    }
}

/// What a remote server reported: its status code, its message, and, where the
/// transport kept one, the debug text of the underlying cause.
#[derive(Clone, Debug, PartialEq, Eq)]
pub struct RemoteStatus {
    pub code: StatusCode,
    pub message: String,
    pub source: Option<String>,
}

/// Every failure this crate reports.
#[derive(Clone, Debug, PartialEq, Eq)]
pub enum Error {
    /// The channel or connection could not be set up. Carries the transport's
    /// message, or one of the `REJECTED_*` messages of the configuration
    /// resolver.
    Transport(String),
    /// The endpoint is not a URI. Carries the URI parser's message.
    InvalidUri(String),
    /// The remote server answered with a status.
    Status {
        /// The gRPC status code.
        code: StatusCode,
        /// The text that goes with it; see [`status_text`].
        message: String,
    },
    /// An HTTP exporter was asked for and no HTTP client was supplied.
    NoHttpClient,
    /// The HTTP request was made and failed. Carries the client's message.
    RequestFailed(String),
    /// A header value holds a byte that HTTP does not allow there. Carries the
    /// header library's message.
    InvalidHeaderValue(String),
    /// A header name is not an HTTP token. Carries the header library's message.
    InvalidHeaderName(String),
    /// The payload could not be encoded. Carries the encoder's message.
    EncodeError(String),
    /// A lock inside an exporter was poisoned. Names what the lock guards.
    PoisonedLock(&'static str),
    /// The named compression algorithm is not one this crate knows.
    UnsupportedCompressionAlgorithm(String),
    /// The algorithm is known, and the named feature that provides it is absent.
    FeatureRequiredForCompressionAlgorithm(&'static str, Compression),
}

/// What introduces the server's message in the text of a status error.
pub const STATUS_MESSAGE_PREFIX: &'static str = ", detailed error message: ";

/// The text of a status error.
///
/// An empty server message gives an empty text. Otherwise the text is the
/// prefix and the server's message; for the code `Unknown` a space and the
/// debug text of the underlying cause (nothing, where there is none) follow.
pub open spec fn status_text(code: StatusCode, message: Seq<char>, source: Option<Seq<char>>) -> Seq<
    char,
> {
    if message.len() == 0 {
        Seq::empty()
    } else if code == StatusCode::Unknown {
        STATUS_MESSAGE_PREFIX@ + message + seq![' '] + match source {
            Some(detail) => detail,
            None => Seq::empty(),
        }
    } else {
        STATUS_MESSAGE_PREFIX@ + message
    }
}

/// The server's message stands unchanged inside the text of a status error,
/// right after the prefix; for the code `Unknown` the text ends with the cause.
pub proof fn lemma_status_text_keeps_message(
    code: StatusCode,
    message: Seq<char>,
    source: Option<Seq<char>>,
)
    requires
        message.len() > 0,
    ensures
        ({
            let text = status_text(code, message, source);
            let start = STATUS_MESSAGE_PREFIX@.len() as int;
            &&& text.len() >= start + message.len()
            &&& text.subrange(0, start) == STATUS_MESSAGE_PREFIX@
            &&& text.subrange(start, start + message.len()) == message
            &&& code == StatusCode::Unknown ==> match source {
                Some(detail) => text.subrange(text.len() - detail.len(), text.len() as int)
                    == detail && text[text.len() - detail.len() - 1] == ' ',
                None => text.last() == ' ' && text.len() == start + message.len() + 1,
            }
            &&& code != StatusCode::Unknown ==> text.len() == start + message.len()
        }),
{
    let text = status_text(code, message, source);
    let start = STATUS_MESSAGE_PREFIX@.len() as int;
    assert(text.subrange(0, start) =~= STATUS_MESSAGE_PREFIX@);
    assert(text.subrange(start, start + message.len()) =~= message);
    if code == StatusCode::Unknown {
        if let Some(detail) = source {
            assert(text.subrange(text.len() - detail.len(), text.len() as int) =~= detail);
        }
    }
}

/// Without a message from the server the text of a status error is empty,
/// whatever the code and whether or not there is a cause.
pub proof fn lemma_status_text_of_no_message(code: StatusCode, source: Option<Seq<char>>)
    ensures
        status_text(code, Seq::empty(), source) == Seq::<char>::empty(),
{
}

/// The number of the code that a status of tonic holds.
pub uninterp spec fn status_code_of(status: tonic::Status) -> int;

/// The message that a status of tonic holds.
pub uninterp spec fn status_message_of(status: tonic::Status) -> Seq<char>;

/// Whether a status of tonic holds a cause.
pub uninterp spec fn status_has_source(status: tonic::Status) -> bool;

/// The text with which tonic describes the code of the given number.
pub uninterp spec fn code_description_of(number: int) -> Seq<char>;

/// Calls `tonic::Status::code` and turns the code into its number, which
/// tonic defines as 0 to 16. [`status_code_of`] stands for that number.
#[verifier::external_body]
fn status_code_number(status: &tonic::Status) -> (n: i32)
    ensures
        0 <= n <= 16,
        n == status_code_of(*status),
{
    i32::from(status.code())
}

/// Calls `tonic::Status::message` and copies the text, for which
/// [`status_message_of`] stands.
#[verifier::external_body]
fn status_message(status: &tonic::Status) -> (message: String)
    ensures
        message@ == status_message_of(*status),
{
    String::from(status.message())
}

/// Calls `std::error::Error::source` on a `tonic::Status` and formats the cause,
/// if there is one, with `{:?}`. Whether there is one is the status's own, and
/// [`status_has_source`] stands for it; the text is the cause's to give, and
/// nothing is stated of it.
#[verifier::external_body]
fn status_source(status: &tonic::Status) -> (detail: Option<String>)
    ensures
        detail is Some <==> status_has_source(*status),
{
    std::error::Error::source(status).map(|cause| format!("{:?}", cause))
}

/// Turns the number into tonic's code with `tonic::Code::from_i32` and copies
/// the text of `tonic::Code::description`, for which [`code_description_of`]
/// stands.
#[verifier::external_body]
fn code_description(number: i32) -> (text: String)
    ensures
        text@ == code_description_of(number as int),
{
    String::from(tonic::Code::from_i32(number).description())
}

/// The text with which an error presents itself: what it is, and what it
/// carries.
pub open spec fn error_text(e: Error) -> Seq<char> {
    match e {
        Error::Transport(detail) => "transport error "@ + detail@,
        Error::InvalidUri(detail) => "invalid URI "@ + detail@,
        Error::Status { code, message } => "the grpc server returns error ("@
            + code_description_of(code.number()) + "): "@ + message@,
        Error::NoHttpClient =>
            "no http client, you must select one from features or provide your own implementation"@,
        Error::RequestFailed(detail) => "http request failed with "@ + detail@,
        Error::InvalidHeaderValue(detail) => "http header value error "@ + detail@,
        Error::InvalidHeaderName(detail) => "http header name error "@ + detail@,
        Error::EncodeError(detail) => "prost encoding error "@ + detail@,
        Error::PoisonedLock(what) => "the lock of the "@ + what@ + " has been poisoned"@,
        Error::UnsupportedCompressionAlgorithm(name) => "unsupported compression algorithm '"@
            + name@ + "'"@,
        Error::FeatureRequiredForCompressionAlgorithm(feature, algorithm) => "feature '"@
            + feature@ + "' is required to use the compression algorithm '"@
            + algorithm.spec_name() + "'"@,
    }
}

/// `prefix` followed by `detail`.
fn joined(prefix: &str, detail: &str) -> (text: String)
    ensures
        text@ == prefix@ + detail@,
{
    let mut text = String::from_str(prefix);
    text.append(detail);
    text
}

/// `prefix`, `detail` and `suffix`, one after the other.
fn enclosed(prefix: &str, detail: &str, suffix: &str) -> (text: String)
    ensures
        text@ == prefix@ + detail@ + suffix@,
{
    let mut text = joined(prefix, detail);
    text.append(suffix);
    text
}

impl Error {
    /// The name under which the telemetry SDK knows this exporter.
    pub fn exporter_name(&self) -> (name: &'static str)
        ensures
            name@ == "otlp"@,
    {
        "otlp"
    }

    /// The error for a status that a remote server reported.
    pub fn from_remote_status(status: RemoteStatus) -> (e: Error)
        ensures
            e matches Error::Status { code, message } && code == status.code && message@
                == status_text(status.code, status.message@, opt_text(status.source)),
    {
        let message = if !status.message.as_str().is_empty() {
            let mut text = String::from_str(STATUS_MESSAGE_PREFIX);
            text.append(status.message.as_str());
            if status.code == StatusCode::Unknown {
                proof {
                    reveal_strlit(" ");
                }
                assert(" "@ =~= seq![' ']);
                text.append(" ");
                match &status.source {
                    Some(detail) => {
                        text.append(detail.as_str());
                    },
                    None => {
                        assert(text@ + Seq::<char>::empty() =~= text@);
                    },
                }
            }
            text
        } else {
            String::new()
        };
        Error::Status { code: status.code, message }
    }

    /// What tonic's status holds, as plain values.
    fn read_status(status: &tonic::Status) -> (read: RemoteStatus)
        ensures
            read.code.number() == status_code_of(*status),
            read.message@ == status_message_of(*status),
            read.source is Some <==> status_has_source(*status),
    {
        RemoteStatus {
            code: StatusCode::from_number(status_code_number(status)),
            message: status_message(status),
            source: status_source(status),
        }
    }

    /// The error for a status that tonic hands over. The code is the one whose
    /// number the status holds. The text is that of [`status_text`] for the
    /// code, the message that the status holds, and the debug text of its
    /// cause: some text where the status holds a cause, none where it does not.
    pub fn from_status(status: tonic::Status) -> (e: Error)
        ensures
            e matches Error::Status { code, message } && code.number() == status_code_of(status)
                && exists|detail: Option<Seq<char>>|
                (detail is Some <==> status_has_source(status)) && message@ == #[trigger] status_text(
                    code,
                    status_message_of(status),
                    detail,
                ),
    {
        let read = Error::read_status(&status);
        let ghost detail = opt_text(read.source);
        let e = Error::from_remote_status(read);
        assert(e matches Error::Status { code, message } && message@ == status_text(
            code,
            status_message_of(status),
            detail,
        ));
        e
    }

    /// The text with which this error presents itself: see [`error_text`].
    pub fn text(&self) -> (text: String)
        ensures
            text@ == error_text(*self),
    {
        match self {
            Error::Transport(detail) => joined("transport error ", detail.as_str()),
            Error::InvalidUri(detail) => joined("invalid URI ", detail.as_str()),
            Error::Status { code, message } => {
                let description = code_description(code.to_number());
                let mut text = enclosed(
                    "the grpc server returns error (",
                    description.as_str(),
                    "): ",
                );
                text.append(message.as_str());
                text
            },
            Error::NoHttpClient => String::from_str(
                "no http client, you must select one from features or provide your own implementation",
            ),
            Error::RequestFailed(detail) => joined("http request failed with ", detail.as_str()),
            Error::InvalidHeaderValue(detail) => joined(
                "http header value error ",
                detail.as_str(),
            ),
            Error::InvalidHeaderName(detail) => joined("http header name error ", detail.as_str()),
            Error::EncodeError(detail) => joined("prost encoding error ", detail.as_str()),
            Error::PoisonedLock(what) => enclosed("the lock of the ", what, " has been poisoned"),
            Error::UnsupportedCompressionAlgorithm(name) => enclosed(
                "unsupported compression algorithm '",
                name.as_str(),
                "'",
            ),
            Error::FeatureRequiredForCompressionAlgorithm(feature, algorithm) => {
                let mut text = enclosed(
                    "feature '",
                    feature,
                    "' is required to use the compression algorithm '",
                );
                text.append(algorithm.name());
                text.append("'");
                text
            },
        }
    }

    /// The error for a failure to set up tonic's channel. It carries the text
    /// that the failure displays.
    pub fn from_transport_error(e: ChannelError) -> (r: Error)
        ensures
            r matches Error::Transport(text) && to_string_from_display_ensures::<ChannelError>(&e, text),
    {
        Error::Transport(e.to_string())
    }

    /// The error for an endpoint that the URI parser refused. It carries the
    /// text that the refusal displays.
    pub fn from_invalid_uri(e: http::uri::InvalidUri) -> (r: Error)
        ensures
            r matches Error::InvalidUri(text) && to_string_from_display_ensures::<http::uri::InvalidUri>(&e, text),
    {
        Error::InvalidUri(e.to_string())
    }

    /// The error for a header name that the header library refused. It carries
    /// the text that the refusal displays.
    pub fn from_invalid_header_name(e: http::header::InvalidHeaderName) -> (r: Error)
        ensures
            r matches Error::InvalidHeaderName(text) && to_string_from_display_ensures::<http::header::InvalidHeaderName>(&e, text),
    {
        Error::InvalidHeaderName(e.to_string())
    }

    /// The error for a header value that the header library refused. It carries
    /// the text that the refusal displays.
    pub fn from_invalid_header_value(e: http::header::InvalidHeaderValue) -> (r: Error)
        ensures
            r matches Error::InvalidHeaderValue(text) && to_string_from_display_ensures::<http::header::InvalidHeaderValue>(&e, text),
    {
        Error::InvalidHeaderValue(e.to_string())
    }

    /// The error for an HTTP request that was made and failed, from the failure
    /// as the client reports it. It carries the text that the failure displays.
    pub fn from_request_failure<E: std::fmt::Display>(e: &E) -> (r: Error)
        ensures
            r matches Error::RequestFailed(text) && to_string_from_display_ensures::<E>(e, text),
    {
        Error::RequestFailed(e.to_string())
    }

    /// The error for a payload that prost could not encode. It carries the text
    /// that the failure displays.
    pub fn from_encode_error(e: prost::EncodeError) -> (r: Error)
        ensures
            r matches Error::EncodeError(text) && to_string_from_display_ensures::<prost::EncodeError>(&e, text),
    {
        Error::EncodeError(e.to_string())
    }
}

} // verus!
