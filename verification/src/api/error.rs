//! Errors of the API service, and the HTTP status that each is answered with.

use crate::api::message::ApiRequest;
use serde_json::Error as SerdeError;
use std::io::Error as IoError;
use std::sync::mpsc::{RecvError, SendError};
use vstd::prelude::*;

verus! {

/// The error of `serde_json` for a message that it cannot read or write.
#[verifier::external_type_specification]
#[verifier::external_body]
pub struct ExSerdeError(SerdeError);

/// The error of std's IO functions.
#[verifier::external_type_specification]
#[verifier::external_body]
pub struct ExIoError(IoError);

/// The error of a channel whose receiver is gone; it holds the message.
#[verifier::external_type_specification]
#[verifier::external_body]
#[verifier::reject_recursive_types(T)]
pub struct ExSendError<T>(SendError<T>);

/// The error of a channel whose senders are gone.
#[verifier::external_type_specification]
#[verifier::external_body]
pub struct ExRecvError(RecvError);

/// Kinds for daemon related error messages.
#[derive(Debug)]
pub enum DaemonErrorKind {
    /// Service not ready yet.
    NotReady,
    /// Generic errors.
    Other(String),
    /// A message could not be read or written.
    Serde(SerdeError),
    /// Unexpected event type.
    UnexpectedEvent(String),
    /// Can't upgrade the daemon.
    UpgradeManager,
    /// Unsupported requests.
    Unsupported,
}

/// Errors of the metrics counters.
#[derive(Debug)]
pub enum IoStatsError {
    /// There is no such counter.
    NoCounter,
    /// The counters could not be written as a message.
    Serialize(SerdeError),
}

/// Kinds for metrics related error messages.
#[derive(Debug)]
pub enum MetricsErrorKind {
    /// Generic daemon related errors.
    Daemon(DaemonErrorKind),
    /// Errors related to metrics implementation.
    Stats(IoStatsError),
}

/// Errors of the API service, sent back in place of a payload.
#[derive(Debug)]
pub enum ApiError {
    /// Daemon internal error.
    DaemonAbnormal(DaemonErrorKind),
    /// Failed to get events information.
    Events(String),
    /// Failed to get metrics information.
    Metrics(MetricsErrorKind),
    /// Failed to mount filesystem.
    MountFilesystem(DaemonErrorKind),
    /// Failed to send request to the API service.
    RequestSend(SendError<Option<ApiRequest>>),
    /// Unrecognized payload content.
    ResponsePayloadType,
    /// Failed to receive response from the API service.
    ResponseRecv(RecvError),
    /// Failed to send wakeup notification.
    Wakeup(IoError),
}

/// HTTP error messages sent back to the clients.
///
/// A client receives the debug text of the error, so the names of the variants
/// are part of the API.
#[derive(Debug)]
pub enum HttpError {
    /// Invalid HTTP request.
    BadRequest,
    /// Failed to configure the daemon.
    Configure(ApiError),
    /// Failed to query information about daemon.
    DaemonInfo(ApiError),
    /// Failed to query global events.
    Events(ApiError),
    /// No handler registered for HTTP request URI.
    NoRoute,
    /// Failed to parse HTTP request message body.
    ParseBody(SerdeError),
    /// Query parameter is missed from the HTTP request.
    QueryString(String),
    /// Failed to mount filesystem.
    Mount(ApiError),
    /// Failed to remount filesystem.
    Upgrade(ApiError),
    /// Failed to get backend metrics.
    BackendMetrics(ApiError),
    /// Failed to get blobcache metrics.
    BlobcacheMetrics(ApiError),
    /// Failed to get filesystem backend information.
    FsBackendInfo(ApiError),
    /// Failed to get filesystem per-file metrics.
    FsFilesMetrics(ApiError),
    /// Failed to get global metrics.
    GlobalMetrics(ApiError),
    /// Failed to get information about inflight request.
    InflightMetrics(ApiError),
    /// Failed to get filesystem file access trace.
    Pattern(ApiError),
    /// Failed to create blob object.
    CreateBlobObject(ApiError),
    /// Failed to delete blob object.
    DeleteBlobObject(ApiError),
    /// Failed to list existing blob objects.
    GetBlobObjects(ApiError),
}

/// The status of an HTTP response.
#[derive(Clone, Copy, Debug, PartialEq, Eq, Structural)]
pub enum StatusCode {
    /// 100, Continue
    Continue,
    /// 200, OK
    OK,
    /// 204, No Content
    NoContent,
    /// 400, Bad Request
    BadRequest,
    /// 401, Unauthorized
    Unauthorized,
    /// 404, Not Found
    NotFound,
    /// 405, Method Not Allowed
    MethodNotAllowed,
    /// 413, Payload Too Large
    PayloadTooLarge,
    /// 500, Internal Server Error
    InternalServerError,
    /// 501, Not Implemented
    NotImplemented,
    /// 503, Service Unavailable
    ServiceUnavailable,
}

impl StatusCode {
    /// The number of the status.
    pub open spec fn spec_code(self) -> u16 {
        match self {
            StatusCode::Continue => 100,
            StatusCode::OK => 200,
            StatusCode::NoContent => 204,
            StatusCode::BadRequest => 400,
            StatusCode::Unauthorized => 401,
            StatusCode::NotFound => 404,
            StatusCode::MethodNotAllowed => 405,
            StatusCode::PayloadTooLarge => 413,
            StatusCode::InternalServerError => 500,
            StatusCode::NotImplemented => 501,
            StatusCode::ServiceUnavailable => 503,
        }
    }

    /// The number of the status.
    pub fn code(self) -> (r: u16)
        ensures
            r == self.spec_code(),
    {
        match self {
            StatusCode::Continue => 100,
            StatusCode::OK => 200,
            StatusCode::NoContent => 204,
            StatusCode::BadRequest => 400,
            StatusCode::Unauthorized => 401,
            StatusCode::NotFound => 404,
            StatusCode::MethodNotAllowed => 405,
            StatusCode::PayloadTooLarge => 413,
            StatusCode::InternalServerError => 500,
            StatusCode::NotImplemented => 501,
            StatusCode::ServiceUnavailable => 503,
        }
    }
}

/// The status that a failure of the daemon is answered with.
pub open spec fn daemon_status(kind: DaemonErrorKind) -> StatusCode {
    match kind {
        DaemonErrorKind::NotReady => StatusCode::ServiceUnavailable,
        DaemonErrorKind::Unsupported => StatusCode::NotImplemented,
        DaemonErrorKind::UnexpectedEvent(_) => StatusCode::BadRequest,
        _ => StatusCode::InternalServerError,
    }
}

/// The status that an error of the API service is answered with: that of the
/// daemon's failure for a daemon or mount error, 404 for a counter that does
/// not exist, and 500 for everything else.
pub open spec fn spec_translate_status_code(e: ApiError) -> StatusCode {
    match e {
        ApiError::DaemonAbnormal(kind) => daemon_status(kind),
        ApiError::MountFilesystem(kind) => daemon_status(kind),
        ApiError::Metrics(MetricsErrorKind::Stats(IoStatsError::NoCounter)) => StatusCode::NotFound,
        _ => StatusCode::InternalServerError,
    }
}

/// Translate an error of the API service to an HTTP status.
pub fn translate_status_code(e: &ApiError) -> (r: StatusCode)
    ensures
        r == spec_translate_status_code(*e),
{
    match e {
        ApiError::DaemonAbnormal(kind) | ApiError::MountFilesystem(kind) => match kind {
            DaemonErrorKind::NotReady => StatusCode::ServiceUnavailable,
            DaemonErrorKind::Unsupported => StatusCode::NotImplemented,
            DaemonErrorKind::UnexpectedEvent(_) => StatusCode::BadRequest,
            _ => StatusCode::InternalServerError,
        },
        ApiError::Metrics(MetricsErrorKind::Stats(IoStatsError::NoCounter)) => StatusCode::NotFound,
        _ => StatusCode::InternalServerError,
    }
}

} // verus!
