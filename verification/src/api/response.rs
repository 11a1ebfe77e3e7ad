//! The replies of the HTTP server, before they are put on the wire.

use crate::api::error::{HttpError, StatusCode};
use crate::api::routes::{Endpoint, HttpRoutes};
use vstd::prelude::*;
use vstd::string::*;

verus! {

/// The message that a client receives for a request that failed.
#[derive(Debug)]
pub struct ErrorMessage {
    /// The code of the error.
    pub code: String,
    /// The debug text of the error.
    pub message: String,
}

/// The body of a reply.
#[derive(Debug)]
pub enum ReplyBody {
    /// The text that the daemon sent.
    Text(String),
    /// The message for a request that failed, which goes out as JSON.
    Error(ErrorMessage),
}

/// A reply of the HTTP server: its status and, where it has one, its body.
#[derive(Debug)]
pub struct Reply {
    /// The status of the reply.
    pub status: StatusCode,
    /// The body of the reply.
    pub body: Option<ReplyBody>,
}

/// The debug text of `error`, as `format!` of std writes it with `{:?}`.
#[verifier::external_body]
fn debug_text(error: &HttpError) -> String {
    format!("{:?}", error)
}

/// The reply to a request that was served: 200 with `body`, or 204 where
/// there is no body.
pub fn success_response(body: Option<String>) -> (r: Reply)
    ensures
        body matches Some(text) ==> r.status == StatusCode::OK && r.body == Some(
            ReplyBody::Text(text),
        ),
        body is None ==> r.status == StatusCode::NoContent && r.body is None,
{
    match body {
        Some(text) => Reply { status: StatusCode::OK, body: Some(ReplyBody::Text(text)) },
        None => Reply { status: StatusCode::NoContent, body: None },
    }
}

/// The reply to a request that failed with `error`: the given status, and a
/// message with the code `UNDEFINED` and the debug text of the error.
pub fn error_response(error: HttpError, status: StatusCode) -> (r: Reply)
    ensures
        r.status == status,
        r.body matches Some(ReplyBody::Error(message)) && message.code@ == "UNDEFINED"@,
{
    let message = ErrorMessage {
        code: String::from_str("UNDEFINED"),
        message: debug_text(&error),
    };
    Reply { status, body: Some(ReplyBody::Error(message)) }
}

/// Find the endpoint that serves a request. `path` is the path of the request
/// URI, or `None` where the URI cannot be read. A URI that cannot be read is
/// answered with 400, and a path without endpoint with 404, each with an
/// error message as [`error_response`] makes it.
pub fn route_http_request(routes: &HttpRoutes, path: Option<&str>) -> (r: Result<Endpoint, Reply>)
    ensures
        path is Some && routes@.contains_key(path->0@) ==> r == Ok::<Endpoint, Reply>(
            routes@[path->0@],
        ),
        path is Some && !routes@.contains_key(path->0@) ==> r is Err && r->Err_0.status
            == StatusCode::NotFound,
        path is None ==> r is Err && r->Err_0.status == StatusCode::BadRequest,
        r matches Err(reply) ==> reply.body matches Some(ReplyBody::Error(message))
            && message.code@ == "UNDEFINED"@,
{
    match path {
        Some(p) => match routes.get(p) {
            Some(endpoint) => Ok(endpoint),
            None => Err(error_response(HttpError::NoRoute, StatusCode::NotFound)),
        },
        None => Err(error_response(HttpError::BadRequest, StatusCode::BadRequest)),
    }
}

/// The reply to a request, given what its endpoint made of it: the reply of
/// the endpoint, or 400 with the error where the endpoint failed.
pub fn reply_of(result: Result<Reply, HttpError>) -> (r: Reply)
    ensures
        result matches Ok(reply) ==> r == reply,
        result is Err ==> r.status == StatusCode::BadRequest && (r.body matches Some(
            ReplyBody::Error(message),
        ) && message.code@ == "UNDEFINED"@),
{
    match result {
        Ok(reply) => reply,
        Err(error) => error_response(error, StatusCode::BadRequest),
    }
}

} // verus!
