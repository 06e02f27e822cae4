//! The closed error taxonomy surfaced to callers.

use vstd::prelude::*;
use crate::json::JsonValue;

verus! {

/// Every failure of an operation is one of exactly three kinds.
///
/// - `RequestError`: a transport-level failure, carrying the transport's
///   own description.
/// - `NonJsonResponse`: the response body was not valid JSON at all; the
///   raw body text is kept for offline inspection (the diagnostic
///   variant of this error).
/// - `InvalidResponse`: the body was valid JSON but did not have the
///   operation's expected shape; the parsed document is kept exactly as
///   received, before structural decoding was attempted.
///
/// No variant is retried here: retry policy belongs to the caller.
#[derive(Debug, Clone)]
pub enum Error {
    RequestError(String),
    NonJsonResponse(String),
    InvalidResponse(JsonValue),
}

/// A transport-level failure, from the transport's description.
pub fn request_error(message: String) -> (r: Error)
    ensures
        r == Error::RequestError(message),
{
    Error::RequestError(message)
}

/// A stage-one failure: the body could not be read as JSON.
pub fn non_json(body: String) -> (r: Error)
    ensures
        r == Error::NonJsonResponse(body),
{
    Error::NonJsonResponse(body)
}

/// A stage-two failure: valid JSON of the wrong shape, kept whole.
pub fn invalid_response(fallback: JsonValue) -> (r: Error)
    ensures
        r == Error::InvalidResponse(fallback),
{
    Error::InvalidResponse(fallback)
}

} // verus!
