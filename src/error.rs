//! The error taxonomy of the client.

use vstd::prelude::*;

verus! {

/// A failure of the HTTP transport, as the transport reports it.
#[verifier::external_type_specification]
#[verifier::external_body]
pub struct ExTransportError(reqwest::Error);

/// A failure to decode JSON, as the decoder reports it.
#[verifier::external_type_specification]
#[verifier::external_body]
pub struct ExJsonError(serde_json::Error);

/// Every way in which a call of the API can fail.
#[derive(Debug)]
pub enum OpenRouterError {
    /// The HTTP exchange could not be completed.
    Request(reqwest::Error),
    /// A failed response that no more specific kind describes.
    Api { status: u16, message: String },
    /// Too many requests; try again after `retry_after` seconds.
    RateLimited { retry_after: u64 },
    /// The API key was refused.
    Unauthorized,
    Forbidden(String),
    NotFound(String),
    /// A body was not the JSON that was expected.
    Json(serde_json::Error),
    InvalidRequest(String),
    ServerError(String),
    /// Part of the taxonomy; no response is classified as this kind.
    ContextLengthExceeded(String),
    InsufficientCredits(String),
    ModelNotAvailable(String),
    /// A credential could not be written into the named request header.
    InvalidHeader(String),
}

} // verus!
