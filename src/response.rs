//! Classification of HTTP outcomes: success, or one kind of error.

use vstd::prelude::*;
use crate::error::OpenRouterError;
use crate::text::{decimal_u64, parse_u64};
use crate::types::ErrorResponse;

verus! {

/// Whether `status` reports success (the 2xx range).
pub open spec fn is_success_status(status: u16) -> bool {
    200 <= status <= 299
}

/// The delay, in seconds, that a rate-limited caller waits when the response
/// names none.
pub const DEFAULT_RETRY_AFTER: u64 = 60;

/// The retry delay that a `retry-after` header gives: its decimal value,
/// when there is a header and it is a number.
pub open spec fn retry_after_of(header: Option<Seq<char>>) -> Option<u64> {
    match header {
        Some(h) => decimal_u64(h),
        None => None,
    }
}

/// The error that a failed response stands for. Well-known statuses come
/// first; other statuses fall back on the service's own code; a body that is
/// not the error envelope gives the generic kind with the body as message.
pub open spec fn response_error(
    status: u16,
    envelope: Option<ErrorResponse>,
    body: String,
    retry_after: Option<u64>,
) -> OpenRouterError {
    match envelope {
        None => OpenRouterError::Api { status, message: body },
        Some(e) => {
            let message = e.error.message;
            if status == 401 {
                OpenRouterError::Unauthorized
            } else if status == 402 {
                OpenRouterError::InsufficientCredits(message)
            } else if status == 403 {
                OpenRouterError::Forbidden(message)
            } else if status == 404 {
                OpenRouterError::NotFound(message)
            } else if status == 429 {
                OpenRouterError::RateLimited {
                    retry_after: match retry_after {
                        Some(r) => r,
                        None => DEFAULT_RETRY_AFTER,
                    },
                }
            } else if 500 <= status <= 599 {
                OpenRouterError::ServerError(message)
            } else {
                match e.error.code {
                    Some(400) => OpenRouterError::InvalidRequest(message),
                    Some(404) => OpenRouterError::ModelNotAvailable(message),
                    _ => OpenRouterError::Api { status, message },
                }
            }
        },
    }
}

/// A well-known status with a decoded envelope gives its own kind of error,
/// whatever code the envelope carries.
pub proof fn lemma_known_status_kinds(
    status: u16,
    envelope: ErrorResponse,
    body: String,
    retry_after: Option<u64>,
)
    requires
        status == 401 || status == 402 || status == 403 || status == 404 || status == 429
            || status == 500 || status == 502 || status == 503,
    ensures
        ({
            let r = response_error(status, Some(envelope), body, retry_after);
            let message = envelope.error.message;
            &&& status == 401 ==> r is Unauthorized
            &&& status == 402 ==> r == OpenRouterError::InsufficientCredits(message)
            &&& status == 403 ==> r == OpenRouterError::Forbidden(message)
            &&& status == 404 ==> r == OpenRouterError::NotFound(message)
            &&& status == 429 ==> r is RateLimited
            &&& 500 <= status <= 599 ==> r == OpenRouterError::ServerError(message)
        }),
{
}

/// On status 429 the delay is the number that the `retry-after` header
/// holds, and 60 seconds where the header is absent or not a number.
pub proof fn lemma_rate_limit_delay(header: Option<Seq<char>>, envelope: ErrorResponse, body: String)
    ensures
        response_error(429, Some(envelope), body, retry_after_of(header))
            == (OpenRouterError::RateLimited {
            retry_after: match header {
                Some(h) => match decimal_u64(h) {
                    Some(n) => n,
                    None => 60,
                },
                None => 60,
            },
        }),
{
}

/// A failed response whose body is not the error envelope gives the generic
/// kind, carrying the status and the body text as it came.
pub proof fn lemma_undecodable_error_body(status: u16, body: String, retry_after: Option<u64>)
    requires
        !is_success_status(status),
    ensures
        response_error(status, None, body, retry_after) == (OpenRouterError::Api { status, message: body }),
{
}

/// A status that the table does not name falls back on the service's code:
/// 400 is an invalid request, 404 a model that is not available, and any
/// other code, or none, gives the generic kind.
pub proof fn lemma_unmapped_status_code(
    status: u16,
    envelope: ErrorResponse,
    body: String,
    retry_after: Option<u64>,
)
    requires
        status != 401 && status != 402 && status != 403 && status != 404 && status != 429,
        !(500 <= status <= 599),
    ensures
        ({
            let r = response_error(status, Some(envelope), body, retry_after);
            let message = envelope.error.message;
            &&& envelope.error.code == Some(400i32) ==> r == OpenRouterError::InvalidRequest(message)
            &&& envelope.error.code == Some(404i32) ==> r == OpenRouterError::ModelNotAvailable(message)
            &&& envelope.error.code != Some(400i32) && envelope.error.code != Some(404i32) ==> r
                == (OpenRouterError::Api { status, message })
        }),
{
}

/// Whether `status` reports success.
pub fn is_success(status: u16) -> (r: bool)
    ensures
        r == is_success_status(status),
{
    200 <= status && status <= 299
}

/// The seconds that a `retry-after` header asks to wait, if it holds a
/// number.
pub fn retry_after_seconds(header: Option<&str>) -> (r: Option<u64>)
    ensures
        r == retry_after_of(
            match header {
                Some(h) => Some(h@),
                None => None,
            },
        ),
{
    match header {
        Some(h) => parse_u64(h),
        None => None,
    }
}

/// The error for a failed response with status `status` and text `body`.
/// `envelope` is the body decoded as the service's error envelope, if it is
/// one; `retry_after` is the delay that the response asks for, if any.
pub fn classify_error(
    status: u16,
    body: String,
    envelope: Option<ErrorResponse>,
    retry_after: Option<u64>,
) -> (r: OpenRouterError)
    ensures
        r == response_error(status, envelope, body, retry_after),
{
    match envelope {
        None => OpenRouterError::Api { status, message: body },
        Some(e) => {
            let message = e.error.message;
            if status == 401 {
                OpenRouterError::Unauthorized
            } else if status == 402 {
                OpenRouterError::InsufficientCredits(message)
            } else if status == 403 {
                OpenRouterError::Forbidden(message)
            } else if status == 404 {
                OpenRouterError::NotFound(message)
            } else if status == 429 {
                let retry_after = match retry_after {
                    Some(r) => r,
                    None => DEFAULT_RETRY_AFTER,
                };
                OpenRouterError::RateLimited { retry_after }
            } else if 500 <= status && status <= 599 {
                OpenRouterError::ServerError(message)
            } else {
                match e.error.code {
                    Some(400) => OpenRouterError::InvalidRequest(message),
                    Some(404) => OpenRouterError::ModelNotAvailable(message),
                    _ => OpenRouterError::Api { status, message },
                }
            }
        },
    }
}

/// The error for a failed response, its retry delay read from the text of
/// its `retry-after` header.
pub fn error_for_response(
    status: u16,
    body: String,
    envelope: Option<ErrorResponse>,
    retry_after_header: Option<&str>,
) -> (r: OpenRouterError)
    ensures
        r == response_error(
            status,
            envelope,
            body,
            retry_after_of(
                match retry_after_header {
                    Some(h) => Some(h@),
                    None => None,
                },
            ),
        ),
{
    let retry_after = retry_after_seconds(retry_after_header);
    classify_error(status, body, envelope, retry_after)
}

/// The result of a successful response, from the decoding of its body: the
/// record, or the decoding failure as a JSON error.
pub fn decoded_success<T>(decoded: Result<T, serde_json::Error>) -> (r: Result<T, OpenRouterError>)
    ensures
        decoded matches Ok(v) ==> r == Ok::<T, OpenRouterError>(v),
        decoded matches Err(e) ==> r == Err::<T, OpenRouterError>(OpenRouterError::Json(e)),
{
    match decoded {
        Ok(v) => Ok(v),
        Err(e) => Err(OpenRouterError::Json(e)),
    }
}

} // verus!
