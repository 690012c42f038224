//! What a response means: the decisions taken once the service has answered.
//!
//! The caller performs the GET and decodes the body; these functions decide
//! which schema the body is decoded as and what the caller gets back.

use crate::types::{ApiErrorResponse, Error};
use vstd::prelude::*;

verus! {

/// Whether an HTTP status is a success (2xx), in which case the body is an
/// address result; otherwise it is an error envelope.
pub fn is_success_status(status: u16) -> (r: bool)
    ensures
        r == (200 <= status && status < 300),
{
    200 <= status && status < 300
}

/// What the caller gets back from a failure status, given how decoding the
/// body as an error envelope went: the service's error when the envelope was
/// well formed, a JSON error carrying the decoder's message otherwise.
pub fn api_failure<T>(envelope: Result<ApiErrorResponse, String>) -> (r: Result<T, Error>)
    ensures
        match envelope {
            Ok(e) => r == Err::<T, Error>(
                Error::ApiError { code: e.code, message: e.message, detail: e.detail },
            ),
            Err(m) => r == Err::<T, Error>(Error::UnmarshalJsonError(m)),
        },
{
    match envelope {
        Ok(e) => Err(Error::ApiError { code: e.code, message: e.message, detail: e.detail }),
        Err(m) => Err(Error::UnmarshalJsonError(m)),
    }
}

/// What the caller gets back from a success status, given how decoding the
/// body as an address result went.
pub fn decoded_success<T>(decoded: Result<T, String>) -> (r: Result<T, Error>)
    ensures
        match decoded {
            Ok(v) => r == Ok::<T, Error>(v),
            Err(m) => r == Err::<T, Error>(Error::UnmarshalJsonError(m)),
        },
{
    match decoded {
        Ok(v) => Ok(v),
        Err(m) => Err(Error::UnmarshalJsonError(m)),
    }
}

} // verus!
