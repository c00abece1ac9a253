//! The shape of a successful API answer: a status code and a response
//! body that repeats the code beside the payload. Turning these values
//! into transport responses is the HTTP adapter's business.

use vstd::prelude::*;

verus! {

/// HTTP status: the request succeeded and an entity is returned.
pub const STATUS_OK: u16 = 200;

/// HTTP status: the entity was created.
pub const STATUS_CREATED: u16 = 201;

/// HTTP status: the request was well-formed but semantically rejected.
pub const STATUS_UNPROCESSABLE_ENTITY: u16 = 422;

/// HTTP status: an opaque internal failure.
pub const STATUS_INTERNAL_SERVER_ERROR: u16 = 500;

/// The body every API answer carries: the status code repeated beside the
/// payload.
#[derive(Debug, Clone, PartialEq, Eq)]
pub struct ApiResponseBody<T> {
    pub status_code: u16,
    pub data: T,
}

impl<T> ApiResponseBody<T> {
    pub fn new(status_code: u16, data: T) -> (r: Self)
        ensures
            r.status_code == status_code,
            r.data == data,
    {
        Self { status_code, data }
    }
}

/// Wrapper type representing a successful API response: an HTTP status
/// code and the body carrying the response data.
#[derive(Debug, Clone, PartialEq, Eq)]
pub struct ApiSuccess<T>(pub u16, pub ApiResponseBody<T>);

impl<T> ApiSuccess<T> {
    /// A successful response with the given status code and data.
    pub fn new(status: u16, data: T) -> (r: Self)
        ensures
            r.0 == status,
            r.1.status_code == status,
            r.1.data == data,
    {
        let body = ApiResponseBody::new(status, data);
        ApiSuccess(status, body)
    }
}

} // verus!
