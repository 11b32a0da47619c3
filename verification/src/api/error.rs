//! The API error type and the HTTP response each error maps to.

use vstd::prelude::*;
use crate::text::append_str;

verus! {

/// An API error.
#[derive(Debug, Clone, PartialEq, Eq)]
pub enum ApiError {
    Unauthorized(String),
    Forbidden,
    NotFound,
    InsufficientCredits,
    BadRequest(String),
    TooManyRequests(String),
    NoProvider,
    Upstream(String),
    Internal(String),
}

/// The HTTP status of an error.
pub open spec fn status_spec(e: ApiError) -> u16 {
    match e {
        ApiError::Unauthorized(_) => 401,
        ApiError::Forbidden => 403,
        ApiError::NotFound => 404,
        ApiError::InsufficientCredits => 402,
        ApiError::BadRequest(_) => 400,
        ApiError::TooManyRequests(_) => 429,
        ApiError::NoProvider => 503,
        ApiError::Upstream(_) => 502,
        ApiError::Internal(_) => 500,
    }
}

/// The machine-readable code of an error.
pub open spec fn code_spec(e: ApiError) -> Seq<char> {
    match e {
        ApiError::Unauthorized(_) => "unauthorized"@,
        ApiError::Forbidden => "forbidden"@,
        ApiError::NotFound => "not_found"@,
        ApiError::InsufficientCredits => "insufficient_credits"@,
        ApiError::BadRequest(_) => "bad_request"@,
        ApiError::TooManyRequests(_) => "rate_limited"@,
        ApiError::NoProvider => "no_provider"@,
        ApiError::Upstream(_) => "upstream_error"@,
        ApiError::Internal(_) => "internal_error"@,
    }
}

/// The human-readable message of an error.
pub open spec fn message_spec(e: ApiError) -> Seq<char> {
    match e {
        ApiError::Unauthorized(m) => "unauthorized: "@ + m@,
        ApiError::Forbidden => "forbidden: insufficient scope"@,
        ApiError::NotFound => "not found"@,
        ApiError::InsufficientCredits => "payment required: insufficient credits"@,
        ApiError::BadRequest(m) => "bad request: "@ + m@,
        ApiError::TooManyRequests(m) => "too many requests: "@ + m@,
        ApiError::NoProvider => "no available model provider"@,
        ApiError::Upstream(m) => "upstream error: "@ + m@,
        ApiError::Internal(m) => "internal error: "@ + m@,
    }
}

fn prefixed(prefix: &str, m: &String) -> (r: String)
    ensures
        r@ == prefix@ + m@,
{
    let mut s = String::new();
    append_str(&mut s, prefix);
    assert(s@ =~= prefix@);
    append_str(&mut s, m.as_str());
    s
}

impl ApiError {
    /// The HTTP status code of the response.
    pub fn status(&self) -> (r: u16)
        ensures
            r == status_spec(*self),
    {
        match self {
            ApiError::Unauthorized(_) => 401,
            ApiError::Forbidden => 403,
            ApiError::NotFound => 404,
            ApiError::InsufficientCredits => 402,
            ApiError::BadRequest(_) => 400,
            ApiError::TooManyRequests(_) => 429,
            ApiError::NoProvider => 503,
            ApiError::Upstream(_) => 502,
            ApiError::Internal(_) => 500,
        }
    }

    /// The `error.code` field of the response body.
    pub fn code(&self) -> (r: &'static str)
        ensures
            r@ == code_spec(*self),
    {
        match self {
            ApiError::Unauthorized(_) => "unauthorized",
            ApiError::Forbidden => "forbidden",
            ApiError::NotFound => "not_found",
            ApiError::InsufficientCredits => "insufficient_credits",
            ApiError::BadRequest(_) => "bad_request",
            ApiError::TooManyRequests(_) => "rate_limited",
            ApiError::NoProvider => "no_provider",
            ApiError::Upstream(_) => "upstream_error",
            ApiError::Internal(_) => "internal_error",
        }
    }

    /// The `error.message` field of the response body (the error's text).
    pub fn message(&self) -> (r: String)
        ensures
            r@ == message_spec(*self),
    {
        match self {
            ApiError::Unauthorized(m) => prefixed("unauthorized: ", m),
            ApiError::Forbidden => String::from_str("forbidden: insufficient scope"),
            ApiError::NotFound => String::from_str("not found"),
            ApiError::InsufficientCredits => String::from_str("payment required: insufficient credits"),
            ApiError::BadRequest(m) => prefixed("bad request: ", m),
            ApiError::TooManyRequests(m) => prefixed("too many requests: ", m),
            ApiError::NoProvider => String::from_str("no available model provider"),
            ApiError::Upstream(m) => prefixed("upstream error: ", m),
            ApiError::Internal(m) => prefixed("internal error: ", m),
        }
    }
}

/// An `Unauthorized` error with the given reason.
pub fn unauthorized(reason: &str) -> (r: ApiError)
    ensures
        r matches ApiError::Unauthorized(m) && m@ == reason@,
{
    ApiError::Unauthorized(String::from_str(reason))
}

/// The error of a failed database operation: an internal error quoting
/// the database's message after `db error: `.
pub fn db_error(message: &str) -> (r: ApiError)
    ensures
        r matches ApiError::Internal(m) && m@ == "db error: "@ + message@,
{
    let mut m = String::new();
    append_str(&mut m, "db error: ");
    append_str(&mut m, message);
    assert(m@ =~= "db error: "@ + message@);
    ApiError::Internal(m)
}

/// A `TooManyRequests` error (HTTP 429) with the given reason.
pub fn too_many_requests(reason: &str) -> (r: ApiError)
    ensures
        r matches ApiError::TooManyRequests(m) && m@ == reason@,
{
    ApiError::TooManyRequests(String::from_str(reason))
}

/// A `BadRequest` error with the given reason.
pub fn bad_request(reason: &str) -> (r: ApiError)
    ensures
        r matches ApiError::BadRequest(m) && m@ == reason@,
{
    ApiError::BadRequest(String::from_str(reason))
}

} // verus!
