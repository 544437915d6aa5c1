//! The application error type and what a client is told about it.
//!
//! Every request handler fails with an `AppError`. The client sees a status, a
//! machine-readable code and a message; internal errors are never leaked.

use vstd::prelude::*;

verus! {

/// Why a request failed.
#[derive(Debug)]
pub enum AppError {
    /// 400 – the request itself was malformed (e.g. invalid loan amount).
    BadRequest(String),
    /// 401 – no valid session / the OIDC token could not be read.
    Unauthorized(String),
    /// 403 – authenticated, but missing the required role.
    Forbidden(String),
    /// 404 – the referenced resource does not exist.
    NotFound(String),
    /// 429 – a rate/quota limit was hit (e.g. too many loans in the window).
    TooManyRequests(String),
    /// 500 – anything unexpected (database failures, etc.).
    Internal(String),
}

/// The HTTP status of an error.
pub open spec fn status_of(e: AppError) -> u16 {
    match e {
        AppError::BadRequest(_) => 400,
        AppError::Unauthorized(_) => 401,
        AppError::Forbidden(_) => 403,
        AppError::NotFound(_) => 404,
        AppError::TooManyRequests(_) => 429,
        AppError::Internal(_) => 500,
    }
}

/// The machine-readable code of an error.
pub open spec fn code_of(e: AppError) -> Seq<char> {
    match e {
        AppError::BadRequest(_) => "bad_request"@,
        AppError::Unauthorized(_) => "unauthorized"@,
        AppError::Forbidden(_) => "forbidden"@,
        AppError::NotFound(_) => "not_found"@,
        AppError::TooManyRequests(_) => "too_many_requests"@,
        AppError::Internal(_) => "internal_error"@,
    }
}

/// The full message an error carries.
pub open spec fn message_of(e: AppError) -> Seq<char> {
    match e {
        AppError::BadRequest(m) => m@,
        AppError::Unauthorized(m) => m@,
        AppError::Forbidden(m) => m@,
        AppError::NotFound(m) => m@,
        AppError::TooManyRequests(m) => m@,
        AppError::Internal(m) => m@,
    }
}

/// The message a client is shown: the error's own, except for internal errors,
/// which are replaced by a fixed text.
pub open spec fn client_message_of(e: AppError) -> Seq<char> {
    match e {
        AppError::Internal(_) => "Internal server error"@,
        _ => message_of(e),
    }
}

impl AppError {
    /// Status, code and full message of the error.
    pub fn parts(&self) -> (r: (u16, &'static str, &str))
        ensures
            r.0 == status_of(*self),
            r.1@ == code_of(*self),
            r.2@ == message_of(*self),
    {
        match self {
            AppError::BadRequest(m) => (400, "bad_request", m.as_str()),
            AppError::Unauthorized(m) => (401, "unauthorized", m.as_str()),
            AppError::Forbidden(m) => (403, "forbidden", m.as_str()),
            AppError::NotFound(m) => (404, "not_found", m.as_str()),
            AppError::TooManyRequests(m) => (429, "too_many_requests", m.as_str()),
            AppError::Internal(m) => (500, "internal_error", m.as_str()),
        }
    }

    /// Status, code and message of the JSON body `{ "error": code, "message":
    /// message }` sent to the client. An internal error keeps its status and
    /// code but its message is replaced by `"Internal server error"`.
    pub fn client_body(&self) -> (r: (u16, &'static str, &str))
        ensures
            r.0 == status_of(*self),
            r.1@ == code_of(*self),
            r.2@ == client_message_of(*self),
    {
        let (status, code, message) = self.parts();
        if status == 500 {
            (status, code, "Internal server error")
        } else {
            (status, code, message)
        }
    }

    /// The internal error for a failed database operation:
    /// `"database error: <detail>"`.
    pub fn database(detail: &str) -> (e: AppError)
        ensures
            e matches AppError::Internal(m) && m@ == "database error: "@ + detail@,
    {
        let mut m = String::from_str("database error: ");
        m.append(detail);
        AppError::Internal(m)
    }
}

} // verus!
