//! Errors as the HTTP layer reports them: each error becomes a status code
//! and a message, sent as `{"error": message}`. Internal failures are
//! reported without their details.
use vstd::prelude::*;
use crate::errors::ServiceError;

verus! {

/// A database failure: a custom refusal with its message, or any other
/// failure with its description.

pub enum DbError {
    Custom(String),
    Other(String),
}

/// An error of the data layer.

pub enum AppError {
    NotFound(String),
    Unauthorized(String),
    Validation(String),
    Ocr(String),
    Db(DbError),
}

/// An error of the HTTP layer.

pub enum ApiError {
    Internal(String),
    NotFound(String),
    BadRequest(String),
    Unauthorized(String),
    App(AppError),
}

/// The message an internal failure is reported with.
pub open spec fn internal_message() -> Seq<char> {
    "An internal error occurred"@
}

/// The status code and message of an error.
pub open spec fn response_of(e: ApiError) -> (u16, Seq<char>) {
    match e {
        ApiError::Internal(m) => (500, m@),
        ApiError::NotFound(m) => (404, m@),
        ApiError::BadRequest(m) => (400, m@),
        ApiError::Unauthorized(m) => (401, m@),
        ApiError::App(a) => match a {
            AppError::NotFound(m) => (404, m@),
            AppError::Unauthorized(m) => (401, m@),
            AppError::Validation(m) => (400, m@),
            AppError::Ocr(m) => (400, m@),
            AppError::Db(_) => (500, internal_message()),
        },
    }
}

impl ApiError {
    /// The status code and message the error is answered with.
    pub fn response_parts(self) -> (r: (u16, String))
        ensures
            (r.0, r.1@) == response_of(self),
    {
        match self {
            ApiError::Internal(m) => (500, m),
            ApiError::NotFound(m) => (404, m),
            ApiError::BadRequest(m) => (400, m),
            ApiError::Unauthorized(m) => (401, m),
            ApiError::App(a) => match a {
                AppError::NotFound(m) => (404, m),
                AppError::Unauthorized(m) => (401, m),
                AppError::Validation(m) => (400, m),
                AppError::Ocr(m) => (400, m),
                AppError::Db(_) => (500, crate::text::owned("An internal error occurred")),
            },
        }
    }

    /// A database failure, as the HTTP layer wraps it.
    pub fn from_db(e: DbError) -> (r: ApiError)
        ensures
            r == ApiError::App(AppError::Db(e)),
    {
        ApiError::App(AppError::Db(e))
    }

    /// A refusal of a service operation, which reaches the HTTP layer as a
    /// custom database error.
    pub fn from_service(e: ServiceError) -> (r: ApiError)
        ensures
            r matches ApiError::App(AppError::Db(DbError::Custom(m))) && m@ == e.text(),
    {
        ApiError::App(AppError::Db(DbError::Custom(crate::text::owned(e.message()))))
    }
}

/// A refusal of a service operation is answered as an internal error: 500,
/// without its message.
pub proof fn law_service_refusals_are_internal(e: ApiError)
    requires
        e matches ApiError::App(AppError::Db(_)),
    ensures
        response_of(e) == (500u16, internal_message()),
{
}

/// Every error is answered with a client error (400, 401, 404) or 500.
pub proof fn law_status_codes(e: ApiError)
    ensures
        response_of(e).0 == 400 || response_of(e).0 == 401 || response_of(e).0 == 404 || response_of(e).0 == 500,
{
}

} // verus!
