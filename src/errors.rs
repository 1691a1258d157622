//! The error taxonomy shared by the library.
use vstd::prelude::*;
use crate::text::owned;

verus! {

/// Errors surfaced to callers. Errors of outside services arrive as their
/// message text.
#[derive(Debug)]
pub enum AppError {
    Database(String),
    Migration(String),
    Redis(String),
    Validation(String),
    Unauthorized(String),
    Forbidden(String),
    NotFound(String),
    Conflict(String),
    BadRequest(String),
    RateLimit,
    TooManyRequests { message: String, retry_after: Option<u64> },
    Internal(String),
    ExternalService(String),
}

/// HTTP status, error code and client-facing message of an error. Errors of
/// the store, the database and the server's own faults show a generic
/// message, so that no internal detail reaches the client.
pub open spec fn response_of(e: AppError) -> (u16, Seq<char>, Seq<char>) {
    match e {
        AppError::Database(_) => (500, "DATABASE_ERROR"@, "Internal server error"@),
        AppError::Migration(_) => (500, "MIGRATION_ERROR"@, "Database migration failed"@),
        AppError::Redis(_) => (500, "CACHE_ERROR"@, "Internal server error"@),
        AppError::Validation(m) => (400, "VALIDATION_ERROR"@, m@),
        AppError::Unauthorized(m) => (401, "UNAUTHORIZED"@, m@),
        AppError::Forbidden(m) => (403, "FORBIDDEN"@, m@),
        AppError::NotFound(m) => (404, "NOT_FOUND"@, m@),
        AppError::Conflict(m) => (409, "CONFLICT"@, m@),
        AppError::BadRequest(m) => (400, "BAD_REQUEST"@, m@),
        AppError::RateLimit => (429, "RATE_LIMIT"@, "Too many requests"@),
        AppError::TooManyRequests { message, .. } => (429, "TOO_MANY_REQUESTS"@, message@),
        AppError::Internal(_) => (500, "INTERNAL_ERROR"@, "Internal server error"@),
        AppError::ExternalService(_) => (502, "EXTERNAL_SERVICE_ERROR"@, "External service unavailable"@),
    }
}

impl AppError {
    /// The status, code and message a client receives for this error.
    pub fn response_parts(&self) -> (r: (u16, String, String))
        ensures
            (r.0, r.1@, r.2@) == response_of(*self),
    {
        match self {
            AppError::Database(_) => (500, owned("DATABASE_ERROR"), owned("Internal server error")),
            AppError::Migration(_) => (500, owned("MIGRATION_ERROR"), owned("Database migration failed")),
            AppError::Redis(_) => (500, owned("CACHE_ERROR"), owned("Internal server error")),
            AppError::Validation(m) => (400, owned("VALIDATION_ERROR"), m.clone()),
            AppError::Unauthorized(m) => (401, owned("UNAUTHORIZED"), m.clone()),
            AppError::Forbidden(m) => (403, owned("FORBIDDEN"), m.clone()),
            AppError::NotFound(m) => (404, owned("NOT_FOUND"), m.clone()),
            AppError::Conflict(m) => (409, owned("CONFLICT"), m.clone()),
            AppError::BadRequest(m) => (400, owned("BAD_REQUEST"), m.clone()),
            AppError::RateLimit => (429, owned("RATE_LIMIT"), owned("Too many requests")),
            AppError::TooManyRequests { message, .. } => (429, owned("TOO_MANY_REQUESTS"), message.clone()),
            AppError::Internal(_) => (500, owned("INTERNAL_ERROR"), owned("Internal server error")),
            AppError::ExternalService(_) => (
                502,
                owned("EXTERNAL_SERVICE_ERROR"),
                owned("External service unavailable"),
            ),
        }
    }

    /// The retry hint of a rate-limit error.
    pub fn retry_after(&self) -> (r: Option<u64>)
        ensures
            r == match *self {
                AppError::TooManyRequests { retry_after, .. } => retry_after,
                _ => None,
            },
    {
        match self {
            AppError::TooManyRequests { retry_after, .. } => *retry_after,
            _ => None,
        }
    }
    /// Whether this error stands for rejected credentials or an invalid token.
    pub fn is_unauthorized(&self) -> (r: bool)
        ensures
            r == (self is Unauthorized),
    {
        match self {
            AppError::Unauthorized(_) => true,
            _ => false,
        }
    }

    /// Whether this error stands for a rate limit or a blocked client.
    pub fn is_too_many_requests(&self) -> (r: bool)
        ensures
            r == (self is TooManyRequests),
    {
        match self {
            AppError::TooManyRequests { .. } => true,
            _ => false,
        }
    }
}

} // verus!
