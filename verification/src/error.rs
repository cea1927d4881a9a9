//! Errors that the server's operations answer with.
use vstd::prelude::*;

verus! {

/// An error of a request, with the message the client sees.
#[derive(Debug)]
pub enum AppError {
    /// The data store failed.
    Database(String),
    NotFound(String),
    BadRequest(String),
    Validation(String),
    Forbidden(String),
    Unauthorized(String),
    Conflict(String),
    Internal(String),
}

/// The kind of an error, without its message.
#[derive(Clone, Copy, Debug, PartialEq, Eq, Structural)]
pub enum ErrorKind {
    Database,
    NotFound,
    BadRequest,
    Validation,
    Forbidden,
    Unauthorized,
    Conflict,
    Internal,
}

impl AppError {
    /// The kind of this error.
    pub open spec fn kind(self) -> ErrorKind {
        match self {
            AppError::Database(_) => ErrorKind::Database,
            AppError::NotFound(_) => ErrorKind::NotFound,
            AppError::BadRequest(_) => ErrorKind::BadRequest,
            AppError::Validation(_) => ErrorKind::Validation,
            AppError::Forbidden(_) => ErrorKind::Forbidden,
            AppError::Unauthorized(_) => ErrorKind::Unauthorized,
            AppError::Conflict(_) => ErrorKind::Conflict,
            AppError::Internal(_) => ErrorKind::Internal,
        }
    }

    /// The message of this error.
    pub open spec fn message(self) -> Seq<char> {
        match self {
            AppError::Database(m) => m@,
            AppError::NotFound(m) => m@,
            AppError::BadRequest(m) => m@,
            AppError::Validation(m) => m@,
            AppError::Forbidden(m) => m@,
            AppError::Unauthorized(m) => m@,
            AppError::Conflict(m) => m@,
            AppError::Internal(m) => m@,
        }
    }

    /// This error has the given kind and message.
    pub open spec fn is(self, k: ErrorKind, m: Seq<char>) -> bool {
        self.kind() == k && self.message() == m
    }
}

/// An error of the given kind whose message is the literal `m`.
pub fn err(k: ErrorKind, m: &str) -> (e: AppError)
    ensures
        e.is(k, m@),
{
    let s = String::from_str(m);
    match k {
        ErrorKind::Database => AppError::Database(s),
        ErrorKind::NotFound => AppError::NotFound(s),
        ErrorKind::BadRequest => AppError::BadRequest(s),
        ErrorKind::Validation => AppError::Validation(s),
        ErrorKind::Forbidden => AppError::Forbidden(s),
        ErrorKind::Unauthorized => AppError::Unauthorized(s),
        ErrorKind::Conflict => AppError::Conflict(s),
        ErrorKind::Internal => AppError::Internal(s),
    }
}

} // verus!
