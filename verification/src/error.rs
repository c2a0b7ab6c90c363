//! The application error and the HTTP status each kind of error answers with.
use vstd::prelude::*;

verus! {

/// Errors of the service layer. Each carries the message shown to the client.
#[derive(Debug)]
pub enum AppError {
    BadRequest(String),
    Unauthorized(String),
    Conflict(String),
    NotFound(String),
    Internal(String),
}

/// The kind of an [`AppError`].
pub enum ErrorKind {
    BadRequest,
    Unauthorized,
    Conflict,
    NotFound,
    Internal,
}

/// Mathematical form of an [`AppError`]: its kind and message.
pub open spec fn error_view(e: AppError) -> (ErrorKind, Seq<char>) {
    match e {
        AppError::BadRequest(m) => (ErrorKind::BadRequest, m@),
        AppError::Unauthorized(m) => (ErrorKind::Unauthorized, m@),
        AppError::Conflict(m) => (ErrorKind::Conflict, m@),
        AppError::NotFound(m) => (ErrorKind::NotFound, m@),
        AppError::Internal(m) => (ErrorKind::Internal, m@),
    }
}

impl AppError {
    /// The HTTP status code the error is answered with.
    pub fn status(&self) -> (code: u16)
        ensures
            code == match self {
                AppError::BadRequest(_) => 400u16,
                AppError::Unauthorized(_) => 401u16,
                AppError::Conflict(_) => 409u16,
                AppError::NotFound(_) => 404u16,
                AppError::Internal(_) => 500u16,
            },
    {
        match self {
            AppError::BadRequest(_) => 400,
            AppError::Unauthorized(_) => 401,
            AppError::Conflict(_) => 409,
            AppError::NotFound(_) => 404,
            AppError::Internal(_) => 500,
        }
    }

    /// The message carried by the error.
    pub fn message(&self) -> (m: &String)
        ensures
            m == match self {
                AppError::BadRequest(s) => s,
                AppError::Unauthorized(s) => s,
                AppError::Conflict(s) => s,
                AppError::NotFound(s) => s,
                AppError::Internal(s) => s,
            },
    {
        match self {
            AppError::BadRequest(s) => s,
            AppError::Unauthorized(s) => s,
            AppError::Conflict(s) => s,
            AppError::NotFound(s) => s,
            AppError::Internal(s) => s,
        }
    }
}

} // verus!
