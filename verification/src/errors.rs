//! The failures an operation on the store can end in, and how each is
//! reported to a caller over HTTP.

use vstd::prelude::*;

verus! {

/// What an [`AppError`] is, with the validation message as a sequence of
/// characters.
pub enum ErrorKind {
    NotFound,
    Validation(Seq<char>),
    Internal,
}

/// A failed operation. Every kind is final for the request that met it.
#[derive(Debug)]
pub enum AppError {
    /// No record has the id that was asked for.
    NotFound,
    /// The input broke a rule; the text says which one.
    Validation(String),
    /// The backend failed in a way the caller cannot mend.
    Internal,
}

impl View for AppError {
    type V = ErrorKind;

    open spec fn view(&self) -> ErrorKind {
        match self {
            AppError::NotFound => ErrorKind::NotFound,
            AppError::Validation(m) => ErrorKind::Validation(m@),
            AppError::Internal => ErrorKind::Internal,
        }
    }
}

/// The HTTP status that reports a failure of the given kind.
pub open spec fn status_of(kind: ErrorKind) -> u16 {
    match kind {
        ErrorKind::NotFound => 404,
        ErrorKind::Validation(_) => 400,
        ErrorKind::Internal => 500,
    }
}

/// The text placed in the `error` field of the response body: the
/// validation message as it was produced, and a fixed text for the other
/// kinds, so that nothing of the backend leaks.
pub open spec fn message_of(kind: ErrorKind) -> Seq<char> {
    match kind {
        ErrorKind::NotFound => "not found"@,
        ErrorKind::Validation(m) => m,
        ErrorKind::Internal => "internal error"@,
    }
}

impl AppError {
    /// The HTTP status for this error: 404, 400 or 500.
    pub fn status_code(&self) -> (code: u16)
        ensures
            code == status_of(self@),
    {
        match self {
            AppError::NotFound => 404,
            AppError::Validation(_) => 400,
            AppError::Internal => 500,
        }
    }

    /// The message for the response body.
    pub fn message(&self) -> (text: String)
        ensures
            text@ == message_of(self@),
    {
        match self {
            AppError::NotFound => "not found".to_string(),
            AppError::Validation(m) => m.clone(),
            AppError::Internal => "internal error".to_string(),
        }
    }
}

} // verus!
