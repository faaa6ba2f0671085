//! The error type of the library: the kind decides how a caller reports it,
//! the text says what went wrong.

use vstd::prelude::*;
use crate::text::{id_text, uuid_text};

verus! {

/// Why an operation was refused.
#[derive(Debug)]
pub enum AppError {
    NotFound(String),
    Validation(String),
    Conflict(String),
    Forbidden(String),
    Unauthorized(String),
    Internal(String),
}

/// The kind of an [`AppError`], without its text.
#[derive(Debug, Clone, Copy, PartialEq, Eq, Structural)]
pub enum ErrorKind {
    NotFound,
    Validation,
    Conflict,
    Forbidden,
    Unauthorized,
    Internal,
}

/// The HTTP status that answers an error of kind `k`.
pub open spec fn status_of(k: ErrorKind) -> u16 {
    match k {
        ErrorKind::NotFound => 404,
        ErrorKind::Validation => 400,
        ErrorKind::Conflict => 409,
        ErrorKind::Forbidden => 403,
        ErrorKind::Unauthorized => 401,
        ErrorKind::Internal => 500,
    }
}

impl ErrorKind {
    /// The HTTP status code with which an error of this kind is answered.
    pub fn http_status(&self) -> (s: u16)
        ensures
            s == status_of(*self),
    {
        match self {
            ErrorKind::NotFound => 404,
            ErrorKind::Validation => 400,
            ErrorKind::Conflict => 409,
            ErrorKind::Forbidden => 403,
            ErrorKind::Unauthorized => 401,
            ErrorKind::Internal => 500,
        }
    }
}

impl AppError {
    pub open spec fn kind_of(&self) -> ErrorKind {
        match self {
            AppError::NotFound(_) => ErrorKind::NotFound,
            AppError::Validation(_) => ErrorKind::Validation,
            AppError::Conflict(_) => ErrorKind::Conflict,
            AppError::Forbidden(_) => ErrorKind::Forbidden,
            AppError::Unauthorized(_) => ErrorKind::Unauthorized,
            AppError::Internal(_) => ErrorKind::Internal,
        }
    }

    pub open spec fn text(&self) -> Seq<char> {
        match self {
            AppError::NotFound(m) => m@,
            AppError::Validation(m) => m@,
            AppError::Conflict(m) => m@,
            AppError::Forbidden(m) => m@,
            AppError::Unauthorized(m) => m@,
            AppError::Internal(m) => m@,
        }
    }

    /// Whether this error is of kind `k` and carries the text `t`.
    pub open spec fn is(&self, k: ErrorKind, t: Seq<char>) -> bool {
        self.kind_of() == k && self.text() == t
    }

    /// The kind of this error.
    pub fn kind(&self) -> (k: ErrorKind)
        ensures
            k == self.kind_of(),
    {
        match self {
            AppError::NotFound(_) => ErrorKind::NotFound,
            AppError::Validation(_) => ErrorKind::Validation,
            AppError::Conflict(_) => ErrorKind::Conflict,
            AppError::Forbidden(_) => ErrorKind::Forbidden,
            AppError::Unauthorized(_) => ErrorKind::Unauthorized,
            AppError::Internal(_) => ErrorKind::Internal,
        }
    }

    /// The text of this error.
    pub fn message(&self) -> (m: String)
        ensures
            m@ == self.text(),
    {
        match self {
            AppError::NotFound(m) => m.clone(),
            AppError::Validation(m) => m.clone(),
            AppError::Conflict(m) => m.clone(),
            AppError::Forbidden(m) => m.clone(),
            AppError::Unauthorized(m) => m.clone(),
            AppError::Internal(m) => m.clone(),
        }
    }

    /// An error of kind `k` with the text `t`.
    pub fn new(k: ErrorKind, t: &str) -> (e: AppError)
        ensures
            e.is(k, t@),
    {
        let m = String::from_str(t);
        match k {
            ErrorKind::NotFound => AppError::NotFound(m),
            ErrorKind::Validation => AppError::Validation(m),
            ErrorKind::Conflict => AppError::Conflict(m),
            ErrorKind::Forbidden => AppError::Forbidden(m),
            ErrorKind::Unauthorized => AppError::Unauthorized(m),
            ErrorKind::Internal => AppError::Internal(m),
        }
    }

    /// An error of kind `k` whose text is `t` followed by `u`.
    pub fn joined(k: ErrorKind, t: &str, u: &str) -> (e: AppError)
        ensures
            e.is(k, t@ + u@),
    {
        let m = String::from_str(t).concat(u);
        match k {
            ErrorKind::NotFound => AppError::NotFound(m),
            ErrorKind::Validation => AppError::Validation(m),
            ErrorKind::Conflict => AppError::Conflict(m),
            ErrorKind::Forbidden => AppError::Forbidden(m),
            ErrorKind::Unauthorized => AppError::Unauthorized(m),
            ErrorKind::Internal => AppError::Internal(m),
        }
    }
}

/// Whether a result agrees with an expected outcome: the same value, or an
/// error of the expected kind and text.
pub open spec fn agrees<T>(r: Result<T, AppError>, o: Result<T, (ErrorKind, Seq<char>)>) -> bool {
    match (r, o) {
        (Ok(a), Ok(b)) => a == b,
        (Err(e), Err((k, t))) => e.is(k, t),
        _ => false,
    }
}

/// The text "`what` `<id>` not found".
pub open spec fn not_found_text(what: Seq<char>, id: u128) -> Seq<char> {
    what + " "@ + uuid_text(id) + " not found"@
}

/// A `NotFound` error naming the kind of record and its id.
pub fn not_found(what: &str, id: u128) -> (e: AppError)
    ensures
        e.is(ErrorKind::NotFound, not_found_text(what@, id)),
{
    let idt = id_text(id);
    let mut m = String::from_str(what);
    m.append(" ");
    m.append(idt.as_str());
    m.append(" not found");
    AppError::NotFound(m)
}

} // verus!
