//! The error type that the library's fallible operations return.

use vstd::prelude::*;

verus! {

/// Why a request could not be served.
#[derive(Debug, Clone, PartialEq, Eq)]
pub enum AppError {
    /// The store refused or lost a record.
    DatabaseError(String),
    /// The requested record does not exist.
    NotFound(String),
    /// A service the site depends on failed or is not configured.
    InternalError(String),
    /// The caller may not do what was asked.
    Unauthorized(String),
}

/// Result of an operation that may fail with an [`AppError`].
pub type AppResult<T> = Result<T, AppError>;

} // verus!
