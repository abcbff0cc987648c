//! The error taxonomy of the storage layer.
//!
//! Every failure of an explicit caller-invoked operation is propagated as a
//! `StorageError`; nothing is silently swallowed. The backend's own error
//! value is opaque to the verifier, so each variant carries only a
//! diagnostic message taken from it.

use vstd::prelude::*;

verus! {

/// The backend's error type, opaque here; wrappers return it and verified
/// code maps it into `StorageError`.
#[verifier::external_type_specification]
#[verifier::external_body]
pub struct ExRusqliteError(rusqlite::Error);

/// Relies on the `Display` impl of `rusqlite::Error` for a diagnostic
/// message; nothing is assumed of its content.
#[verifier::external_body]
pub(crate) fn describe(e: &rusqlite::Error) -> String {
    format!("{}", e)
}

/// What went wrong, by operation: the location could not be reached, the
/// schema statement was rejected, an insert was rejected, a begin, commit or
/// rollback was rejected, or a read failed.
#[derive(Debug)]
pub enum StorageError {
    ConnectionError(String),
    SchemaError(String),
    ConstraintError(String),
    TransactionError(String),
    QueryError(String),
}

impl StorageError {
    /// The diagnostic message the backend gave for this failure.
    pub fn message(&self) -> (r: &String)
        ensures
            (match self {
                StorageError::ConnectionError(m) => r == m,
                StorageError::SchemaError(m) => r == m,
                StorageError::ConstraintError(m) => r == m,
                StorageError::TransactionError(m) => r == m,
                StorageError::QueryError(m) => r == m,
            }),
    {
        match self {
            StorageError::ConnectionError(m) => m,
            StorageError::SchemaError(m) => m,
            StorageError::ConstraintError(m) => m,
            StorageError::TransactionError(m) => m,
            StorageError::QueryError(m) => m,
        }
    }
}

} // verus!
