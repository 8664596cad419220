//! Errors of the repository.

use vstd::prelude::*;
use vstd::string::*;

verus! {

/// The kind of a database failure, as far as the service tells kinds apart.
#[derive(Debug, Clone, Copy, PartialEq, Eq)]
pub enum DatabaseErrorKind {
    /// A unique constraint was violated.
    UniqueViolation,
    /// Any other error reported by the database.
    OtherDatabase,
    /// An I/O error while talking to the database.
    Io,
    /// A query that expected a row returned none.
    RowNotFound,
    /// Any other failure of the database driver.
    Other,
}

/// A failure of the database: its kind and its message.
#[derive(Debug, Clone, PartialEq, Eq)]
pub struct DatabaseError {
    /// What kind of failure it is.
    pub kind: DatabaseErrorKind,
    /// The driver's message.
    pub message: String,
}

/// An error of a repository operation.
#[derive(Debug, Clone, PartialEq, Eq)]
pub enum RepositoryError {
    /// The resource does not exist.
    NotFound,
    /// The database failed.
    Database(DatabaseError),
    /// A stored value failed validation when read back.
    Mapping(String),
}

impl RepositoryError {
    /// The text the error displays.
    pub fn to_display_string(&self) -> (s: String)
        ensures
            s@ == match self {
                RepositoryError::NotFound => "Resource not found"@,
                RepositoryError::Database(d) => "Database error: "@ + d.message@,
                RepositoryError::Mapping(m) => "Data mapping error: "@ + m@,
            },
    {
        match self {
            RepositoryError::NotFound => String::from_str("Resource not found"),
            RepositoryError::Database(d) => String::from_str("Database error: ").concat(
                d.message.as_str(),
            ),
            RepositoryError::Mapping(m) => String::from_str("Data mapping error: ").concat(
                m.as_str(),
            ),
        }
    }
}

} // verus!
