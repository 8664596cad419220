//! Errors of the polling engine.

use vstd::prelude::*;
use vstd::string::*;

use crate::domain::ValidationError;
use crate::repository::{DatabaseError, DatabaseErrorKind, RepositoryError};

verus! {

/// An error that interrupted a polling loop iteration.
#[derive(Debug, Clone, PartialEq, Eq)]
pub enum PollingError {
    /// Could not read or write the database.
    DatabaseOperation(DatabaseError),
}

/// The message of the database driver's "row not found" error.
pub open spec fn row_not_found_message() -> Seq<char> {
    "no rows returned by a query that expected to return at least one row"@
}

/// The driver's "row not found" error.
fn row_not_found() -> (e: DatabaseError)
    ensures
        e.kind == DatabaseErrorKind::RowNotFound,
        e.message@ == row_not_found_message(),
{
    DatabaseError {
        kind: DatabaseErrorKind::RowNotFound,
        message: String::from_str(
            "no rows returned by a query that expected to return at least one row",
        ),
    }
}

impl PollingError {
    /// A repository error as a polling error: a database failure is kept,
    /// a missing resource or a value that fails validation becomes
    /// "row not found".
    pub fn from_repository(error: RepositoryError) -> (p: PollingError)
        ensures
            match error {
                RepositoryError::Database(d) => p == PollingError::DatabaseOperation(d),
                _ => p->DatabaseOperation_0.kind == DatabaseErrorKind::RowNotFound
                    && p->DatabaseOperation_0.message@ == row_not_found_message(),
            },
    {
        match error {
            RepositoryError::Database(e) => PollingError::DatabaseOperation(e),
            RepositoryError::NotFound => PollingError::DatabaseOperation(row_not_found()),
            RepositoryError::Mapping(_) => PollingError::DatabaseOperation(row_not_found()),
        }
    }

    /// Whether the error is critical: the engine then cools down before the
    /// next cycle. Only a duplicate insertion of a unique value is not.
    pub fn is_critical(&self) -> (c: bool)
        ensures
            c == (self->DatabaseOperation_0.kind != DatabaseErrorKind::UniqueViolation),
    {
        match self {
            PollingError::DatabaseOperation(e) => match e.kind {
                DatabaseErrorKind::UniqueViolation => false,
                _ => true,
            },
        }
    }
}

/// Error in fetching the latest commit hash of a remote branch.
#[derive(Debug, Clone, PartialEq, Eq)]
pub enum CommitHashError {
    /// The fetched hash is not a valid commit hash.
    Validation(ValidationError),
    /// I/O error.
    Io(String),
    /// Unexpected failure while fetching the commit hash.
    UnexpectedStatus(String),
    /// Unexpected output while fetching the commit hash.
    UnexpectedOutput {
        /// The unexpected output text.
        stdout: String,
        /// The relevant git repository URL.
        repo_url: String,
        /// The relevant git branch.
        branch: String,
    },
    /// Failed to find the remote.
    RemoteAt(String),
    /// Failed to connect to the remote.
    Connect(String),
    /// Failed to map references.
    RefMap(String),
    /// Failed to parse the refspec.
    RefSpecParse(String),
    /// Git operation failed.
    Git(String),
}

} // verus!
