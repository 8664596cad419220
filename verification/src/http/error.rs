//! Errors of the HTTP handlers and the status they are answered with.

use vstd::prelude::*;
use vstd::string::*;

use crate::repository::RepositoryError;

verus! {

/// An error happened inside a handler.
#[derive(Debug, Clone, PartialEq, Eq)]
pub enum HandlerError {
    /// Database query execution failure.
    DbQuery(RepositoryError),
    /// Requested resource not found.
    NotFound,
}

impl HandlerError {
    /// A repository error as a handler error: a missing resource stays a
    /// missing resource, anything else is a query failure.
    pub fn from_repository(err: RepositoryError) -> (h: HandlerError)
        ensures
            h == (if err is NotFound {
                HandlerError::NotFound
            } else {
                HandlerError::DbQuery(err)
            }),
    {
        match err {
            RepositoryError::NotFound => HandlerError::NotFound,
            other => HandlerError::DbQuery(other),
        }
    }

    /// The HTTP status of the response: 500 for a query failure, 404 for a
    /// missing resource.
    pub fn status_code(&self) -> (s: u16)
        ensures
            s == (if self is NotFound {
                404u16
            } else {
                500u16
            }),
    {
        match self {
            HandlerError::DbQuery(_) => 500,
            HandlerError::NotFound => 404,
        }
    }

    /// The text of the response body.
    pub fn to_display_string(&self) -> (s: String)
        ensures
            s@ == match self {
                HandlerError::DbQuery(e) => "Repository Error: "@ + match e {
                    RepositoryError::NotFound => "Resource not found"@,
                    RepositoryError::Database(d) => "Database error: "@ + d.message@,
                    RepositoryError::Mapping(m) => "Data mapping error: "@ + m@,
                },
                HandlerError::NotFound => "Not Found"@,
            },
    {
        match self {
            HandlerError::DbQuery(e) => String::from_str("Repository Error: ").concat(
                e.to_display_string().as_str(),
            ),
            HandlerError::NotFound => String::from_str("Not Found"),
        }
    }
}

} // verus!
