//! What the repository decides and builds before it talks to the database:
//! its errors, the mapping of joined rows into validated models, the text of
//! the partial update statement, and the retry schedule of queued triggers.

pub mod error;
pub mod subscription;
pub mod trigger;

pub use error::{DatabaseError, DatabaseErrorKind, RepositoryError};
