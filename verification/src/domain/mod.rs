//! Validated values of the service's domain: each type can only hold text
//! that passed its rule.

pub mod accept_header;
pub mod api_version;
pub mod branch_name;
pub mod commit_hash;
pub mod event_type;
pub mod non_empty_string;
pub mod repo_url;
pub mod target_repo;
pub mod validation_error;

pub use accept_header::AcceptHeader;
pub use api_version::ApiVersion;
pub use branch_name::BranchName;
pub use commit_hash::CommitHash;
pub use event_type::EventType;
pub use non_empty_string::NonEmptyString;
pub use repo_url::RepoUrl;
pub use target_repo::TargetRepo;
pub use validation_error::ValidationError;
