//! Data structures representing items stored in the database.
//!
//! The `Create*` structs represent the payload to create the corresponding
//! row. Timestamps are kept as the RFC 3339 text of a UTC instant.

use vstd::prelude::*;

use crate::domain::{BranchName, CommitHash, EventType, RepoUrl, TargetRepo};

verus! {

/// Represents a row in the `branches` table.
#[derive(Debug, Clone)]
pub struct Branch {
    /// Unique database primary key.
    pub id: i64,
    /// Full HTTPS URL of the monitored git repository.
    pub repo_url: RepoUrl,
    /// Name of the git branch to poll.
    pub name: BranchName,
    /// SHA of the latest commit polled; `None` if the branch has not been
    /// processed.
    pub last_commit_hash: Option<CommitHash>,
    /// Timestamp when the record was created.
    pub created_at: String,
    /// Timestamp when the record was updated.
    pub updated_at: String,
}

/// Represents a row in the `subscriptions` table.
#[derive(Debug, Clone)]
pub struct Subscription {
    /// Unique database primary key.
    pub id: i64,
    /// Foreign key to [`Branch::id`].
    pub branch_id: i64,
    /// The repository whose workflow needs to be triggered.
    pub target_repo: TargetRepo,
    /// Identifies the specific `repository_dispatch` event (at most 100
    /// characters).
    pub event_type: EventType,
    /// Allows authenticating as a GitHub App installation.
    pub gh_app_installation_id: i64,
    /// Timestamp when the record was created.
    pub created_at: String,
    /// Timestamp when the record was updated.
    pub updated_at: String,
}

/// Represents branch information for a subscription.
#[derive(Debug, Clone)]
pub struct SourceBranchInfo {
    /// Full HTTPS URL of the monitored git repository.
    pub repo_url: RepoUrl,
    /// Name of the git branch to poll.
    pub name: BranchName,
}

/// Combined subscription and branch information.
#[derive(Debug, Clone)]
pub struct SubscriptionWithBranch {
    /// The subscription data.
    pub subscription: Subscription,
    /// The source branch info.
    pub source_branch: SourceBranchInfo,
}

/// Holds payload data for the creation of a [`Subscription`].
#[derive(Debug, Clone)]
pub struct CreateSubscription {
    /// Full HTTPS URL of the monitored git repository.
    pub source_repo_url: RepoUrl,
    /// Name of the git branch to poll.
    pub source_branch_name: BranchName,
    /// The repository whose workflow needs to be triggered.
    pub target_repo: TargetRepo,
    /// The `repository_dispatch` event type (at most 100 characters).
    pub event_type: EventType,
    /// The GitHub App installation used to authenticate the dispatch.
    pub gh_app_installation_id: i64,
}

/// Holds payload data for the update of a [`Subscription`].
#[derive(Debug, Clone)]
pub struct UpdateSubscription {
    /// The repository whose workflow needs to be triggered.
    pub target_repo: Option<TargetRepo>,
    /// The `repository_dispatch` event type (at most 100 characters).
    pub event_type: Option<EventType>,
    /// The GitHub App installation used to authenticate the dispatch.
    pub gh_app_installation_id: Option<i64>,
}

/// Represents a row in the `trigger_queue` table.
#[derive(Debug, Clone)]
pub struct TriggerQueueItem {
    /// Unique database primary key.
    pub id: i64,
    /// Foreign key to [`Branch::id`].
    pub branch_id: i64,
    /// The hash of the latest commit on the branch.
    pub new_hash: CommitHash,
    /// The repository whose workflow needs to be triggered.
    pub target_repo: TargetRepo,
    /// The `repository_dispatch` event type (at most 100 characters).
    pub event_type: EventType,
    /// The GitHub App installation used to authenticate the dispatch.
    pub gh_app_installation_id: i64,
    /// Number of times the task has been attempted.
    pub retry_count: i64,
    /// Serialized OpenTelemetry span context.
    pub span_context: Option<String>,
}

} // verus!
