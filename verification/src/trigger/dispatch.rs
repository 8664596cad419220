//! The `repository_dispatch` event sent to a target repository.

use vstd::prelude::*;
use vstd::string::*;

use crate::model::{SubscriptionWithBranch, TriggerQueueItem};
use crate::text::int_decimal;

verus! {

/// The `client_payload` of a dispatch: which commit of which branch moved.
#[derive(Debug, Clone, PartialEq, Eq)]
pub struct ClientPayload {
    /// The branch's ID, as decimal text.
    pub branch_id: String,
    /// The new commit hash.
    pub new_commit_hash: String,
    /// The source repository URL.
    pub source_repo: String,
    /// The source branch name.
    pub source_branch: String,
}

/// The body of a `repository_dispatch` request.
#[derive(Debug, Clone, PartialEq, Eq)]
pub struct DispatchPayload {
    /// The subscription's event type.
    pub event_type: String,
    /// The details of the change.
    pub client_payload: ClientPayload,
}

/// The dispatch that tells the subscriber of `sub_with_branch` about the
/// commit queued in `trigger`.
pub fn dispatch_payload(trigger: &TriggerQueueItem, sub_with_branch: &SubscriptionWithBranch) -> (p:
    DispatchPayload)
    ensures
        p.event_type@ == sub_with_branch.subscription.event_type@,
        p.client_payload.branch_id@ == int_decimal(trigger.branch_id as int),
        p.client_payload.new_commit_hash@ == trigger.new_hash@,
        p.client_payload.source_repo@ == sub_with_branch.source_branch.repo_url@,
        p.client_payload.source_branch@ == sub_with_branch.source_branch.name@,
{
    DispatchPayload {
        event_type: String::from_str(sub_with_branch.subscription.event_type.as_str()),
        client_payload: ClientPayload {
            branch_id: crate::external::decimal_string(trigger.branch_id as i128),
            new_commit_hash: String::from_str(trigger.new_hash.as_str()),
            source_repo: String::from_str(sub_with_branch.source_branch.repo_url.as_str()),
            source_branch: String::from_str(sub_with_branch.source_branch.name.as_str()),
        },
    }
}

} // verus!
