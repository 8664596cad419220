//! Lifecycle of a single queued trigger: what follows a dispatch attempt.

use vstd::prelude::*;

use crate::config::EngineConfig;
use crate::model::TriggerQueueItem;
use crate::repository::trigger::UpdateRetryStatus;
use crate::repository::RepositoryError;

verus! {

/// A failed request to an HTTP API.
#[derive(Debug, Clone, PartialEq, Eq)]
pub enum RequestError {
    /// The server answered with a non-success status.
    Response {
        /// The status code.
        status: u16,
        /// The response body.
        text: String,
    },
    /// The request could not be completed; the text is the client's message.
    Transport(String),
}

/// A failure to obtain an installation access token.
#[derive(Debug, Clone, PartialEq, Eq)]
pub enum AuthError {
    /// The token endpoint refused the request.
    Server(RequestError),
    /// The system clock is before the UNIX epoch.
    Clock(String),
    /// The app's token could not be signed.
    Token(String),
}

/// A failure to trigger a workflow.
#[derive(Debug, Clone, PartialEq, Eq)]
pub enum WorkflowTriggerError {
    /// The repository failed or the subscription is missing.
    Repository(RepositoryError),
    /// No installation access token could be obtained.
    Auth(AuthError),
    /// The dispatch request failed.
    Api(RequestError),
}

/// What becomes of a trigger once a dispatch was attempted.
#[derive(Debug, Clone, Copy, PartialEq, Eq)]
pub enum TriggerFollowUp {
    /// The trigger is done and leaves the queue.
    Delete,
    /// The trigger is scheduled for another attempt (or marked failed).
    ScheduleRetry,
}

/// The follow-up of a dispatch attempt: a delivered dispatch, and one whose
/// subscription no longer exists, remove the trigger; any other failure
/// schedules a retry.
pub fn follow_up(result: &Result<(), WorkflowTriggerError>) -> (f: TriggerFollowUp)
    ensures
        f == (match result {
            Ok(_) => TriggerFollowUp::Delete,
            Err(WorkflowTriggerError::Repository(RepositoryError::NotFound)) => TriggerFollowUp::Delete,
            Err(_) => TriggerFollowUp::ScheduleRetry,
        }),
{
    match result {
        Ok(_) => TriggerFollowUp::Delete,
        Err(WorkflowTriggerError::Repository(RepositoryError::NotFound)) => TriggerFollowUp::Delete,
        Err(_) => TriggerFollowUp::ScheduleRetry,
    }
}

/// The retry parameters of a failed trigger under the engine settings:
/// its ID and count, the maximum number of attempts, and the base backoff
/// in whole seconds.
pub fn retry_request(trigger: &TriggerQueueItem, engine: &EngineConfig) -> (p: UpdateRetryStatus)
    ensures
        p.id == trigger.id,
        p.retry_count == trigger.retry_count,
        p.max_attempts == engine.trigger_retry_max_attempts,
        p.backoff_base_secs == engine.trigger_retry_backoff_base@ / 1_000_000_000,
{
    UpdateRetryStatus {
        id: trigger.id,
        retry_count: trigger.retry_count,
        max_attempts: engine.trigger_retry_max_attempts,
        backoff_base_secs: engine.trigger_retry_backoff_base.as_secs(),
    }
}

} // verus!
