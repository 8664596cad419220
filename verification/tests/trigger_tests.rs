use commit_bridge::config::{AuthConfig, Duration, EngineConfig};
use commit_bridge::domain::{BranchName, CommitHash, EventType, NonEmptyString, RepoUrl, TargetRepo};
use commit_bridge::model::{SourceBranchInfo, Subscription, SubscriptionWithBranch, TriggerQueueItem};
use commit_bridge::repository::RepositoryError;
use commit_bridge::repository::trigger::{retry_status, RetryStatus};
use commit_bridge::trigger::auth::{claims_can_be_issued, github_claims};
use commit_bridge::trigger::dispatch::dispatch_payload;
use commit_bridge::trigger::process::{
    follow_up, retry_request, RequestError, TriggerFollowUp, WorkflowTriggerError,
};

fn trigger(retry_count: i64) -> TriggerQueueItem {
    TriggerQueueItem {
        id: 4,
        branch_id: 12,
        new_hash: CommitHash::new("a".repeat(40)).unwrap(),
        target_repo: TargetRepo::new("org/repo".to_string()).unwrap(),
        event_type: EventType::new("event".to_string()).unwrap(),
        gh_app_installation_id: 1,
        retry_count,
        span_context: None,
    }
}

#[test]
fn dispatch_payload_describes_the_commit() {
    let swb = SubscriptionWithBranch {
        subscription: Subscription {
            id: 1,
            branch_id: 12,
            target_repo: TargetRepo::new("org/repo".to_string()).unwrap(),
            event_type: EventType::new("event".to_string()).unwrap(),
            gh_app_installation_id: 1,
            created_at: String::new(),
            updated_at: String::new(),
        },
        source_branch: SourceBranchInfo {
            repo_url: RepoUrl::new("https://github.com/src/repo".to_string()).unwrap(),
            name: BranchName::new("main".to_string()).unwrap(),
        },
    };
    let p = dispatch_payload(&trigger(0), &swb);
    assert_eq!(p.event_type, "event");
    assert_eq!(p.client_payload.branch_id, "12");
    assert_eq!(p.client_payload.new_commit_hash, "a".repeat(40));
    assert_eq!(p.client_payload.source_repo, "https://github.com/src/repo");
    assert_eq!(p.client_payload.source_branch, "main");
}

#[test]
fn follow_up_of_a_dispatch() {
    assert_eq!(follow_up(&Ok(())), TriggerFollowUp::Delete);
    assert_eq!(
        follow_up(&Err(WorkflowTriggerError::Repository(RepositoryError::NotFound))),
        TriggerFollowUp::Delete
    );
    assert_eq!(
        follow_up(&Err(WorkflowTriggerError::Api(RequestError::Response {
            status: 500,
            text: "error".to_string(),
        }))),
        TriggerFollowUp::ScheduleRetry
    );
    assert_eq!(
        follow_up(&Err(WorkflowTriggerError::Repository(RepositoryError::Mapping(
            "m".to_string()
        )))),
        TriggerFollowUp::ScheduleRetry
    );
}

#[test]
fn retry_request_uses_whole_seconds_of_the_backoff() {
    let engine = EngineConfig {
        polling_sleep: Duration::from_secs(1),
        trigger_queue_polling_interval: Duration::from_millis(100),
        trigger_retry_max_attempts: 3,
        trigger_retry_backoff_base: Duration::from_millis(2500),
        stuck_task_threshold: Duration::from_secs(120),
    };
    let p = retry_request(&trigger(2), &engine);
    assert_eq!((p.id, p.retry_count, p.max_attempts, p.backoff_base_secs), (4, 2, 3, 2));
}

#[test]
fn token_claims_are_backdated_and_expire() {
    let auth = AuthConfig {
        clock_drift_buffer: Duration::from_secs(60),
        token_validity: Duration::from_secs(600),
        api_key: None,
        allow_unauthenticated: false,
        client_id: NonEmptyString::new("client".to_string()).unwrap(),
        pem_path: String::new(),
    };
    let c = github_claims(1_000_000, &auth);
    assert_eq!(c.iat, 999_940);
    assert_eq!(c.exp, 1_000_600);
    assert_eq!(c.iss, "client");
}

#[test]
fn claims_can_be_issued_only_when_the_lifetime_fits_the_clock() {
    let auth = AuthConfig {
        clock_drift_buffer: Duration::from_secs(60),
        token_validity: Duration::from_millis(600_500),
        api_key: None,
        allow_unauthenticated: false,
        client_id: NonEmptyString::new("client".to_string()).unwrap(),
        pem_path: String::new(),
    };
    assert!(claims_can_be_issued(60, &auth));
    assert!(!claims_can_be_issued(59, &auth));
    assert!(claims_can_be_issued(u64::MAX - 600, &auth));
    assert!(!claims_can_be_issued(u64::MAX - 599, &auth));
}

#[test]
fn failed_dispatch_is_pending_again_with_one_more_attempt() {
    let engine = EngineConfig {
        polling_sleep: Duration::from_secs(1),
        trigger_queue_polling_interval: Duration::from_millis(100),
        trigger_retry_max_attempts: 3,
        trigger_retry_backoff_base: Duration::from_secs(10),
        stuck_task_threshold: Duration::from_secs(120),
    };
    let failed = Err(WorkflowTriggerError::Api(RequestError::Response {
        status: 500,
        text: "error".to_string(),
    }));
    assert_eq!(follow_up(&failed), TriggerFollowUp::ScheduleRetry);
    let params = retry_request(&trigger(0), &engine);
    assert_eq!(
        retry_status(&params),
        RetryStatus::Pending { retry_count: 1, backoff_secs: 10 }
    );
}
