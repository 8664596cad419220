use commit_bridge::domain::{EventType, TargetRepo};
use commit_bridge::model::{SubscriptionWithBranch, UpdateSubscription};
use commit_bridge::repository::subscription::{update_statement, SqlValue, SubscriptionWithBranchRow};
use commit_bridge::repository::trigger::{
    retries_exhausted, retry_can_be_scheduled, retry_status, stuck_threshold_modifier, RetryStatus,
    UpdateRetryStatus,
};
use commit_bridge::repository::{DatabaseError, DatabaseErrorKind, RepositoryError};

fn row(id: i64, target_repo: &str, event_type: &str, url: &str, name: &str) -> SubscriptionWithBranchRow {
    SubscriptionWithBranchRow {
        id,
        branch_id: 3,
        target_repo: target_repo.to_string(),
        event_type: event_type.to_string(),
        gh_app_installation_id: 11,
        created_at: "2024-01-01T00:00:00+00:00".to_string(),
        updated_at: "2024-01-02T00:00:00+00:00".to_string(),
        branch_repo_url: url.to_string(),
        branch_name: name.to_string(),
    }
}

#[test]
fn row_maps_to_validated_subscription() {
    let s = SubscriptionWithBranch::from_row(row(
        5,
        "org/target",
        "dispatch",
        "https://github.com/org/repo",
        "main",
    ))
    .unwrap();
    assert_eq!(s.subscription.id, 5);
    assert_eq!(s.subscription.branch_id, 3);
    assert_eq!(s.subscription.target_repo.as_str(), "org/target");
    assert_eq!(s.subscription.event_type.as_str(), "dispatch");
    assert_eq!(s.subscription.gh_app_installation_id, 11);
    assert_eq!(s.subscription.updated_at, "2024-01-02T00:00:00+00:00");
    assert_eq!(s.source_branch.repo_url.as_str(), "https://github.com/org/repo");
    assert_eq!(s.source_branch.name.as_str(), "main");
}

#[test]
fn invalid_stored_value_is_a_mapping_error() {
    let e = SubscriptionWithBranch::from_row(row(
        5,
        "bad",
        "dispatch",
        "https://github.com/org/repo",
        "main",
    ))
    .unwrap_err();
    assert_eq!(
        e,
        RepositoryError::Mapping(
            "Validation error: Target repository must be in owner/repo format: bad".to_string()
        )
    );
    let e = SubscriptionWithBranch::from_row(row(5, "o/r", "d", "https://github.com/x", ""))
        .unwrap_err();
    assert_eq!(
        e,
        RepositoryError::Mapping("Validation error: Branch name cannot be empty".to_string())
    );
}

#[test]
fn rows_map_in_order_and_stop_at_the_first_bad_one() {
    let ok = SubscriptionWithBranch::from_rows(vec![
        row(1, "o/a", "e", "https://github.com/a", "main"),
        row(2, "o/b", "e", "https://github.com/b", "dev"),
    ])
    .unwrap();
    assert_eq!(ok.len(), 2);
    assert_eq!(ok[0].subscription.id, 1);
    assert_eq!(ok[1].source_branch.name.as_str(), "dev");

    let e = SubscriptionWithBranch::from_rows(vec![
        row(1, "o/a", "e", "https://github.com/a", "main"),
        row(2, "o/b", "e", "https://gitlab.com/b", "dev"),
        row(3, "bad", "e", "https://github.com/c", "dev"),
    ])
    .unwrap_err();
    assert_eq!(
        e,
        RepositoryError::Mapping(
            "Validation error: URL must be a github.com URL: https://gitlab.com/b".to_string()
        )
    );
    assert!(SubscriptionWithBranch::from_rows(Vec::new()).unwrap().is_empty());
}

#[test]
fn update_statement_sets_only_given_fields() {
    let payload = UpdateSubscription {
        target_repo: Some(TargetRepo::new("org/new-target".to_string()).unwrap()),
        event_type: None,
        gh_app_installation_id: None,
    };
    let s = update_statement(9, &payload);
    assert_eq!(
        s.sql,
        "UPDATE subscriptions SET target_repo = ?, updated_at = CURRENT_TIMESTAMP WHERE id = ? RETURNING *"
    );
    assert_eq!(
        s.binds,
        vec![SqlValue::Text("org/new-target".to_string()), SqlValue::Integer(9)]
    );

    let payload = UpdateSubscription {
        target_repo: None,
        event_type: Some(EventType::new("e".to_string()).unwrap()),
        gh_app_installation_id: Some(4),
    };
    let s = update_statement(2, &payload);
    assert_eq!(
        s.sql,
        "UPDATE subscriptions SET event_type = ?, gh_app_installation_id = ?, updated_at = CURRENT_TIMESTAMP WHERE id = ? RETURNING *"
    );
    assert_eq!(
        s.binds,
        vec![SqlValue::Text("e".to_string()), SqlValue::Integer(4), SqlValue::Integer(2)]
    );

    let nothing = UpdateSubscription {
        target_repo: None,
        event_type: None,
        gh_app_installation_id: None,
    };
    let s = update_statement(1, &nothing);
    assert_eq!(
        s.sql,
        "UPDATE subscriptions SET updated_at = CURRENT_TIMESTAMP WHERE id = ? RETURNING *"
    );
    assert_eq!(s.binds, vec![SqlValue::Integer(1)]);
}

#[test]
fn first_failure_is_retried_with_the_base_backoff() {
    let s = retry_status(&UpdateRetryStatus {
        id: 1,
        retry_count: 0,
        max_attempts: 3,
        backoff_base_secs: 0,
    });
    assert_eq!(s, RetryStatus::Pending { retry_count: 1, backoff_secs: 0 });
    let s = retry_status(&UpdateRetryStatus {
        id: 1,
        retry_count: 0,
        max_attempts: 3,
        backoff_base_secs: 10,
    });
    assert_eq!(s, RetryStatus::Pending { retry_count: 1, backoff_secs: 10 });
}

#[test]
fn backoff_doubles_until_attempts_run_out() {
    let p = |n| UpdateRetryStatus { id: 1, retry_count: n, max_attempts: 5, backoff_base_secs: 3 };
    assert_eq!(retry_status(&p(1)), RetryStatus::Pending { retry_count: 2, backoff_secs: 6 });
    assert_eq!(retry_status(&p(2)), RetryStatus::Pending { retry_count: 3, backoff_secs: 12 });
    assert_eq!(retry_status(&p(3)), RetryStatus::Pending { retry_count: 4, backoff_secs: 24 });
    assert_eq!(retry_status(&p(4)), RetryStatus::Failed { retry_count: 5 });
    assert_eq!(retry_status(&p(100)), RetryStatus::Failed { retry_count: 101 });
    assert!(retries_exhausted(4, 5));
    assert!(!retries_exhausted(3, 5));
    assert!(retries_exhausted(0, 0));
}

#[test]
fn stuck_threshold_modifier_text() {
    assert_eq!(stuck_threshold_modifier(120), "-120 seconds");
    assert_eq!(stuck_threshold_modifier(0), "-0 seconds");
}

#[test]
fn repository_error_display() {
    assert_eq!(RepositoryError::NotFound.to_display_string(), "Resource not found");
    let e = RepositoryError::Database(DatabaseError {
        kind: DatabaseErrorKind::Other,
        message: "boom".to_string(),
    });
    assert_eq!(e.to_display_string(), "Database error: boom");
}

#[test]
fn retry_schedule_is_defined_where_its_arithmetic_fits() {
    let p = |retry_count: i64, max_attempts: u32, backoff_base_secs: u64| UpdateRetryStatus {
        id: 1,
        retry_count,
        max_attempts,
        backoff_base_secs,
    };
    assert!(retry_can_be_scheduled(&p(0, 3, 10)));
    assert!(retry_can_be_scheduled(&p(63, 100, 1)));
    assert!(!retry_can_be_scheduled(&p(63, 100, 2)));
    assert!(!retry_can_be_scheduled(&p(64, 100, 1)));
    assert!(!retry_can_be_scheduled(&p(-1, 100, 1)));
    assert!(!retry_can_be_scheduled(&p(i64::MAX, 1, 1)));
    // Exhausted attempts need no backoff, however large the base.
    assert!(retry_can_be_scheduled(&p(99, 3, u64::MAX)));
    assert_eq!(retry_status(&p(99, 3, u64::MAX)), RetryStatus::Failed { retry_count: 100 });
}

#[test]
fn every_placeholder_of_an_update_has_a_value() {
    let all = UpdateSubscription {
        target_repo: Some(TargetRepo::new("o/r".to_string()).unwrap()),
        event_type: Some(EventType::new("e".to_string()).unwrap()),
        gh_app_installation_id: Some(7),
    };
    let s = update_statement(3, &all);
    assert_eq!(s.sql.matches('?').count(), s.binds.len());
    assert_eq!(s.binds.len(), 4);
    let none = UpdateSubscription {
        target_repo: None,
        event_type: None,
        gh_app_installation_id: None,
    };
    let s = update_statement(3, &none);
    assert_eq!(s.sql.matches('?').count(), s.binds.len());
}
