use commit_bridge::domain::{BranchName, CommitHash, RepoUrl};
use commit_bridge::model::Branch;
use commit_bridge::polling::branch::{select_updated_branches, BranchInfo};
use commit_bridge::polling::error::{CommitHashError, PollingError};
use commit_bridge::config::Duration;
use commit_bridge::polling::git::{fetch_settings, latest_hash_from_refs, parse_ls_remote, RemoteRef};
use commit_bridge::repository::{DatabaseError, DatabaseErrorKind, RepositoryError};

fn branch(id: i64, last: Option<&str>) -> Branch {
    Branch {
        id,
        repo_url: RepoUrl::new("https://github.com/owner/repo".to_string()).unwrap(),
        name: BranchName::new("main".to_string()).unwrap(),
        last_commit_hash: last.map(|h| CommitHash::new(h.to_string()).unwrap()),
        created_at: "2024-01-01T00:00:00+00:00".to_string(),
        updated_at: "2024-01-01T00:00:00+00:00".to_string(),
    }
}

fn info(id: i64, last: Option<&str>, latest: &str) -> BranchInfo {
    BranchInfo {
        branch: branch(id, last),
        latest_hash: CommitHash::new(latest.to_string()).unwrap(),
    }
}

fn remote(name: &str, target: Option<&str>) -> RemoteRef {
    RemoteRef {
        name: name.to_string(),
        target: target.map(|t| t.to_string()),
    }
}

#[test]
fn branch_moves_when_hash_differs_or_is_unknown() {
    let a = "a".repeat(40);
    let b = "b".repeat(40);
    assert!(info(1, Some(&a), &b).has_updated());
    assert!(!info(1, Some(&a), &a).has_updated());
    assert!(info(1, None, &a).has_updated());
}

#[test]
fn only_moved_branches_are_selected_in_order() {
    let a = "a".repeat(40);
    let b = "b".repeat(40);
    let results = vec![
        Ok(info(1, Some(&a), &b)),
        Err(CommitHashError::Git("Branch not found".to_string())),
        Ok(info(2, Some(&a), &a)),
        Ok(info(3, None, &a)),
    ];
    let selected = select_updated_branches(results);
    let ids: Vec<i64> = selected.iter().map(|i| i.branch.id).collect();
    assert_eq!(ids, vec![1, 3]);
}

#[test]
fn latest_hash_comes_from_the_first_matching_ref() {
    let a = "a".repeat(40);
    let c = "c".repeat(40);
    let refs = vec![
        remote("refs/heads/dev", Some(&a)),
        remote("refs/heads/main", Some(&c)),
        remote("refs/tags/main", Some(&a)),
    ];
    assert_eq!(latest_hash_from_refs(&refs, "main").unwrap().as_str(), c);
    let tags = vec![remote("refs/tags/v1", Some(&a))];
    assert_eq!(latest_hash_from_refs(&tags, "v1").unwrap().as_str(), a);
    let bare = vec![remote("HEAD", Some(&c))];
    assert_eq!(latest_hash_from_refs(&bare, "HEAD").unwrap().as_str(), c);
}

#[test]
fn missing_branch_or_hash_is_a_git_error() {
    let refs = vec![remote("refs/heads/dev", Some(&"a".repeat(40)))];
    assert_eq!(
        latest_hash_from_refs(&refs, "main").unwrap_err(),
        CommitHashError::Git("Branch not found".to_string())
    );
    let refs = vec![remote("refs/heads/main", None)];
    assert_eq!(
        latest_hash_from_refs(&refs, "main").unwrap_err(),
        CommitHashError::Git("Hash not found for branch".to_string())
    );
    let refs = vec![remote("refs/heads/main", Some("xyz"))];
    assert!(matches!(
        latest_hash_from_refs(&refs, "main").unwrap_err(),
        CommitHashError::Validation(_)
    ));
}

#[test]
fn polling_errors_and_their_criticality() {
    let unique = PollingError::from_repository(RepositoryError::Database(DatabaseError {
        kind: DatabaseErrorKind::UniqueViolation,
        message: "dup".to_string(),
    }));
    assert!(!unique.is_critical());
    let io = PollingError::from_repository(RepositoryError::Database(DatabaseError {
        kind: DatabaseErrorKind::Io,
        message: "io".to_string(),
    }));
    assert!(io.is_critical());
    let missing = PollingError::from_repository(RepositoryError::NotFound);
    let PollingError::DatabaseOperation(e) = &missing;
    assert_eq!(e.kind, DatabaseErrorKind::RowNotFound);
    assert!(missing.is_critical());
    let mapping = PollingError::from_repository(RepositoryError::Mapping("m".to_string()));
    assert_eq!(mapping, missing);
}

#[test]
fn fetch_settings_use_whole_seconds_of_at_least_one() {
    let v = fetch_settings(&Duration::from_millis(30_900));
    assert_eq!(v.len(), 3);
    assert_eq!((v[0].key.as_str(), v[0].value.as_str()), ("http.lowSpeedLimit", "1"));
    assert_eq!((v[1].key.as_str(), v[1].value.as_str()), ("http.lowSpeedTime", "30"));
    assert_eq!((v[2].key.as_str(), v[2].value.as_str()), ("http.connectTimeout", "30"));
    let v = fetch_settings(&Duration::from_millis(400));
    assert_eq!(v[1].value, "1");
    assert_eq!(v[2].value, "1");
}

#[test]
fn a_recorded_hash_is_not_polled_again() {
    let hash = "b".repeat(40);
    let first = select_updated_branches(vec![Ok(info(1, Some(&"a".repeat(40)), &hash))]);
    assert_eq!(first.len(), 1);
    // The poll records the latest hash; the same remote hash is no update.
    let recorded = info(1, Some(&hash), &hash);
    assert!(!recorded.has_updated());
    assert!(select_updated_branches(vec![Ok(recorded)]).is_empty());
}

#[test]
fn ls_remote_lines_become_references() {
    let a = "a".repeat(40);
    let b = "b".repeat(40);
    let text = format!("{a}\trefs/heads/main\r\nnot a reference\n{b}\trefs/tags/main\n");
    let refs = parse_ls_remote(&text);
    assert_eq!(
        refs,
        vec![remote("refs/heads/main", Some(&a)), remote("refs/tags/main", Some(&b))]
    );
    assert_eq!(
        latest_hash_from_refs(&refs, "main").unwrap().as_str(),
        a.as_str()
    );
    assert!(parse_ls_remote("").is_empty());
    assert_eq!(parse_ls_remote("x\ty\tz"), vec![remote("y\tz", Some("x"))]);
}
