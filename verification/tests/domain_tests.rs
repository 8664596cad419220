use commit_bridge::domain::{
    AcceptHeader, ApiVersion, BranchName, CommitHash, EventType, NonEmptyString, RepoUrl,
    TargetRepo, ValidationError,
};
use commit_bridge::domain::api_version::api_version_verdict;
use commit_bridge::domain::repo_url::repo_url_verdict;

fn message(e: ValidationError) -> String {
    match e {
        ValidationError::InvalidValue(m) => m,
    }
}

#[test]
fn accept_header_accepts_visible_text() {
    let h = AcceptHeader::new("application/vnd.github+json".to_string()).unwrap();
    assert_eq!(h.as_str(), "application/vnd.github+json");
    assert_eq!(h.into_inner(), "application/vnd.github+json");
    assert!(AcceptHeader::new("tab\tand é".to_string()).is_ok());
}

#[test]
fn accept_header_refuses_control_bytes() {
    let e = AcceptHeader::new("bad\nvalue".to_string()).unwrap_err();
    assert_eq!(message(e), "Invalid Accept header format: bad\nvalue");
    assert!(AcceptHeader::new("del\u{7f}".to_string()).is_err());
}

#[test]
fn api_version_is_a_calendar_date() {
    assert_eq!(
        ApiVersion::new("2026-03-10".to_string()).unwrap().into_inner(),
        "2026-03-10"
    );
    let e = ApiVersion::new("2026-02-30".to_string()).unwrap_err();
    assert_eq!(
        message(e),
        "Invalid API version format (expected YYYY-MM-DD): 2026-02-30"
    );
    assert!(ApiVersion::new("March 10".to_string()).is_err());
}

#[test]
fn branch_name_must_not_be_empty() {
    assert_eq!(BranchName::new("main".to_string()).unwrap().as_str(), "main");
    let e = BranchName::new(String::new()).unwrap_err();
    assert_eq!(message(e), "Branch name cannot be empty");
}

#[test]
fn commit_hash_lengths() {
    assert!(CommitHash::new("a".repeat(40)).is_ok());
    assert!(CommitHash::new("0123456789abcdefABCDEF".repeat(2) + &"0".repeat(20)).is_ok());
    assert!(CommitHash::new("f".repeat(64)).is_ok());
    let e = CommitHash::new("a".repeat(41)).unwrap_err();
    assert_eq!(
        message(e),
        "Commit hash must be 40 or 64 characters long. Got: 41"
    );
    let e = CommitHash::new(String::new()).unwrap_err();
    assert_eq!(
        message(e),
        "Commit hash must be 40 or 64 characters long. Got: 0"
    );
}

#[test]
fn commit_hash_must_be_hexadecimal() {
    let text = "g".repeat(40);
    let e = CommitHash::new(text.clone()).unwrap_err();
    assert_eq!(
        message(e),
        format!("Commit hash must be a hexadecimal string. Got: {}", text)
    );
    // 20 two-byte characters are 40 bytes but not hexadecimal
    let wide = "é".repeat(20);
    assert!(CommitHash::new(wide).unwrap_err() == ValidationError::InvalidValue(format!(
        "Commit hash must be a hexadecimal string. Got: {}",
        "é".repeat(20)
    )));
}

#[test]
fn commit_hash_round_trip() {
    let h = CommitHash::new("1234567890abcdef1234567890abcdef12345678".to_string()).unwrap();
    assert_eq!(h.as_str(), "1234567890abcdef1234567890abcdef12345678");
    assert_eq!(h.clone(), h);
}

#[test]
fn event_type_at_most_100_characters() {
    assert!(EventType::new("x".repeat(100)).is_ok());
    assert!(EventType::new("é".repeat(100)).is_ok());
    let e = EventType::new("x".repeat(101)).unwrap_err();
    assert_eq!(
        message(e),
        "Event type must be at most 100 characters long. Got: 101"
    );
    // the message counts bytes
    let e = EventType::new("é".repeat(101)).unwrap_err();
    assert_eq!(
        message(e),
        "Event type must be at most 100 characters long. Got: 202"
    );
}

#[test]
fn non_empty_string_rule() {
    assert_eq!(
        NonEmptyString::new("secret".to_string()).unwrap().as_str(),
        "secret"
    );
    let e = NonEmptyString::new(String::new()).unwrap_err();
    assert_eq!(message(e), "String must not be empty: ");
}

#[test]
fn repo_url_must_be_a_github_url() {
    assert_eq!(
        RepoUrl::new("https://github.com/org/repo".to_string())
            .unwrap()
            .into_inner(),
        "https://github.com/org/repo"
    );
    let e = RepoUrl::new("not a url".to_string()).unwrap_err();
    assert_eq!(message(e), "Invalid URL format: not a url");
    let e = RepoUrl::new("https://gitlab.com/org/repo".to_string()).unwrap_err();
    assert_eq!(
        message(e),
        "URL must be a github.com URL: https://gitlab.com/org/repo"
    );
}

#[test]
fn target_repo_owner_slash_repo() {
    assert_eq!(
        TargetRepo::new("org/target".to_string()).unwrap().into_inner(),
        "org/target"
    );
    for bad in ["org", "/repo", "org/", "a/b/c", "", "/"] {
        let e = TargetRepo::new(bad.to_string()).unwrap_err();
        assert_eq!(
            message(e),
            format!("Target repository must be in owner/repo format: {}", bad)
        );
    }
}

#[test]
fn validation_error_display() {
    let e = ValidationError::InvalidValue("x".to_string());
    assert_eq!(e.to_display_string(), "Validation error: x");
}

#[test]
fn api_version_verdict_follows_the_date_parse() {
    assert_eq!(api_version_verdict("2026-03-10", true), Ok(()));
    let e = api_version_verdict("2026-13-10", false).unwrap_err();
    assert_eq!(
        e.to_display_string(),
        "Validation error: Invalid API version format (expected YYYY-MM-DD): 2026-13-10"
    );
}

#[test]
fn repo_url_verdict_needs_a_url_on_github() {
    assert_eq!(repo_url_verdict("https://github.com/org/repo", true), Ok(()));
    let e = repo_url_verdict("https://gitlab.com/org/repo", true).unwrap_err();
    assert_eq!(
        e.to_display_string(),
        "Validation error: URL must be a github.com URL: https://gitlab.com/org/repo"
    );
    let e = repo_url_verdict("github.com", false).unwrap_err();
    assert_eq!(e.to_display_string(), "Validation error: Invalid URL format: github.com");
}

#[test]
fn commit_hash_compares_with_text_and_converts_back() {
    let s = "a".repeat(40);
    let h = CommitHash::new(s.clone()).unwrap();
    assert_eq!(h.clone().into_inner(), s);
    assert_eq!(h.as_str(), s);
    assert!(h == *s.as_str());
    assert!(h == s);
    assert!(h != *"b".repeat(40).as_str());
    assert!(h == h.clone());
    assert_eq!(String::from(h), s);
}

#[test]
fn target_repo_converts_and_displays_its_text() {
    let t = TargetRepo::new("org/repo".to_string()).unwrap();
    assert_eq!(t.clone().into_inner(), "org/repo");
    assert_eq!(String::from(t.clone()), "org/repo");
    assert_eq!(t.to_display_string(), "org/repo");
}

#[test]
fn non_empty_string_compares_with_text() {
    let n = NonEmptyString::new("secret".to_string()).unwrap();
    assert_eq!(n.as_str(), "secret");
    assert!(!n.as_str().is_empty());
    assert!(n == *"secret");
    assert!(n == "secret".to_string());
    assert!(n != *"other");
    assert_eq!(AsRef::<str>::as_ref(&n), n.as_str());
    assert!(n == n.clone());
}
