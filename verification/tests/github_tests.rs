use commit_bridge::config::GitHubApiConfig;
use commit_bridge::domain::{AcceptHeader, ApiVersion, TargetRepo};
use commit_bridge::trigger::github::{
    api_headers, dispatch_url, endpoint, installation_token_url, response_succeeded,
};
use url::Url;

fn test_config() -> GitHubApiConfig {
    GitHubApiConfig {
        base_url: Url::parse("https://api.github.com").unwrap().as_str().to_string(),
        version: ApiVersion::new("2026-03-10".to_string()).unwrap(),
        accept_header: AcceptHeader::new("application/vnd.github+json".to_string()).unwrap(),
    }
}

#[test]
fn endpoint_without_trailing_slash() {
    let config = GitHubApiConfig {
        base_url: Url::parse("https://api.github.com/api/v3").unwrap().as_str().to_string(),
        ..test_config()
    };
    assert_eq!(
        endpoint(&config, "/repos/org/repo/dispatches"),
        "https://api.github.com/api/v3/repos/org/repo/dispatches"
    );
}

#[test]
fn endpoint_with_trailing_slash() {
    let config = GitHubApiConfig {
        base_url: Url::parse("https://api.github.com/").unwrap().as_str().to_string(),
        ..test_config()
    };
    assert_eq!(
        endpoint(&config, "/app/installations/1/access_tokens"),
        "https://api.github.com/app/installations/1/access_tokens"
    );
}

#[test]
fn endpoint_without_leading_slash() {
    let config = test_config();
    assert_eq!(
        endpoint(&config, "repos/org/repo/dispatches"),
        "https://api.github.com/repos/org/repo/dispatches"
    );
}

#[test]
fn apply_api_headers_sets_expected_headers() {
    let config = test_config();
    let headers = api_headers(&config);
    let accept = headers.iter().find(|h| h.name == "Accept").unwrap();
    assert_eq!(accept.value, "application/vnd.github+json");
    let version = headers
        .iter()
        .find(|h| h.name == "X-GitHub-Api-Version")
        .unwrap();
    assert_eq!(version.value, "2026-03-10");
}

#[test]
fn endpoint_collapses_repeated_slashes() {
    let config = GitHubApiConfig {
        base_url: "https://example.com/api//".to_string(),
        ..test_config()
    };
    assert_eq!(endpoint(&config, "//x"), "https://example.com/api/x");
    assert_eq!(endpoint(&config, ""), "https://example.com/api/");
}

#[test]
fn installation_token_url_names_the_installation() {
    let config = test_config();
    assert_eq!(
        installation_token_url(&config, 42),
        "https://api.github.com/app/installations/42/access_tokens"
    );
    assert_eq!(
        installation_token_url(&config, -7),
        "https://api.github.com/app/installations/-7/access_tokens"
    );
}

#[test]
fn dispatch_url_names_the_repository() {
    let config = test_config();
    let repo = TargetRepo::new("org/target".to_string()).unwrap();
    assert_eq!(
        dispatch_url(&config, &repo),
        "https://api.github.com/repos/org/target/dispatches"
    );
}

#[test]
fn only_2xx_is_success() {
    assert!(!response_succeeded(199));
    assert!(response_succeeded(200));
    assert!(response_succeeded(204));
    assert!(!response_succeeded(300));
    assert!(!response_succeeded(500));
}

#[test]
fn api_urls_are_endpoints_of_their_paths() {
    for base in ["https://ghe.example.com/api/v3", "https://ghe.example.com/api/v3//"] {
        let config = GitHubApiConfig {
            base_url: base.to_string(),
            ..test_config()
        };
        assert_eq!(
            installation_token_url(&config, 5),
            endpoint(&config, "/app/installations/5/access_tokens")
        );
        let repo = TargetRepo::new("org/target".to_string()).unwrap();
        assert_eq!(
            dispatch_url(&config, &repo),
            endpoint(&config, "repos/org/target/dispatches")
        );
    }
}
