//! Helpers to build GitHub API requests.

use vstd::prelude::*;
use vstd::string::*;

use crate::config::GitHubApiConfig;
use crate::domain::TargetRepo;
use crate::text::{int_decimal, trim_end, trim_end_char, trim_start, trim_start_char};

verus! {

/// The API address of `path`: the base URL without trailing `/`, one `/`,
/// and the path without leading `/`.
pub open spec fn spec_endpoint(base_url: Seq<char>, path: Seq<char>) -> Seq<char> {
    trim_end(base_url, '/') + "/"@ + trim_start(path, '/')
}

/// Returns the full API URL for `path` based on the configured base URL.
///
/// A leading `/` on `path` is optional: exactly one separator is inserted
/// between the base URL and the path.
pub fn endpoint(config: &GitHubApiConfig, path: &str) -> (url: String)
    ensures
        url@ == spec_endpoint(config.base_url@, path@),
{
    let base = trim_end_char(config.base_url.as_str(), '/');
    let rest = trim_start_char(path, '/');
    String::from_str(base).concat("/").concat(rest)
}

/// A leading `/` on the path is optional: with or without it the address
/// is the same.
pub proof fn lemma_leading_slash_optional(base_url: Seq<char>, path: Seq<char>)
    ensures
        spec_endpoint(base_url, seq!['/'] + path) == spec_endpoint(base_url, path),
{
    let p = seq!['/'] + path;
    assert(p.drop_first() =~= path);
}

/// A trailing `/` on the base URL is optional: with or without it the
/// address is the same.
pub proof fn lemma_trailing_slash_optional(base_url: Seq<char>, path: Seq<char>)
    ensures
        spec_endpoint(base_url + seq!['/'], path) == spec_endpoint(base_url, path),
{
    let b = base_url + seq!['/'];
    assert(b.drop_last() =~= base_url);
}

/// Exactly one separator: when neither side carries a slash at the seam,
/// the address is the base, one `/`, and the path.
pub proof fn lemma_single_separator(base_url: Seq<char>, path: Seq<char>)
    requires
        base_url.len() == 0 || base_url.last() != '/',
        path.len() == 0 || path[0] != '/',
    ensures
        spec_endpoint(base_url, path) == base_url + "/"@ + path,
{
}

/// The address that issues an installation access token.
pub open spec fn spec_installation_token_url(base_url: Seq<char>, installation_id: i64) -> Seq<
    char,
> {
    trim_end(base_url, '/') + "/app/installations/"@ + int_decimal(installation_id as int)
        + "/access_tokens"@
}

/// The address that issues an access token for the app installation.
pub fn installation_token_url(config: &GitHubApiConfig, installation_id: i64) -> (url: String)
    ensures
        url@ == spec_installation_token_url(config.base_url@, installation_id),
{
    let base = trim_end_char(config.base_url.as_str(), '/');
    let id = crate::external::decimal_string(installation_id as i128);
    String::from_str(base).concat("/app/installations/").concat(id.as_str()).concat(
        "/access_tokens",
    )
}

/// The address that receives `repository_dispatch` events of a repository.
pub open spec fn spec_dispatch_url(base_url: Seq<char>, target_repo: Seq<char>) -> Seq<char> {
    trim_end(base_url, '/') + "/repos/"@ + target_repo + "/dispatches"@
}

/// The address that receives the `repository_dispatch` events of
/// `target_repo`.
pub fn dispatch_url(config: &GitHubApiConfig, target_repo: &TargetRepo) -> (url: String)
    ensures
        url@ == spec_dispatch_url(config.base_url@, target_repo@),
{
    let base = trim_end_char(config.base_url.as_str(), '/');
    String::from_str(base).concat("/repos/").concat(target_repo.as_str()).concat("/dispatches")
}

/// The token and dispatch addresses are API endpoints: each is the
/// endpoint of its path under the base URL, however the base URL ends.
pub proof fn lemma_api_urls_are_endpoints(
    base_url: Seq<char>,
    installation_id: i64,
    target_repo: Seq<char>,
)
    ensures
        spec_installation_token_url(base_url, installation_id) == spec_endpoint(
            base_url,
            "/app/installations/"@ + int_decimal(installation_id as int) + "/access_tokens"@,
        ),
        spec_dispatch_url(base_url, target_repo) == spec_endpoint(
            base_url,
            "repos/"@ + target_repo + "/dispatches"@,
        ),
{
    reveal_strlit("/");
    reveal_strlit("/app/installations/");
    reveal_strlit("app/installations/");
    reveal_strlit("/access_tokens");
    reveal_strlit("repos/");
    reveal_strlit("/repos/");
    reveal_strlit("/dispatches");
    let digits = int_decimal(installation_id as int);
    let token_path = "/app/installations/"@ + digits + "/access_tokens"@;
    let token_rest = "app/installations/"@ + digits + "/access_tokens"@;
    assert(token_path.drop_first() =~= token_rest);
    assert(trim_start(token_rest, '/') == token_rest);
    assert(trim_start(token_path, '/') == token_rest);
    assert(trim_end(base_url, '/') + "/app/installations/"@ + digits + "/access_tokens"@
        =~= trim_end(base_url, '/') + "/"@ + token_rest);
    let dispatch_path = "repos/"@ + target_repo + "/dispatches"@;
    assert(trim_start(dispatch_path, '/') == dispatch_path);
    assert(trim_end(base_url, '/') + "/repos/"@ + target_repo + "/dispatches"@
        =~= trim_end(base_url, '/') + "/"@ + dispatch_path);
}

/// An HTTP header: its name and value.
#[derive(Debug, Clone, PartialEq, Eq)]
pub struct ApiHeader {
    /// The header's name.
    pub name: String,
    /// The header's value.
    pub value: String,
}

/// The GitHub API `Accept` and `X-GitHub-Api-Version` headers, in that
/// order.
pub fn api_headers(config: &GitHubApiConfig) -> (h: Vec<ApiHeader>)
    ensures
        h@.len() == 2,
        h@[0].name@ == "Accept"@,
        h@[0].value@ == config.accept_header@,
        h@[1].name@ == "X-GitHub-Api-Version"@,
        h@[1].value@ == config.version@,
{
    let mut h: Vec<ApiHeader> = Vec::new();
    h.push(
        ApiHeader {
            name: String::from_str("Accept"),
            value: String::from_str(config.accept_header.as_str()),
        },
    );
    h.push(
        ApiHeader {
            name: String::from_str("X-GitHub-Api-Version"),
            value: String::from_str(config.version.as_str()),
        },
    );
    h
}

/// A successful HTTP status (2xx).
pub open spec fn is_success(status: u16) -> bool {
    200 <= status < 300
}

/// Whether the status of a GitHub API response means success.
pub fn response_succeeded(status: u16) -> (ok: bool)
    ensures
        ok == is_success(status),
{
    200 <= status && status < 300
}

} // verus!
