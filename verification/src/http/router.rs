//! Request authorization, cache headers and trace marking.

use vstd::prelude::*;

use crate::domain::NonEmptyString;
use crate::external::constant_time_str_eq;
use crate::text::{is_prefix, starts_with};

verus! {

/// The path prefix of the subscription API.
pub open spec fn protected_path(path: Seq<char>) -> bool {
    is_prefix("/subscriptions"@, path)
}

/// Whether the provided key matches the expected one; there is no match
/// when either is missing. The comparison takes time independent of the
/// content of keys of equal length.
pub fn verify_api_key(expected: Option<&NonEmptyString>, provided: Option<&str>) -> (ok: bool)
    ensures
        ok == (expected is Some && provided is Some && expected->0@ == provided->0@),
{
    match (expected, provided) {
        (Some(key), Some(header)) => constant_time_str_eq(key.as_str(), header),
        _ => false,
    }
}

/// What the authorization middleware does with a request.
#[derive(Debug, Clone, Copy, PartialEq, Eq)]
pub enum AuthDecision {
    /// The request needs no authentication and passes.
    NotRequired,
    /// The request carried the right key and passes.
    Authenticated,
    /// The request is answered with 401 Unauthorized.
    Rejected,
}

/// The authorization of a request to `path` carrying the `X-API-KEY`
/// header `provided`, when the configured key is `api_key`.
pub open spec fn spec_authorize(
    path: Seq<char>,
    allow_unauthenticated: bool,
    api_key: Option<Seq<char>>,
    provided: Option<Seq<char>>,
) -> AuthDecision {
    if !protected_path(path) || allow_unauthenticated {
        AuthDecision::NotRequired
    } else if api_key is Some && provided is Some && api_key->0 == provided->0 {
        AuthDecision::Authenticated
    } else {
        AuthDecision::Rejected
    }
}

/// The configured key, as text.
pub open spec fn key_text(k: Option<&NonEmptyString>) -> Option<Seq<char>> {
    match k {
        Some(key) => Some(key@),
        None => None,
    }
}

/// The header value, as text.
pub open spec fn header_text(h: Option<&str>) -> Option<Seq<char>> {
    match h {
        Some(v) => Some(v@),
        None => None,
    }
}

/// The authorization of a request to `path` carrying the `X-API-KEY`
/// header `provided`: requests to the subscription API need the configured
/// key unless unauthenticated access is allowed.
pub fn authorize(
    path: &str,
    allow_unauthenticated: bool,
    api_key: Option<&NonEmptyString>,
    provided: Option<&str>,
) -> (d: AuthDecision)
    ensures
        d == spec_authorize(path@, allow_unauthenticated, key_text(api_key), header_text(provided)),
{
    let needs_authentication = starts_with(path, "/subscriptions") && !allow_unauthenticated;
    if needs_authentication {
        if !verify_api_key(api_key, provided) {
            return AuthDecision::Rejected;
        }
        return AuthDecision::Authenticated;
    }
    AuthDecision::NotRequired
}

/// With authentication enabled and no key configured, every request to the
/// subscription API is rejected, whatever header it carries.
pub proof fn lemma_no_key_rejects_every_request(path: Seq<char>, provided: Option<Seq<char>>)
    requires
        protected_path(path),
    ensures
        spec_authorize(path, false, None, provided) == AuthDecision::Rejected,
{
}

/// With authentication enabled, a request to the subscription API passes
/// exactly when it carries the configured key.
pub proof fn lemma_protected_request_passes_iff_key_matches(
    path: Seq<char>,
    api_key: Option<Seq<char>>,
    provided: Option<Seq<char>>,
)
    requires
        protected_path(path),
    ensures
        (spec_authorize(path, false, api_key, provided) != AuthDecision::Rejected) <==> (api_key
            is Some && provided == api_key),
{
}

/// Requests outside the subscription API, and any request when
/// unauthenticated access is allowed, need no key.
pub proof fn lemma_unprotected_requests_pass(
    path: Seq<char>,
    allow_unauthenticated: bool,
    api_key: Option<Seq<char>>,
    provided: Option<Seq<char>>,
)
    requires
        !protected_path(path) || allow_unauthenticated,
    ensures
        spec_authorize(path, allow_unauthenticated, api_key, provided) == AuthDecision::NotRequired,
{
}

/// The `Cache-Control` value set on responses to the subscription API:
/// such responses may not be stored by any cache.
pub fn cache_control_for(path: &str) -> (v: Option<&'static str>)
    ensures
        v is Some <==> protected_path(path@),
        v matches Some(h) ==> h@ == "private, no-cache, no-store, must-revalidate, max-age=0"@,
{
    if starts_with(path, "/subscriptions") {
        Some("private, no-cache, no-store, must-revalidate, max-age=0")
    } else {
        None
    }
}

/// Records HTTP response metadata onto the request span.
#[derive(Debug, Clone, Copy, PartialEq, Eq)]
pub struct HttpRequestOnResponse {
    /// Whether client error responses (4xx) are marked as errors.
    pub mark_client_errors: bool,
}

/// A server error status (5xx).
pub open spec fn is_server_error(status: u16) -> bool {
    500 <= status < 600
}

/// A client error status (4xx).
pub open spec fn is_client_error(status: u16) -> bool {
    400 <= status < 500
}

impl HttpRequestOnResponse {
    /// Creates a new [`HttpRequestOnResponse`].
    pub fn new(mark_client_errors: bool) -> (r: Self)
        ensures
            r.mark_client_errors == mark_client_errors,
    {
        HttpRequestOnResponse { mark_client_errors }
    }

    /// Whether the response status is marked as an error in exported
    /// traces: server errors always, client errors only when so configured.
    pub fn should_mark_error(&self, status: u16) -> (m: bool)
        ensures
            m == (is_server_error(status) || (self.mark_client_errors && is_client_error(
                status,
            ))),
    {
        (500 <= status && status < 600) || (self.mark_client_errors && 400 <= status && status
            < 500)
    }
}

} // verus!
