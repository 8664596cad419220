//! The claims of the JSON Web Token that authenticates the GitHub App.

use vstd::prelude::*;
use vstd::string::*;

use crate::config::AuthConfig;

verus! {

/// Payload that GitHub expects in the JWT.
#[derive(Debug, Clone, PartialEq, Eq)]
pub struct GitHubClaims {
    /// Issued at time (UNIX time).
    pub iat: u64,
    /// Expiration time (UNIX time).
    pub exp: u64,
    /// Issuer: GitHub App's Client ID.
    pub iss: String,
}

/// The clock reading (UNIX seconds) at which claims can be issued: the
/// drift buffer can be taken from it and the validity added to it.
pub open spec fn claims_issuable(now: u64, config: AuthConfig) -> bool {
    config.clock_drift_buffer@ / 1_000_000_000 <= now && now + config.token_validity@
        / 1_000_000_000 <= u64::MAX
}

/// Whether claims can be issued at `now` (UNIX seconds) under `config`.
pub fn claims_can_be_issued(now: u64, config: &AuthConfig) -> (r: bool)
    ensures
        r == claims_issuable(now, *config),
{
    let drift = config.clock_drift_buffer.as_secs();
    let validity = config.token_validity.as_secs();
    drift <= now && now.checked_add(validity).is_some()
}

/// The claims of a token issued at `now` (UNIX seconds): backdated by the
/// clock drift buffer, expiring after the token validity, issued by the
/// app's client ID (whole seconds of each duration).
pub fn github_claims(now: u64, config: &AuthConfig) -> (c: GitHubClaims)
    requires
        claims_issuable(now, *config),
    ensures
        c.iat == now - config.clock_drift_buffer@ / 1_000_000_000,
        c.exp == now + config.token_validity@ / 1_000_000_000,
        c.iss@ == config.client_id@,
{
    GitHubClaims {
        iat: now - config.clock_drift_buffer.as_secs(),
        exp: now + config.token_validity.as_secs(),
        iss: String::from_str(config.client_id.as_str()),
    }
}

} // verus!
