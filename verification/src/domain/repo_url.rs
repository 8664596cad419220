//! Domain type to represent a GitHub repository URL.

use vstd::prelude::*;
use vstd::string::*;

use crate::domain::ValidationError;
use crate::external::{url_is_valid, validate_url};
use crate::text::{contains, contains_seq};

verus! {

/// The message of a refused repository URL, given whether it is a URL: it
/// names the first rule broken.
pub open spec fn repo_url_error_given(s: Seq<char>, is_url: bool) -> Seq<char> {
    if !is_url {
        "Invalid URL format: "@ + s
    } else {
        "URL must be a github.com URL: "@ + s
    }
}

/// The message of a refused repository URL: it names the first rule broken.
pub open spec fn repo_url_error(s: Seq<char>) -> Seq<char> {
    repo_url_error_given(s, url_is_valid(s))
}

/// The rule of a repository URL: a valid URL that contains `github.com`.
pub open spec fn valid_repo_url(s: Seq<char>) -> bool {
    url_is_valid(s) && contains_seq(s, "github.com"@)
}

/// The verdict on `value` as a repository URL, given whether it is a URL:
/// accepted exactly when it is one and contains `github.com`.
pub fn repo_url_verdict(value: &str, is_url: bool) -> (r: Result<(), ValidationError>)
    ensures
        r is Ok <==> (is_url && contains_seq(value@, "github.com"@)),
        r matches Err(e) ==> e.message() == repo_url_error_given(value@, is_url),
{
    if !is_url {
        return Err(ValidationError::with_value("Invalid URL format: ", value));
    }
    if !contains(value, "github.com") {
        return Err(ValidationError::with_value("URL must be a github.com URL: ", value));
    }
    Ok(())
}

/// a GitHub repository URL (validated).
#[derive(Debug, PartialEq, Eq)]
pub struct RepoUrl(String);

impl View for RepoUrl {
    type V = Seq<char>;

    closed spec fn view(&self) -> Seq<char> {
        self.0@
    }
}

impl RepoUrl {
    #[verifier::type_invariant]
    spec fn inv(self) -> bool {
        valid_repo_url(self.0@)
    }

    /// Create a new `RepoUrl`, refused unless the text follows the rule.
    pub fn new(value: String) -> (r: Result<Self, ValidationError>)
        ensures
            match r {
                Ok(v) => v@ == value@ && valid_repo_url(value@),
                Err(e) => !valid_repo_url(value@) && e.message() == repo_url_error(value@),
            },
    {
        let is_url = validate_url(value.as_str());
        match repo_url_verdict(value.as_str(), is_url) {
            Ok(()) => Ok(RepoUrl(value)),
            Err(e) => Err(e),
        }
    }

    /// Get the inner string.
    pub fn into_inner(self) -> (s: String)
        ensures
            s@ == self@,
            valid_repo_url(s@),
    {
        proof {
            use_type_invariant(&self);
        }
        self.0
    }

    /// Get the string as a slice.
    pub fn as_str(&self) -> (s: &str)
        ensures
            s@ == self@,
            valid_repo_url(s@),
    {
        proof {
            use_type_invariant(self);
        }
        self.0.as_str()
    }
}

impl Clone for RepoUrl {
    fn clone(&self) -> (r: Self)
        ensures
            r@ == self@,
    {
        proof {
            use_type_invariant(self);
        }
        RepoUrl(self.0.clone())
    }
}

} // verus!
