//! Domain type to represent a GitHub API version in YYYY-MM-DD format.

use vstd::prelude::*;
use vstd::string::*;

use crate::domain::ValidationError;
use crate::external::{naive_date_parses, parse_naive_date};

verus! {

/// The message of a refused API version.
pub open spec fn api_version_error(s: Seq<char>) -> Seq<char> {
    "Invalid API version format (expected YYYY-MM-DD): "@ + s
}

/// The rule of an API version: chrono parses it as a date in the `%Y-%m-%d` format.
pub open spec fn valid_api_version(s: Seq<char>) -> bool {
    naive_date_parses(s, "%Y-%m-%d"@)
}

/// The verdict on `value` as an API version, given whether chrono parses
/// it as a `%Y-%m-%d` date: accepted exactly when it does.
pub fn api_version_verdict(value: &str, parses_as_date: bool) -> (r: Result<(), ValidationError>)
    ensures
        r is Ok <==> parses_as_date,
        r matches Err(e) ==> e.message() == api_version_error(value@),
{
    if !parses_as_date {
        return Err(
            ValidationError::with_value(
                "Invalid API version format (expected YYYY-MM-DD): ",
                value,
            ),
        );
    }
    Ok(())
}

/// a GitHub API version in YYYY-MM-DD format (validated).
#[derive(Debug, PartialEq, Eq)]
pub struct ApiVersion(String);

impl View for ApiVersion {
    type V = Seq<char>;

    closed spec fn view(&self) -> Seq<char> {
        self.0@
    }
}

impl ApiVersion {
    #[verifier::type_invariant]
    spec fn inv(self) -> bool {
        valid_api_version(self.0@)
    }

    /// Create a new `ApiVersion`, refused unless the text follows the rule.
    pub fn new(value: String) -> (r: Result<Self, ValidationError>)
        ensures
            match r {
                Ok(v) => v@ == value@ && valid_api_version(value@),
                Err(e) => !valid_api_version(value@) && e.message() == api_version_error(value@),
            },
    {
        let parses = parse_naive_date(value.as_str(), "%Y-%m-%d");
        match api_version_verdict(value.as_str(), parses) {
            Ok(()) => Ok(ApiVersion(value)),
            Err(e) => Err(e),
        }
    }

    /// Get the inner string.
    pub fn into_inner(self) -> (s: String)
        ensures
            s@ == self@,
            valid_api_version(s@),
    {
        proof {
            use_type_invariant(&self);
        }
        self.0
    }

    /// Get the string as a slice.
    pub fn as_str(&self) -> (s: &str)
        ensures
            s@ == self@,
            valid_api_version(s@),
    {
        proof {
            use_type_invariant(self);
        }
        self.0.as_str()
    }
}

impl Clone for ApiVersion {
    fn clone(&self) -> (r: Self)
        ensures
            r@ == self@,
    {
        proof {
            use_type_invariant(self);
        }
        ApiVersion(self.0.clone())
    }
}

} // verus!
