//! Domain type to represent a target repository hosted on GitHub, in owner/repo format.

use vstd::prelude::*;
use vstd::string::*;

use crate::domain::ValidationError;
use vstd::std_specs::convert::FromSpecImpl;

verus! {

/// The message of a refused target repository.
pub open spec fn target_repo_error(s: Seq<char>) -> Seq<char> {
    "Target repository must be in owner/repo format: "@ + s
}

/// Whether `s` has the `owner/repo` form.
fn owner_repo_form(s: &str) -> (r: bool)
    ensures
        r == valid_target_repo(s@),
{
    let n = s.unicode_len();
    let mut first: Option<usize> = None;
    let mut i: usize = 0;
    while i < n
        invariant
            n == s@.len(),
            i <= n,
            match first {
                None => forall|j: int| 0 <= j < i ==> s@[j] != '/',
                Some(p) => p < i && s@[p as int] == '/' && forall|j: int|
                    0 <= j < i && j != p ==> s@[j] != '/',
            },
        decreases n - i,
    {
        if s.get_char(i) == '/' {
            match first {
                None => {
                    first = Some(i);
                },
                Some(p) => {
                    proof {
                        assert forall|k: int|
                            !(0 < k < s@.len() - 1 && s@[k] == '/' && forall|j: int|
                                0 <= j < s@.len() && j != k ==> s@[j] != '/') by {
                            if 0 < k < s@.len() - 1 && s@[k] == '/' {
                                if k == p {
                                    assert(s@[i as int] == '/');
                                } else {
                                    assert(s@[p as int] == '/');
                                }
                            }
                        }
                    }
                    return false;
                },
            }
        }
        i = i + 1;
    }
    match first {
        None => {
            assert forall|k: int|
                !(0 < k < s@.len() - 1 && s@[k] == '/' && forall|j: int|
                    0 <= j < s@.len() && j != k ==> s@[j] != '/') by {}
            false
        },
        Some(p) => {
            if 0 < p && p + 1 < n {
                assert(s@[p as int] == '/');
                true
            } else {
                assert forall|k: int|
                    !(0 < k < s@.len() - 1 && s@[k] == '/' && forall|j: int|
                        0 <= j < s@.len() && j != k ==> s@[j] != '/') by {
                    if 0 < k < s@.len() - 1 && s@[k] == '/' {
                        assert(k != p);
                    }
                }
                false
            }
        },
    }
}

/// The rule of a target repository: `owner/repo`, that is, exactly one `/`,
/// with a non-empty owner before it and a non-empty repository after it
/// (splitting at `/` gives exactly two non-empty parts).
pub open spec fn valid_target_repo(s: Seq<char>) -> bool {
    exists|k: int| #![trigger s[k]] 0 < k < s.len() - 1 && s[k] == '/' && forall|j: int| 0 <= j < s.len() && j != k ==> s[j] != '/'
}

/// a target repository hosted on GitHub, in owner/repo format (validated).
#[derive(Debug, PartialEq, Eq)]
pub struct TargetRepo(String);

impl View for TargetRepo {
    type V = Seq<char>;

    closed spec fn view(&self) -> Seq<char> {
        self.0@
    }
}

impl TargetRepo {
    #[verifier::type_invariant]
    spec fn inv(self) -> bool {
        valid_target_repo(self.0@)
    }

    /// Create a new `TargetRepo`, refused unless the text follows the rule.
    pub fn new(value: String) -> (r: Result<Self, ValidationError>)
        ensures
            match r {
                Ok(v) => v@ == value@ && valid_target_repo(value@),
                Err(e) => !valid_target_repo(value@) && e.message() == target_repo_error(value@),
            },
    {
        if !owner_repo_form(value.as_str()) {
            return Err(
                ValidationError::with_value(
                    "Target repository must be in owner/repo format: ",
                    value.as_str(),
                ),
            );
        }
        Ok(TargetRepo(value))
    }

    /// Get the inner string.
    pub fn into_inner(self) -> (s: String)
        ensures
            s@ == self@,
            valid_target_repo(s@),
    {
        proof {
            use_type_invariant(&self);
        }
        self.0
    }

    /// Get the string as a slice.
    pub fn as_str(&self) -> (s: &str)
        ensures
            s@ == self@,
            valid_target_repo(s@),
    {
        proof {
            use_type_invariant(self);
        }
        self.0.as_str()
    }

    /// The text the repository displays: `owner/repo` as given.
    pub fn to_display_string(&self) -> (s: String)
        ensures
            s@ == self@,
    {
        self.0.clone()
    }
}

impl Clone for TargetRepo {
    fn clone(&self) -> (r: Self)
        ensures
            r@ == self@,
    {
        proof {
            use_type_invariant(self);
        }
        TargetRepo(self.0.clone())
    }
}

impl From<TargetRepo> for String {
    fn from(val: TargetRepo) -> (s: String)
        ensures
            s@ == val@,
    {
        val.0
    }
}

impl FromSpecImpl<TargetRepo> for String {
    open spec fn obeys_from_spec() -> bool {
        true
    }

    closed spec fn from_spec(v: TargetRepo) -> String {
        v.0
    }
}

} // verus!
