//! Domain type to represent a Git branch name.

use vstd::prelude::*;
use vstd::string::*;

use crate::domain::ValidationError;
use crate::external::validate_char_length;

verus! {

/// The message of a refused branch name (it does not repeat the name).
pub open spec fn branch_name_error(s: Seq<char>) -> Seq<char> {
    "Branch name cannot be empty"@
}

/// The rule of a branch name: at least one character.
pub open spec fn valid_branch_name(s: Seq<char>) -> bool {
    s.len() >= 1
}

/// a Git branch name (validated).
#[derive(Debug, PartialEq, Eq)]
pub struct BranchName(String);

impl View for BranchName {
    type V = Seq<char>;

    closed spec fn view(&self) -> Seq<char> {
        self.0@
    }
}

impl BranchName {
    #[verifier::type_invariant]
    spec fn inv(self) -> bool {
        valid_branch_name(self.0@)
    }

    /// Create a new `BranchName`, refused unless the text follows the rule.
    pub fn new(value: String) -> (r: Result<Self, ValidationError>)
        ensures
            match r {
                Ok(v) => v@ == value@ && valid_branch_name(value@),
                Err(e) => !valid_branch_name(value@) && e.message() == branch_name_error(value@),
            },
    {
        if !validate_char_length(value.as_str(), Some(1), None) {
            return Err(ValidationError::InvalidValue(String::from_str("Branch name cannot be empty")));
        }
        Ok(BranchName(value))
    }

    /// Get the inner string.
    pub fn into_inner(self) -> (s: String)
        ensures
            s@ == self@,
            valid_branch_name(s@),
    {
        proof {
            use_type_invariant(&self);
        }
        self.0
    }

    /// Get the string as a slice.
    pub fn as_str(&self) -> (s: &str)
        ensures
            s@ == self@,
            valid_branch_name(s@),
    {
        proof {
            use_type_invariant(self);
        }
        self.0.as_str()
    }
}

impl Clone for BranchName {
    fn clone(&self) -> (r: Self)
        ensures
            r@ == self@,
    {
        proof {
            use_type_invariant(self);
        }
        BranchName(self.0.clone())
    }
}

} // verus!
