//! Domain type to represent a non-empty string.

use vstd::prelude::*;
use vstd::string::*;

use crate::domain::ValidationError;
use crate::external::validate_char_length;
use crate::text::same_text;
use vstd::std_specs::cmp::PartialEqSpecImpl;

verus! {

/// The message of a refused non-empty string.
pub open spec fn non_empty_string_error(s: Seq<char>) -> Seq<char> {
    "String must not be empty: "@ + s
}

/// The rule of a non-empty string: at least one character.
pub open spec fn non_empty(s: Seq<char>) -> bool {
    s.len() >= 1
}

/// a non-empty string (validated).
#[derive(Debug, Eq)]
pub struct NonEmptyString(String);

impl View for NonEmptyString {
    type V = Seq<char>;

    closed spec fn view(&self) -> Seq<char> {
        self.0@
    }
}

impl NonEmptyString {
    #[verifier::type_invariant]
    spec fn inv(self) -> bool {
        non_empty(self.0@)
    }

    /// Create a new `NonEmptyString`, refused unless the text follows the rule.
    pub fn new(value: String) -> (r: Result<Self, ValidationError>)
        ensures
            match r {
                Ok(v) => v@ == value@ && non_empty(value@),
                Err(e) => !non_empty(value@) && e.message() == non_empty_string_error(value@),
            },
    {
        if !validate_char_length(value.as_str(), Some(1), None) {
            return Err(ValidationError::with_value("String must not be empty: ", value.as_str()));
        }
        Ok(NonEmptyString(value))
    }

    /// Get the inner string.
    pub fn into_inner(self) -> (s: String)
        ensures
            s@ == self@,
            non_empty(s@),
    {
        proof {
            use_type_invariant(&self);
        }
        self.0
    }

    /// Get the string as a slice.
    pub fn as_str(&self) -> (s: &str)
        ensures
            s@ == self@,
            non_empty(s@),
    {
        proof {
            use_type_invariant(self);
        }
        self.0.as_str()
    }
}

impl Clone for NonEmptyString {
    fn clone(&self) -> (r: Self)
        ensures
            r@ == self@,
    {
        proof {
            use_type_invariant(self);
        }
        NonEmptyString(self.0.clone())
    }
}

impl AsRef<str> for NonEmptyString {
    fn as_ref(&self) -> (s: &str)
        ensures
            s@ == self@,
    {
        self.0.as_str()
    }
}

impl PartialEq for NonEmptyString {
    fn eq(&self, other: &NonEmptyString) -> (r: bool) {
        same_text(self.0.as_str(), other.0.as_str())
    }
}

impl PartialEqSpecImpl for NonEmptyString {
    open spec fn obeys_eq_spec() -> bool {
        true
    }

    open spec fn eq_spec(&self, other: &NonEmptyString) -> bool {
        self@ == other@
    }
}

impl PartialEq<str> for NonEmptyString {
    fn eq(&self, other: &str) -> (r: bool) {
        same_text(self.0.as_str(), other)
    }
}

impl PartialEqSpecImpl<str> for NonEmptyString {
    open spec fn obeys_eq_spec() -> bool {
        true
    }

    open spec fn eq_spec(&self, other: &str) -> bool {
        self@ == other@
    }
}

impl PartialEq<String> for NonEmptyString {
    fn eq(&self, other: &String) -> (r: bool) {
        same_text(self.0.as_str(), other.as_str())
    }
}

impl PartialEqSpecImpl<String> for NonEmptyString {
    open spec fn obeys_eq_spec() -> bool {
        true
    }

    open spec fn eq_spec(&self, other: &String) -> bool {
        self@ == other@
    }
}

} // verus!
