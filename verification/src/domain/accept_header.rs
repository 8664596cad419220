//! Domain type to represent an HTTP Accept header.

use vstd::prelude::*;
use vstd::string::*;

use crate::domain::ValidationError;
use crate::external::{header_value_parses, header_value_text};

verus! {

/// The message of a refused Accept header.
pub open spec fn accept_header_error(s: Seq<char>) -> Seq<char> {
    "Invalid Accept header format: "@ + s
}

/// The rule of an Accept header: every byte of its UTF-8 encoding is one
/// that an HTTP header value may hold (`HeaderValue::from_str` accepts it).
pub open spec fn valid_accept_header(s: Seq<char>) -> bool {
    header_value_text(s)
}

/// The HTTP Accept header value.
#[derive(Debug, PartialEq, Eq)]
pub struct AcceptHeader(String);

impl View for AcceptHeader {
    type V = Seq<char>;

    closed spec fn view(&self) -> Seq<char> {
        self.0@
    }
}

impl AcceptHeader {
    #[verifier::type_invariant]
    spec fn inv(self) -> bool {
        valid_accept_header(self.0@)
    }

    /// Create a new `AcceptHeader`, refused unless the text is a valid
    /// header value.
    pub fn new(value: String) -> (r: Result<Self, ValidationError>)
        ensures
            match r {
                Ok(h) => h@ == value@ && valid_accept_header(value@),
                Err(e) => !valid_accept_header(value@) && e.message() == accept_header_error(value@),
            },
    {
        if !header_value_parses(value.as_str()) {
            return Err(ValidationError::with_value("Invalid Accept header format: ", value.as_str()));
        }
        Ok(AcceptHeader(value))
    }

    /// Get the inner string.
    pub fn into_inner(self) -> (s: String)
        ensures
            s@ == self@,
            valid_accept_header(s@),
    {
        proof {
            use_type_invariant(&self);
        }
        self.0
    }

    /// Get the string as a slice.
    pub fn as_str(&self) -> (s: &str)
        ensures
            s@ == self@,
            valid_accept_header(s@),
    {
        proof {
            use_type_invariant(self);
        }
        self.0.as_str()
    }
}

impl Clone for AcceptHeader {
    fn clone(&self) -> (r: Self)
        ensures
            r@ == self@,
    {
        proof {
            use_type_invariant(self);
        }
        AcceptHeader(self.0.clone())
    }
}

} // verus!
