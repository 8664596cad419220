//! Domain type to represent a GitHub `repository_dispatch` `event_type`.

use vstd::prelude::*;
use vstd::string::*;

use crate::domain::ValidationError;
use crate::external::validate_char_length;
use vstd::utf8::encode_utf8;

verus! {

/// The message of a refused event type: it gives the length in UTF-8 bytes.
pub open spec fn event_type_error(s: Seq<char>) -> Seq<char> {
    "Event type must be at most 100 characters long. Got: "@
        + crate::text::int_decimal(encode_utf8(s).len() as int)
}

/// The rule of an event type: at most 100 characters.
pub open spec fn valid_event_type(s: Seq<char>) -> bool {
    s.len() <= 100
}

/// a GitHub `repository_dispatch` `event_type` (validated).
#[derive(Debug, PartialEq, Eq)]
pub struct EventType(String);

impl View for EventType {
    type V = Seq<char>;

    closed spec fn view(&self) -> Seq<char> {
        self.0@
    }
}

impl EventType {
    #[verifier::type_invariant]
    spec fn inv(self) -> bool {
        valid_event_type(self.0@)
    }

    /// Create a new `EventType`, refused unless the text follows the rule.
    pub fn new(value: String) -> (r: Result<Self, ValidationError>)
        ensures
            match r {
                Ok(v) => v@ == value@ && valid_event_type(value@),
                Err(e) => !valid_event_type(value@) && e.message() == event_type_error(value@),
            },
    {
        if !validate_char_length(value.as_str(), None, Some(100)) {
            return Err(
                ValidationError::with_number(
                    "Event type must be at most 100 characters long. Got: ",
                    value.as_str().as_bytes().len(),
                ),
            );
        }
        Ok(EventType(value))
    }

    /// Get the inner string.
    pub fn into_inner(self) -> (s: String)
        ensures
            s@ == self@,
            valid_event_type(s@),
    {
        proof {
            use_type_invariant(&self);
        }
        self.0
    }

    /// Get the string as a slice.
    pub fn as_str(&self) -> (s: &str)
        ensures
            s@ == self@,
            valid_event_type(s@),
    {
        proof {
            use_type_invariant(self);
        }
        self.0.as_str()
    }
}

impl Clone for EventType {
    fn clone(&self) -> (r: Self)
        ensures
            r@ == self@,
    {
        proof {
            use_type_invariant(self);
        }
        EventType(self.0.clone())
    }
}

} // verus!
