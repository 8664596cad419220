//! The error of a rejected domain value.

use vstd::prelude::*;
use vstd::string::*;

verus! {

/// Why a value was rejected.
#[derive(Debug, Clone, PartialEq, Eq)]
pub enum ValidationError {
    /// Invalid field value, with a message that names the rule.
    InvalidValue(String),
}

impl ValidationError {
    /// The message carried by the error.
    pub open spec fn message(self) -> Seq<char> {
        match self {
            ValidationError::InvalidValue(m) => m@,
        }
    }

    /// The error whose message is `prefix` followed by `value`.
    pub(crate) fn with_value(prefix: &str, value: &str) -> (e: ValidationError)
        ensures
            e.message() == prefix@ + value@,
    {
        ValidationError::InvalidValue(String::from_str(prefix).concat(value))
    }

    /// The error whose message is `prefix` followed by the decimal numeral
    /// of `n`.
    pub(crate) fn with_number(prefix: &str, n: usize) -> (e: ValidationError)
        ensures
            e.message() == prefix@ + crate::text::int_decimal(n as int),
    {
        let digits = crate::external::decimal_string(n as i128);
        ValidationError::InvalidValue(String::from_str(prefix).concat(digits.as_str()))
    }

    /// The text the error displays: `Validation error: ` and its message.
    pub fn to_display_string(&self) -> (s: String)
        ensures
            s@ == "Validation error: "@ + self.message(),
    {
        match self {
            ValidationError::InvalidValue(m) => String::from_str("Validation error: ").concat(
                m.as_str(),
            ),
        }
    }
}

} // verus!
