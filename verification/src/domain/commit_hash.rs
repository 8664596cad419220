//! Domain type to represent a git commit hash.

use vstd::prelude::*;
use vstd::string::*;

use crate::domain::ValidationError;
use crate::text::same_text;
use vstd::std_specs::cmp::PartialEqSpecImpl;
use vstd::std_specs::convert::FromSpecImpl;
use vstd::utf8::encode_utf8;

verus! {

/// The message of a refused commit hash: the length rule (in UTF-8 bytes) is checked first.
pub open spec fn commit_hash_error(s: Seq<char>) -> Seq<char> {
    if encode_utf8(s).len() != 40 && encode_utf8(s).len() != 64 {
        "Commit hash must be 40 or 64 characters long. Got: "@ + crate::text::int_decimal(
            encode_utf8(s).len() as int,
        )
    } else {
        "Commit hash must be a hexadecimal string. Got: "@ + s
    }
}

/// `c` is an ASCII hexadecimal digit (`char::is_ascii_hexdigit`).
pub open spec fn is_hex_digit(c: char) -> bool {
    ('0' <= c && c <= '9') || ('a' <= c && c <= 'f') || ('A' <= c && c <= 'F')
}

/// Every character of `s` is an ASCII hexadecimal digit.
pub open spec fn all_hex_digits(s: Seq<char>) -> bool {
    forall|i: int| 0 <= i < s.len() ==> #[trigger] is_hex_digit(s[i])
}

/// Whether `c` is an ASCII hexadecimal digit.
fn hex_digit(c: char) -> (r: bool)
    ensures
        r == is_hex_digit(c),
{
    ('0' <= c && c <= '9') || ('a' <= c && c <= 'f') || ('A' <= c && c <= 'F')
}

/// Whether every character of `s` is an ASCII hexadecimal digit.
fn hex_digits_only(s: &str) -> (r: bool)
    ensures
        r == all_hex_digits(s@),
{
    let n = s.unicode_len();
    let mut i: usize = 0;
    while i < n
        invariant
            n == s@.len(),
            i <= n,
            forall|j: int| 0 <= j < i ==> #[trigger] is_hex_digit(s@[j]),
        decreases n - i,
    {
        if !hex_digit(s.get_char(i)) {
            return false;
        }
        i = i + 1;
    }
    true
}

/// The rule of a commit hash: 40 or 64 bytes long, all hexadecimal digits.
pub open spec fn valid_commit_hash(s: Seq<char>) -> bool {
    (encode_utf8(s).len() == 40 || encode_utf8(s).len() == 64) && all_hex_digits(s)
}

/// a git commit hash (validated).
#[derive(Debug, Eq)]
pub struct CommitHash(String);

impl View for CommitHash {
    type V = Seq<char>;

    closed spec fn view(&self) -> Seq<char> {
        self.0@
    }
}

impl CommitHash {
    #[verifier::type_invariant]
    spec fn inv(self) -> bool {
        valid_commit_hash(self.0@)
    }

    /// Create a new `CommitHash`, refused unless the text follows the rule.
    pub fn new(value: String) -> (r: Result<Self, ValidationError>)
        ensures
            match r {
                Ok(v) => v@ == value@ && valid_commit_hash(value@),
                Err(e) => !valid_commit_hash(value@) && e.message() == commit_hash_error(value@),
            },
    {
        let len = value.as_str().as_bytes().len();
        if len != 40 && len != 64 {
            return Err(
                ValidationError::with_number(
                    "Commit hash must be 40 or 64 characters long. Got: ",
                    len,
                ),
            );
        }
        if !hex_digits_only(value.as_str()) {
            return Err(
                ValidationError::with_value(
                    "Commit hash must be a hexadecimal string. Got: ",
                    value.as_str(),
                ),
            );
        }
        Ok(CommitHash(value))
    }

    /// Get the inner string.
    pub fn into_inner(self) -> (s: String)
        ensures
            s@ == self@,
            valid_commit_hash(s@),
    {
        proof {
            use_type_invariant(&self);
        }
        self.0
    }

    /// Get the string as a slice.
    pub fn as_str(&self) -> (s: &str)
        ensures
            s@ == self@,
            valid_commit_hash(s@),
    {
        proof {
            use_type_invariant(self);
        }
        self.0.as_str()
    }
}

impl Clone for CommitHash {
    fn clone(&self) -> (r: Self)
        ensures
            r@ == self@,
    {
        proof {
            use_type_invariant(self);
        }
        CommitHash(self.0.clone())
    }
}

impl PartialEq for CommitHash {
    fn eq(&self, other: &CommitHash) -> (r: bool) {
        same_text(self.0.as_str(), other.0.as_str())
    }
}

impl PartialEqSpecImpl for CommitHash {
    open spec fn obeys_eq_spec() -> bool {
        true
    }

    open spec fn eq_spec(&self, other: &CommitHash) -> bool {
        self@ == other@
    }
}

impl PartialEq<str> for CommitHash {
    fn eq(&self, other: &str) -> (r: bool) {
        same_text(self.0.as_str(), other)
    }
}

impl PartialEqSpecImpl<str> for CommitHash {
    open spec fn obeys_eq_spec() -> bool {
        true
    }

    open spec fn eq_spec(&self, other: &str) -> bool {
        self@ == other@
    }
}

impl PartialEq<String> for CommitHash {
    fn eq(&self, other: &String) -> (r: bool) {
        same_text(self.0.as_str(), other.as_str())
    }
}

impl PartialEqSpecImpl<String> for CommitHash {
    open spec fn obeys_eq_spec() -> bool {
        true
    }

    open spec fn eq_spec(&self, other: &String) -> bool {
        self@ == other@
    }
}

impl From<CommitHash> for String {
    fn from(val: CommitHash) -> (s: String)
        ensures
            s@ == val@,
    {
        val.0
    }
}

impl FromSpecImpl<CommitHash> for String {
    open spec fn obeys_from_spec() -> bool {
        true
    }

    closed spec fn from_spec(v: CommitHash) -> String {
        v.0
    }
}

} // verus!
