//! Calls into outside crates, each behind a contract stated from that
//! crate's source or documentation.

use vstd::prelude::*;
use vstd::utf8::encode_utf8;

verus! {

/// Whether `b` is a byte that an HTTP header value may hold: a visible
/// byte (32..=255 except 127) or a horizontal tab.
pub open spec fn header_value_byte(b: u8) -> bool {
    (b >= 32 && b != 127) || b == 9
}

/// Whether every byte of the UTF-8 encoding of `s` is a header value byte.
pub open spec fn header_value_text(s: Seq<char>) -> bool {
    forall|i: int| 0 <= i < encode_utf8(s).len() ==> #[trigger] header_value_byte(encode_utf8(s)[i])
}

/// `http::HeaderValue::from_str`: succeeds exactly when every byte of the
/// UTF-8 encoding of `s` is a valid header value byte (it scans the bytes
/// with `b >= 32 && b != 127 || b == b'\t'`).
#[verifier::external_body]
pub(crate) fn header_value_parses(s: &str) -> (ok: bool)
    ensures
        ok == header_value_text(s@),
{
    http::HeaderValue::from_str(s).is_ok()
}

/// Whether `chrono::NaiveDate::parse_from_str(value, fmt)` succeeds.
pub uninterp spec fn naive_date_parses(value: Seq<char>, fmt: Seq<char>) -> bool;

/// `chrono::NaiveDate::parse_from_str`: the outcome is a function of the
/// text and the format alone; which texts parse is left to chrono.
#[verifier::external_body]
pub(crate) fn parse_naive_date(value: &str, fmt: &str) -> (ok: bool)
    ensures
        ok == naive_date_parses(value@, fmt@),
{
    chrono::NaiveDate::parse_from_str(value, fmt).is_ok()
}

/// `validator::ValidateLength::validate_length` on a string with no `equal`
/// bound: the length is the number of `char`s, and the check passes when it
/// lies within the given lower and upper bounds.
#[verifier::external_body]
pub(crate) fn validate_char_length(s: &str, min: Option<u64>, max: Option<u64>) -> (ok: bool)
    ensures
        ok == ((min is Some ==> s@.len() >= min->0) && (max is Some ==> s@.len() <= max->0)),
{
    validator::ValidateLength::<u64>::validate_length(s, min, max, None)
}

/// Whether `validator::ValidateUrl::validate_url` accepts the text (it
/// accepts exactly what `url::Url::parse` parses).
pub uninterp spec fn url_is_valid(value: Seq<char>) -> bool;

/// `validator::ValidateUrl::validate_url` on a string; which texts are
/// URLs is left to the `url` crate.
#[verifier::external_body]
pub(crate) fn validate_url(value: &str) -> (ok: bool)
    ensures
        ok == url_is_valid(value@),
{
    validator::ValidateUrl::validate_url(value)
}

/// `subtle::ConstantTimeEq::ct_eq` on the byte slices of two strings,
/// turned into a `bool`: true exactly when the slices are equal (it returns
/// false at once on different lengths, and otherwise compares every byte).
/// UTF-8 encoding is injective, so equal bytes means equal text.
#[verifier::external_body]
pub(crate) fn constant_time_str_eq(a: &str, b: &str) -> (eq: bool)
    ensures
        eq == (a@ == b@),
{
    subtle::ConstantTimeEq::ct_eq(a.as_bytes(), b.as_bytes()).into()
}

/// `ToString::to_string` on an `i128`: its `Display` writes the decimal
/// numeral, with a leading `-` for negative values.
#[verifier::external_body]
pub(crate) fn decimal_string(n: i128) -> (s: String)
    ensures
        s@ == crate::text::int_decimal(n as int),
{
    n.to_string()
}

} // verus!
