//! What this library relies on from the `http` crate and from std's `Duration`.
use vstd::prelude::*;
use vstd::string::StringSliceAdditionalSpecFns;

use core::time::Duration;
use http::header::{InvalidHeaderValue, MaxSizeReached};
use http::{HeaderMap, HeaderValue};

use crate::mime::{all_visible, ascii_chars};

verus! {

#[verifier::external_type_specification]
#[verifier::external_body]
pub struct ExHeaderValue(HeaderValue);

#[verifier::external_type_specification]
#[verifier::external_body]
pub struct ExInvalidHeaderValue(InvalidHeaderValue);

#[verifier::external_type_specification]
#[verifier::external_body]
pub struct ExMaxSizeReached(MaxSizeReached);

#[verifier::external_type_specification]
#[verifier::external_body]
#[verifier::reject_recursive_types(T)]
pub struct ExHeaderMap<T>(HeaderMap<T>);

/// The bytes that a header value holds.
pub uninterp spec fn value_bytes(v: HeaderValue) -> Seq<u8>;

/// What a header map holds: for each (lower-case) header name, the bytes of
/// its values in order.
pub uninterp spec fn header_entries(m: HeaderMap) -> Map<Seq<char>, Seq<Seq<u8>>>;

/// The number of whole seconds in a duration.
pub uninterp spec fn whole_secs(d: Duration) -> u64;

/// The name of the `Content-Type` header.
pub open spec fn content_type_name() -> Seq<char> {
    seq!['c', 'o', 'n', 't', 'e', 'n', 't', '-', 't', 'y', 'p', 'e']
}

/// The name of the `Cache-Control` header.
pub open spec fn cache_control_name() -> Seq<char> {
    seq!['c', 'a', 'c', 'h', 'e', '-', 'c', 'o', 'n', 't', 'r', 'o', 'l']
}

/// A character that `http` accepts in a header value built from a string:
/// visible ASCII, a tab, or any non-ASCII character (whose UTF-8 bytes are
/// all at least 0x80).
pub open spec fn is_header_char(c: char) -> bool {
    (32 <= c as u32 && c as u32 != 127) || c == '\t'
}

/// Relies on `HeaderValue::to_str`: it succeeds exactly when every byte is
/// visible ASCII or a tab, and then yields those bytes as text.
#[verifier::external_body]
pub(crate) fn header_text(v: &HeaderValue) -> (r: Option<&str>)
    ensures
        r is Some <==> all_visible(value_bytes(*v)),
        r is Some ==> r->Some_0@ == ascii_chars(value_bytes(*v)),
{
    v.to_str().ok()
}

/// Relies on `HeaderValue::from_str`: it fails exactly when some byte of the
/// string is a control byte other than a tab, and otherwise holds the string's
/// UTF-8 bytes.
#[verifier::external_body]
pub(crate) fn header_value_from_str(s: &str) -> (r: Result<HeaderValue, InvalidHeaderValue>)
    ensures
        r is Ok <==> (forall|i: int| 0 <= i < s@.len() ==> is_header_char(#[trigger] s@[i])),
        r is Ok ==> value_bytes(r->Ok_0) == s.spec_bytes(),
{
    HeaderValue::from_str(s)
}

/// Relies on `HeaderMap::get` with `CONTENT_TYPE`: the first value stored
/// under that name, if there is one.
#[verifier::external_body]
pub(crate) fn get_content_type(m: &HeaderMap) -> (r: Option<&HeaderValue>)
    ensures
        match r {
            None => !header_entries(*m).contains_key(content_type_name()),
            Some(v) => {
                &&& header_entries(*m).contains_key(content_type_name())
                &&& header_entries(*m)[content_type_name()].len() > 0
                &&& value_bytes(*v) == header_entries(*m)[content_type_name()][0]
            },
        },
{
    m.get(http::header::CONTENT_TYPE)
}

/// Relies on `HeaderMap::try_insert` with `CACHE_CONTROL`: on success the
/// value replaces every value stored under that name; on failure (the map is
/// full) the contents are unchanged.
#[verifier::external_body]
pub(crate) fn try_insert_cache_control(m: &mut HeaderMap, v: HeaderValue) -> (r: Result<
    Option<HeaderValue>,
    MaxSizeReached,
>)
    ensures
        r is Ok ==> header_entries(*final(m)) == header_entries(*old(m)).insert(
            cache_control_name(),
            seq![value_bytes(v)],
        ),
        r is Err ==> header_entries(*final(m)) == header_entries(*old(m)),
{
    m.try_insert(http::header::CACHE_CONTROL, v)
}

/// Relies on `Duration::as_secs`: the number of whole seconds.
#[verifier::external_body]
pub(crate) fn duration_secs(d: &Duration) -> (r: u64)
    ensures
        r == whole_secs(*d),
{
    d.as_secs()
}

/// Relies on `Duration::from_secs`: a duration of exactly `secs` seconds.
pub assume_specification[ Duration::from_secs ](secs: u64) -> (r: Duration)
    ensures
        whole_secs(r) == secs,
;

} // verus!
