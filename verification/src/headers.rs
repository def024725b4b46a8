//! Header lookup on the `http` crate's header map.

use vstd::prelude::*;

verus! {

/// The `http` crate's header multimap, carried through as an opaque value.
#[verifier::external_type_specification]
#[verifier::external_body]
#[verifier::reject_recursive_types(T)]
pub struct ExHeaderMap<T>(http::HeaderMap<T>);

/// The `http` crate's header value, carried through as an opaque value.
#[verifier::external_type_specification]
#[verifier::external_body]
pub struct ExHeaderValue(http::HeaderValue);

/// What a header map holds: for each field name that occurs in it, written in
/// lower case as the map keeps it, the bytes of the first value stored under
/// that name.
pub uninterp spec fn header_fields(headers: http::HeaderMap<http::HeaderValue>) -> Map<Seq<char>, Seq<u8>>;

/// A character that a field name may hold as it is: a lower-case letter, a
/// digit or a hyphen.
pub open spec fn is_name_char(c: char) -> bool {
    ('a' <= c && c <= 'z') || ('0' <= c && c <= '9') || c == '-'
}

/// A field name written the way a header map keeps its names.
pub open spec fn is_field_name(name: Seq<char>) -> bool {
    forall|i: int| 0 <= i < name.len() ==> is_name_char(#[trigger] name[i])
}

/// `HeaderMap::get` with a string key, followed by `HeaderValue::as_bytes`.
/// The map folds the key to lower case before it looks, so for a key already
/// in that form the answer is the entry under the key itself: the first value
/// stored under it, or nothing where the name does not occur.
#[verifier::external_body]
fn first_value(headers: &http::HeaderMap<http::HeaderValue>, name: &str) -> (found: Option<Vec<u8>>)
    requires
        is_field_name(name@),
    ensures
        found is Some <==> header_fields(*headers).contains_key(name@),
        found matches Some(bytes) ==> bytes@ == header_fields(*headers)[name@],
{
    match headers.get(name) {
        Some(value) => Some(value.as_bytes().to_vec()),
        None => None,
    }
}

/// The name of the request header that carries the caller's byte range.
pub open spec fn range_name() -> Seq<char> {
    "range"@
}

/// The name of the response header that describes the returned bytes.
pub open spec fn content_range_name() -> Seq<char> {
    "content-range"@
}

/// The byte-range expression of the caller's request, if the request had one.
pub fn requested_range(headers: &http::HeaderMap<http::HeaderValue>) -> (range: Option<Vec<u8>>)
    ensures
        range is Some <==> header_fields(*headers).contains_key(range_name()),
        range matches Some(bytes) ==> bytes@ == header_fields(*headers)[range_name()],
{
    proof {
        reveal_strlit("range");
    }
    first_value(headers, "range")
}

/// The content-range descriptor of a fetch response, if the response had one.
pub fn content_range(headers: &http::HeaderMap<http::HeaderValue>) -> (descriptor: Option<Vec<u8>>)
    ensures
        descriptor is Some <==> header_fields(*headers).contains_key(content_range_name()),
        descriptor matches Some(bytes) ==> bytes@ == header_fields(*headers)[content_range_name()],
{
    proof {
        reveal_strlit("content-range");
    }
    first_value(headers, "content-range")
}

} // verus!
