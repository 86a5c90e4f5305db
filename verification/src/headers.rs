use vstd::prelude::*;

use crate::text::str_equals;

verus! {

/// The header names that describe a request body, dropped when a redirect
/// turns the request into a body-less `GET`.
pub open spec fn spec_is_request_body_header_name(key: Seq<char>) -> bool {
    ||| key == "content-encoding"@
    ||| key == "content-language"@
    ||| key == "content-location"@
    ||| key == "content-type"@
}

/// The header names that are never sent to another origin after a redirect.
pub open spec fn spec_is_cors_non_wildcard_request_header_name(key: Seq<char>) -> bool {
    key == "authorization"@
}

/// Whether `key` names a header that describes the request body.
pub fn is_request_body_header_name(key: &str) -> (r: bool)
    ensures
        r == spec_is_request_body_header_name(key@),
{
    str_equals(key, "content-encoding") || str_equals(key, "content-language")
        || str_equals(key, "content-location") || str_equals(key, "content-type")
}

/// Whether `key` names a header that a wildcard CORS policy never allows,
/// and that therefore does not follow a cross-origin redirect.
pub fn is_cors_non_wildcard_request_header_name(key: &str) -> (r: bool)
    ensures
        r == spec_is_cors_non_wildcard_request_header_name(key@),
{
    str_equals(key, "authorization")
}

} // verus!
