//! The hash that the source of an archive announces, by which the cached
//! archive is judged.

use crate::id::{PackageId, Version};
use crate::install::machine::{initial, Installer};
use vstd::prelude::*;

verus! {

/// `http::HeaderMap`, the headers of a response.
#[verifier::external_type_specification]
#[verifier::external_body]
#[verifier::reject_recursive_types(T)]
pub struct ExHeaderMap<T>(http::HeaderMap<T>);

/// `http::HeaderValue`, the value of one header.
#[verifier::external_type_specification]
#[verifier::external_body]
pub struct ExHeaderValue(http::HeaderValue);

/// What a header map holds: for each header name, in lower case, the bytes
/// of the first value under that name.
pub uninterp spec fn first_values(headers: http::HeaderMap<http::HeaderValue>) -> Map<
    Seq<char>,
    Seq<u8>,
>;

/// The header in which a source announces the hash of the archive.
pub const HASH_HEADER: &'static str = "x-s9pk-hash";

/// Whether a text is a header name in lower case: not empty, and made of
/// lower-case letters, digits and hyphens.
pub open spec fn is_lower_header_name(name: Seq<char>) -> bool {
    &&& name.len() > 0
    &&& forall|i: int|
        0 <= i < name.len() ==> ('a' <= #[trigger] name[i] && name[i] <= 'z') || ('0' <= name[i]
            && name[i] <= '9') || name[i] == '-'
}

/// The value of a header, if the map holds the header.
pub open spec fn header_value(
    headers: http::HeaderMap<http::HeaderValue>,
    name: Seq<char>,
) -> Option<Seq<u8>> {
    if first_values(headers).contains_key(name) {
        Some(first_values(headers)[name])
    } else {
        None
    }
}

/// Calls `http::HeaderMap::get`, which returns the first value under a
/// header name, or nothing where the map has no value under it, and copies
/// the bytes of the value.
#[verifier::external_body]
fn header_bytes(headers: &http::HeaderMap<http::HeaderValue>, name: &str) -> (value: Option<
    Vec<u8>,
>)
    requires
        is_lower_header_name(name@),
    ensures
        value is Some == first_values(*headers).contains_key(name@),
        value matches Some(bytes) ==> bytes@ == first_values(*headers)[name@],
{
    match headers.get(name) {
        Some(v) => Some(v.as_bytes().to_vec()),
        None => None,
    }
}

/// The hash that the source announces in its `x-s9pk-hash` header, if it
/// announces one.
pub fn declared_hash(headers: &http::HeaderMap<http::HeaderValue>) -> (hash: Option<Vec<u8>>)
    ensures
        hash is Some == header_value(*headers, HASH_HEADER@) is Some,
        hash matches Some(bytes) ==> Some(bytes@) == header_value(*headers, HASH_HEADER@),
{
    proof {
        reveal_strlit("x-s9pk-hash");
    }
    header_bytes(headers, HASH_HEADER)
}

impl Installer {
    /// The installation of a package version from a response with these
    /// headers and this announced length.
    pub fn for_response(
        id: PackageId,
        version: Version,
        content_length: Option<u64>,
        headers: &http::HeaderMap<http::HeaderValue>,
    ) -> (installer: Installer)
        ensures
            installer@ == initial(
                id@,
                version,
                content_length,
                header_value(*headers, HASH_HEADER@),
            ),
    {
        Installer::new(id, version, content_length, declared_hash(headers))
    }
}

} // verus!
