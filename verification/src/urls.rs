//! URL parsing and resolution, through the HTTP client's URL type.
//!
//! What counts as a valid absolute URL, and what resolving a relative path
//! against a base yields, is the business of the URL implementation the
//! client uses; this module gives those two results names and trusts the
//! implementation for them.

use vstd::prelude::*;

verus! {

/// What parsing a string as an absolute URL answers: the normalized
/// serialization of the URL when the string is a valid absolute URL, and
/// nothing otherwise. A function of the string alone.
pub uninterp spec fn parsed_url(s: Seq<char>) -> Option<Seq<char>>;

/// What resolving a (possibly relative) path against a base URL string
/// yields: the serialization of the resolved URL, and nothing where the base
/// is not a valid absolute URL or resolution fails. A function of the two
/// strings alone.
pub uninterp spec fn joined_url(base: Seq<char>, path: Seq<char>) -> Option<Seq<char>>;

/// Relies on surf::Url::parse (the url crate's Url::parse): it parses an
/// absolute URL, failing exactly on strings that are not one, and the
/// serialization is read back with the url crate's From<Url> for String.
#[verifier::external_body]
pub(crate) fn parse_url(s: &str) -> (r: Option<String>)
    ensures
        r is Some <==> parsed_url(s@) is Some,
        (r matches Some(u) ==> parsed_url(s@) == Some(u@)),
{
    match surf::Url::parse(s) {
        Ok(u) => Some(String::from(u)),
        Err(_) => None,
    }
}

/// Relies on surf::Url::parse and surf::Url::join (the url crate): `path`
/// is resolved against the absolute base URL `base`, and the result's
/// serialization is read back with From<Url> for String.
#[verifier::external_body]
pub(crate) fn join_url(base: &str, path: &str) -> (r: Option<String>)
    ensures
        r is Some <==> joined_url(base@, path@) is Some,
        (r matches Some(u) ==> joined_url(base@, path@) == Some(u@)),
{
    match surf::Url::parse(base) {
        Ok(b) => match b.join(path) {
            Ok(u) => Some(String::from(u)),
            Err(_) => None,
        },
        Err(_) => None,
    }
}

} // verus!
