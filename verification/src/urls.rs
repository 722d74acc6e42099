//! Validation and resolution of report URLs through the `url` crate. The
//! parser's result is a pure function of its input, so the contracts name the
//! normalized and the joined serialization rather than restate the URL
//! grammar.

use vstd::prelude::*;

verus! {

/// Whether `url::Url::parse` accepts a string as an absolute URL: a function
/// of the string alone.
pub uninterp spec fn spec_url_ok(s: Seq<char>) -> bool;

/// The normalized serialization that `url::Url::parse` gives an absolute URL
/// string, where it parses at all.
pub uninterp spec fn spec_url_normalized(s: Seq<char>) -> Seq<char>;

/// Whether resolving `rel` against the absolute URL `base` succeeds: a
/// function of the two strings alone.
pub uninterp spec fn spec_url_join_ok(base: Seq<char>, rel: Seq<char>) -> bool;

/// The serialization of `rel` resolved against the absolute URL `base`, where
/// both steps succeed.
pub uninterp spec fn spec_url_joined(base: Seq<char>, rel: Seq<char>) -> Seq<char>;

/// Relies on `url::Url::parse` and `url::Url::as_str`: whether parsing an
/// absolute URL succeeds depends on the string alone, and `as_str` returns
/// the parsed URL's normalized serialization.
#[verifier::external_body]
pub(crate) fn parse_url(s: &str) -> (r: Option<String>)
    ensures
        r is Some <==> spec_url_ok(s@),
        r matches Some(u) ==> u@ == spec_url_normalized(s@),
{
    match url::Url::parse(s) {
        Ok(u) => Some(u.as_str().to_owned()),
        Err(_) => None,
    }
}

/// Relies on `url::Url::join` for resolving a relative reference against a
/// base URL, with `url::Url::parse` rebuilding the base from its
/// serialization and `url::Url::as_str` serializing the result: all three
/// depend on the two strings alone, so both the success and the result are
/// functions of the arguments.
#[verifier::external_body]
pub(crate) fn join_url(base: &str, rel: &str) -> (r: Option<String>)
    ensures
        r is Some <==> spec_url_join_ok(base@, rel@),
        r matches Some(u) ==> u@ == spec_url_joined(base@, rel@),
{
    match url::Url::parse(base) {
        Ok(b) => match b.join(rel) {
            Ok(u) => Some(u.as_str().to_owned()),
            Err(_) => None,
        },
        Err(_) => None,
    }
}

} // verus!
