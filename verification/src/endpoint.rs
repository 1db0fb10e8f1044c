//! URLs as texts, and the trusted boundary to the `url` crate.

use vstd::prelude::*;

verus! {

/// `url::ParseError`: why a text is no URL. It is carried, never looked into.
#[verifier::external_type_specification]
#[verifier::external_body]
pub struct ExParseError(url::ParseError);

/// The serialization of the URL that `url::Url::parse` reads from a text, or
/// `None` where the text is no URL.
pub uninterp spec fn parsed_url(text: Seq<char>) -> Option<Seq<char>>;

/// The serialization of the URL that `url::Url::join` resolves `path` to
/// against the URL that `base` parses to, or `None` where `base` is no URL or
/// `path` cannot be resolved against it.
pub uninterp spec fn joined_url(base: Seq<char>, path: Seq<char>) -> Option<Seq<char>>;

/// Reads a URL and writes it back in its normal form.
///
/// Trusted: this is `url::Url::parse`, and the conversion of the URL into its
/// serialization. The contract names the result and claims nothing else.
#[verifier::external_body]
pub(crate) fn parse_url(text: &str) -> (url: Result<String, url::ParseError>)
    ensures
        match parsed_url(text@) {
            Some(serialization) => url is Ok && url->Ok_0@ == serialization,
            None => url is Err,
        },
{
    match url::Url::parse(text) {
        Ok(url) => Ok(String::from(url)),
        Err(error) => Err(error),
    }
}

/// Resolves `path` against the URL that `base` holds.
///
/// Trusted: this is `url::Url::join` on the URL that `url::Url::parse` reads
/// from `base`, and the conversion of the URL into its serialization. The
/// contract names the result and claims nothing else.
#[verifier::external_body]
pub(crate) fn join_url(base: &str, path: &str) -> (url: Result<String, url::ParseError>)
    ensures
        match joined_url(base@, path@) {
            Some(serialization) => url is Ok && url->Ok_0@ == serialization,
            None => url is Err,
        },
{
    match url::Url::parse(base)?.join(path) {
        Ok(url) => Ok(String::from(url)),
        Err(error) => Err(error),
    }
}

} // verus!
