//! Addresses of the manager's API, resolved by the `url` crate.
//!
//! An address is kept as text. Whatever has to be decided about it, whether it
//! is a URL at all, where a path leads from it, how a parameter is escaped, is
//! asked of `url`, and the answer is text again.

use url::ParseError;
use url::Url;
use vstd::prelude::*;

verus! {

/// The error of `url`, which passes through here without being looked into.
#[verifier::external_type_specification]
#[verifier::external_body]
pub struct ExParseError(url::ParseError);

/// What `Url::parse` makes of `input`: the serialization of the URL, or `None`
/// where `input` is no absolute URL.
pub uninterp spec fn parsed_url(input: Seq<char>) -> Option<Seq<char>>;

/// What `Url::join` makes of `reference` against the URL `base`: the
/// serialization of the resolved URL, or `None` where `base` is no absolute
/// URL or `reference` cannot be resolved against it.
pub uninterp spec fn joined_url(base: Seq<char>, reference: Seq<char>) -> Option<Seq<char>>;

/// What the URL `address` reads after `append_pair` has added the parameter
/// `key` with `value` to its query, or `None` where `address` is no absolute
/// URL.
pub uninterp spec fn url_with_pair(address: Seq<char>, key: Seq<char>, value: Seq<char>) -> Option<
    Seq<char>,
>;

/// Calls `url::Url::parse` and hands back the URL's serialization. The
/// contract claims only that the outcome is the one that `parsed_url` names:
/// the same input always parses to the same text, or always fails.
#[verifier::external_body]
pub(crate) fn parse_url(input: &str) -> (parsed: Result<String, ParseError>)
    ensures
        parsed matches Ok(text) ==> parsed_url(input@) == Some(text@),
        parsed is Err ==> parsed_url(input@) is None,
{
    Url::parse(input).map(String::from)
}

/// Calls `url::Url::join` on the URL that `base` parses to and hands back the
/// serialization of the result. The contract claims only that the outcome is
/// the one that `joined_url` names.
#[verifier::external_body]
pub(crate) fn join_url(base: &str, reference: &str) -> (joined: Result<String, ParseError>)
    ensures
        joined matches Ok(text) ==> joined_url(base@, reference@) == Some(text@),
        joined is Err ==> joined_url(base@, reference@) is None,
{
    Url::parse(base)?.join(reference).map(String::from)
}

/// Calls `append_pair` on the `query_pairs_mut` of the URL that `address`
/// parses to and hands back the serialization of the result. The contract
/// claims only that the outcome is the one that `url_with_pair` names.
#[verifier::external_body]
pub(crate) fn append_query_pair(address: &str, key: &str, value: &str) -> (extended: Result<
    String,
    ParseError,
>)
    ensures
        extended matches Ok(text) ==> url_with_pair(address@, key@, value@) == Some(text@),
        extended is Err ==> url_with_pair(address@, key@, value@) is None,
{
    let mut url = Url::parse(address)?;
    url.query_pairs_mut().append_pair(key, value);
    Ok(String::from(url))
}

} // verus!
