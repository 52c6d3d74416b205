//! Checking that a piece of text is an address the renderer can be sent to.

use vstd::prelude::*;

verus! {

/// What the `url` crate makes of `text`: the address in its normal form if
/// it is an absolute URL, and otherwise the crate's words for what is wrong
/// with it.
pub uninterp spec fn parsed_url(text: Seq<char>) -> Result<Seq<char>, Seq<char>>;

/// `parsed` with the text taken out of the strings.
pub open spec fn text_of(parsed: Result<String, String>) -> Result<Seq<char>, Seq<char>> {
    match parsed {
        Ok(address) => Ok(address@),
        Err(reason) => Err(reason@),
    }
}

/// Calls `url::Url::parse`. An address that parses comes back as the crate
/// serialises it, an error as the crate's `Display` words it. Both depend on
/// the text alone.
#[verifier::external_body]
fn parse_url(text: &str) -> (parsed: Result<String, String>)
    ensures
        text_of(parsed) == parsed_url(text@),
{
    match url::Url::parse(text) {
        Ok(address) => Ok(String::from(address)),
        Err(error) => Err(error.to_string()),
    }
}

/// The normal form of an address, or what is wrong with it.
pub fn normalize_url(text: &str) -> (parsed: Result<String, String>)
    ensures
        text_of(parsed) == parsed_url(text@),
{
    parse_url(text)
}

/// The scheme of `text` as the `url` crate reads it, in lower case and
/// without the colon that follows it; `None` where `text` is no absolute
/// URL.
pub uninterp spec fn scheme_of(text: Seq<char>) -> Option<Seq<char>>;

/// Calls `url::Url::parse` and, on an address that parses, `Url::scheme`.
/// The scheme depends on the text alone, and there is one exactly where the
/// text parses.
#[verifier::external_body]
fn url_scheme(text: &str) -> (scheme: Option<String>)
    ensures
        scheme.deep_view() == scheme_of(text@),
        scheme is Some <==> parsed_url(text@) is Ok,
{
    match url::Url::parse(text) {
        Ok(address) => Some(address.scheme().to_owned()),
        Err(_) => None,
    }
}

/// The scheme of an address, or `None` if it is no absolute URL.
pub fn scheme_of_url(text: &str) -> (scheme: Option<String>)
    ensures
        scheme.deep_view() == scheme_of(text@),
        scheme is Some <==> parsed_url(text@) is Ok,
{
    url_scheme(text)
}

} // verus!
