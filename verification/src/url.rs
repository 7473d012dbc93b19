//! Validation of the URL argument.

use vstd::prelude::*;
use crate::error::ParseError;

verus! {

/// What the URL parser of `reqwest` makes of `s`: `None` where it rejects the
/// text, else whether the URL that it read has a host.
pub uninterp spec fn url_host(s: Seq<char>) -> Option<bool>;

/// Whether `s` is an absolute URL: the parser reads it, with its scheme, and
/// finds a host in it. A text with a scheme and no host, such as
/// `mailto:someone@example.com`, is none.
pub open spec fn is_absolute_url(s: Seq<char>) -> bool {
    url_host(s) == Some(true)
}

/// Runs the `FromStr` impl of `reqwest::Url` (which is `url::Url::parse`) on
/// `s` and, where it returned `Ok`, asks the URL for `has_host()`. The parsed
/// URL is dropped. Trusted: both answers are the parser's, for this text, and
/// `None` stands for its parse error.
#[verifier::external_body]
fn url_parses(s: &str) -> (r: Option<bool>)
    ensures
        r == url_host(s@),
{
    match s.parse::<reqwest::Url>() {
        Ok(url) => Some(url.has_host()),
        Err(_) => None,
    }
}

/// Hands `s` back unchanged if the parser read it and found a host, and
/// rejects it otherwise. `parsed` is the parser's answer for `s`.
pub fn gate_url(s: &str, parsed: Option<bool>) -> (r: Result<String, ParseError>)
    ensures
        parsed == Some(true) ==> (r matches Ok(url) && url@ == s@),
        parsed != Some(true) ==> r == Err::<String, ParseError>(ParseError::InvalidUrl),
{
    match parsed {
        Some(true) => Ok(s.to_owned()),
        _ => Err(ParseError::InvalidUrl),
    }
}

/// Checks that `s` is an absolute URL, with scheme and host. The text itself
/// is returned, not a normalised form of it.
pub fn parse_url(s: &str) -> (r: Result<String, ParseError>)
    ensures
        is_absolute_url(s@) ==> (r matches Ok(url) && url@ == s@),
        !is_absolute_url(s@) ==> r == Err::<String, ParseError>(ParseError::InvalidUrl),
{
    gate_url(s, url_parses(s))
}

} // verus!
