//! Links to what the bot can play.

use url::Url;
use vstd::prelude::*;

verus! {

/// What `url::Url::parse` says of a text that is no URL.
#[verifier::external_type_specification]
#[verifier::external_body]
pub struct ExParseError(url::ParseError);

/// The URL that `url::Url::parse` reads in a text, as it writes it back, or
/// `None` where it reads none.
pub uninterp spec fn url_read(text: Seq<char>) -> Option<Seq<char>>;

/// Calls `url::Url::parse` and turns the URL back into text with its
/// `Display`. Claimed: the outcome depends on the text alone; it is named
/// `url_read`.
#[verifier::external_body]
fn read_url(text: &str) -> (res: Result<String, url::ParseError>)
    ensures
        res is Ok == url_read(text@) is Some,
        res matches Ok(url) ==> url_read(text@) == Some(url@),
{
    match Url::parse(text) {
        Ok(url) => Ok(url.to_string()),
        Err(e) => Err(e),
    }
}

/// A text is not a URL.
#[derive(Clone, Copy, Debug, PartialEq, Eq)]
pub struct BadUrl;

/// Reads an absolute URL and gives it in its normal form.
pub fn parse_url(text: &str) -> (res: Result<String, BadUrl>)
    ensures
        match url_read(text@) {
            Some(url) => res matches Ok(u) && u@ == url,
            None => res is Err,
        },
{
    match read_url(text) {
        Ok(url) => Ok(url),
        Err(_) => Err(BadUrl),
    }
}

} // verus!
