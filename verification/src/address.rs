//! From the text of a request to a cache key.
//!
//! A request names a page by an absolute URL. Equivalent spellings of one URL
//! must share a cache entry, so the key is the canonical serialization that
//! the `url` crate's parser produces.

use vstd::prelude::*;

verus! {

/// `url::ParseError`, the parser's error. It is carried from the parser to
/// [`describe`] as it is; nothing is known of what it holds.
#[verifier::external_type_specification]
#[verifier::external_body]
pub struct ExParseError(url::ParseError);

/// What `url::Url::parse` makes of `text`: the canonical serialization of
/// the absolute URL it reads, or `None` where it rejects the text.
pub uninterp spec fn canonical_url(text: Seq<char>) -> Option<Seq<char>>;

/// Calls `url::Url::parse` and hands out the serialization of the parsed
/// URL, or the parser's error.
///
/// Trusted: the result is `Ok` exactly where the parser accepts `text`, and
/// then holds the serialization that [`canonical_url`] names.
#[verifier::external_body]
fn parse_absolute(text: &str) -> (parsed: Result<String, url::ParseError>)
    ensures
        match parsed {
            Ok(serialization) => canonical_url(text@) == Some(serialization@),
            Err(_) => canonical_url(text@) is None,
        },
{
    match url::Url::parse(text) {
        Ok(url) => Ok(String::from(url)),
        Err(error) => Err(error),
    }
}

/// Renders a `url::ParseError` through its `Display` impl.
///
/// Trusted, and nothing is claimed of the wording.
#[verifier::external_body]
fn describe(error: &url::ParseError) -> (reason: String) {
    error.to_string()
}

/// A request text that is not an absolute URL.
#[derive(Debug, PartialEq, Eq)]
pub struct InputError {
    /// Why the parser turned the text down, in its own words.
    pub reason: String,
}

/// Validates `text` as an absolute URL and returns its canonical form.
pub fn normalize(text: &str) -> (key: Result<String, InputError>)
    ensures
        match key {
            Ok(canonical) => canonical_url(text@) == Some(canonical@),
            Err(_) => canonical_url(text@) is None,
        },
{
    match parse_absolute(text) {
        Ok(canonical) => Ok(canonical),
        Err(error) => Err(InputError { reason: describe(&error) }),
    }
}

} // verus!
