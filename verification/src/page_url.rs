//! The address of a series page: its slug, and the title that the slug
//! stands for.

use crate::error::{ErrorKind, Failure, FailureModel};
use crate::text::{
    chars_of, replace_all, replace_all_of, string_of, to_uppercase, uppercase_of,
};
use url::Url;
use vstd::prelude::*;

verus! {

/// What `url::Url::parse` makes of a text. Where it is an absolute URL: the
/// last of its path segments (`Url::path_segments`), and `Ok(None)` for a
/// URL that cannot be a base, which has no segments. Where it is not: the
/// words in which the parser says why (its error, displayed).
pub uninterp spec fn url_path_tail(url: Seq<char>) -> Result<Option<Seq<char>>, Seq<char>>;

/// The model of what the wrapper hands back.
pub open spec fn tail_view(parsed: Result<Option<String>, String>) -> Result<
    Option<Seq<char>>,
    Seq<char>,
> {
    match parsed {
        Ok(tail) => Ok(tail.deep_view()),
        Err(words) => Err(words@),
    }
}

/// Calls `url::Url::parse` and, on the URL it gives, `Url::path_segments`,
/// of which it takes the last. An error of the parser is handed back in the
/// parser's own words. The result is only named.
#[verifier::external_body]
pub(crate) fn last_path_segment(url: &str) -> (parsed: Result<Option<String>, String>)
    ensures
        tail_view(parsed) == url_path_tail(url@),
{
    match Url::parse(url) {
        Ok(u) => Ok(u.path_segments().and_then(|mut s| s.next_back()).map(str::to_string)),
        Err(error) => Err(error.to_string()),
    }
}

/// The slug of a series whose page address has no path segments.
pub open spec fn unknown_series() -> Seq<char> {
    "unknown-series"@
}

/// The slug that the last path segment of an address gives.
pub open spec fn slug_of_tail(tail: Option<Seq<char>>) -> Seq<char> {
    match tail {
        Some(segment) => segment,
        None => unknown_series(),
    }
}

/// The slug that the last path segment of an address gives.
pub fn slug_from_tail(tail: Option<String>) -> (slug: String)
    ensures
        slug@ == slug_of_tail(tail.deep_view()),
{
    match tail {
        Some(segment) => segment,
        None => "unknown-series".to_owned(),
    }
}

/// The failure that an invalid address gives: the words of the parser
/// after a fixed phrase.
pub open spec fn invalid_url(words: Seq<char>) -> FailureModel {
    FailureModel { kind: ErrorKind::InvalidInput, cause: "Invalid URL: "@ + words }
}

/// What an address gives: the slug of the series, or the failure where the
/// text is not an absolute URL.
pub open spec fn slug_of_url(url: Seq<char>) -> Result<Seq<char>, FailureModel> {
    match url_path_tail(url) {
        Ok(tail) => Ok(slug_of_tail(tail)),
        Err(words) => Err(invalid_url(words)),
    }
}

/// The model of a slug or a failure.
pub open spec fn slug_view(parsed: Result<String, Failure>) -> Result<Seq<char>, FailureModel> {
    match parsed {
        Ok(slug) => Ok(slug@),
        Err(failure) => Err(failure.deep_view()),
    }
}

/// Takes the slug of a series from the address of its page: the last
/// segment of the path.
pub fn parse_url(url: &str) -> (parsed: Result<String, Failure>)
    ensures
        slug_view(parsed) == slug_of_url(url@),
{
    match last_path_segment(url) {
        Ok(tail) => Ok(slug_from_tail(tail)),
        Err(words) => Err(
            Failure::with_detail(ErrorKind::InvalidInput, "Invalid URL: ", words.as_str()),
        ),
    }
}

/// The title that a slug stands for: hyphens turned to spaces, in upper
/// case.
pub open spec fn title_of_slug(slug: Seq<char>) -> Seq<char> {
    uppercase_of(replace_all_of(slug, "-"@, " "@))
}

/// The slug with its hyphens turned to spaces.
pub fn spaced_slug(slug: &str) -> (spaced: String)
    ensures
        spaced@ == replace_all_of(slug@, "-"@, " "@),
{
    let chars = chars_of(slug);
    let hyphen = chars_of("-");
    let space = chars_of(" ");
    let spaced = replace_all(chars.as_slice(), hyphen.as_slice(), space.as_slice());
    string_of(spaced.as_slice())
}

/// The title that a slug stands for.
pub fn series_title(slug: &str) -> (title: String)
    ensures
        title@ == title_of_slug(slug@),
{
    let spaced = spaced_slug(slug);
    to_uppercase(spaced.as_str())
}

} // verus!
