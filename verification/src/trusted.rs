//! The calls this library makes into other crates. Verus takes the contracts
//! in this file on trust; everything else in the library is proved from them.
use vstd::prelude::*;

verus! {

/// `url::ParseError`, the reason the `url` crate gives for refusing a text
/// as an address. The library carries it through and reads nothing in it.
#[verifier::external_type_specification]
#[verifier::external_body]
pub struct ExParseError(url::ParseError);

/// `regex::Error`, the reason the `regex` crate gives for refusing a
/// pattern. The library carries it through and reads nothing in it.
#[verifier::external_type_specification]
#[verifier::external_body]
pub struct ExRegexError(regex::Error);

/// The query of an address as the `url` crate reads it: the decoded
/// name/value pairs in the order they are written, or `None` where the text
/// is no absolute address.
pub uninterp spec fn query_pairs_of(address: Seq<char>) -> Option<Seq<(Seq<char>, Seq<char>)>>;

/// `url::Url::parse` followed by `Url::query_pairs`.
///
/// Both are functions of the text alone, and neither panics. The contract
/// gives their combined result the name [`query_pairs_of`] and claims nothing
/// else about it.
#[verifier::external_body]
pub(crate) fn parse_query_pairs(address: &str) -> (parsed: Result<
    Vec<(String, String)>,
    url::ParseError,
>)
    ensures
        match parsed {
            Ok(pairs) => query_pairs_of(address@) == Some(pairs.deep_view()),
            Err(_) => query_pairs_of(address@) is None,
        },
{
    let parsed = url::Url::parse(address)?;
    Ok(parsed.query_pairs().map(|(name, value)| (name.into_owned(), value.into_owned())).collect())
}

/// `ToString::to_string` on a `url::ParseError`: the crate's own wording of
/// the failure. Nothing is claimed about the text.
#[verifier::external_body]
pub(crate) fn parse_error_text(error: &url::ParseError) -> String {
    error.to_string()
}

/// The matches of a pattern in a text as the `regex` crate finds them: the
/// matched pieces, leftmost first and not overlapping, or `None` where the
/// crate refuses the pattern.
pub uninterp spec fn regex_matches(pattern: Seq<char>, text: Seq<char>) -> Option<Seq<Seq<char>>>;

/// `regex::Regex::new` followed by `Regex::find_iter`.
///
/// Both are functions of their arguments alone, and neither panics. The
/// contract gives their combined result the name [`regex_matches`] and claims
/// nothing else about it. Whether a pattern is refused for its size is a
/// matter of the limits the crate was built with; the library searches with
/// one short pattern of its own.
#[verifier::external_body]
pub(crate) fn find_matches(pattern: &str, text: &str) -> (found: Result<Vec<String>, regex::Error>)
    ensures
        match found {
            Ok(pieces) => regex_matches(pattern@, text@) == Some(pieces.deep_view()),
            Err(_) => regex_matches(pattern@, text@) is None,
        },
{
    let regex = regex::Regex::new(pattern)?;
    Ok(regex.find_iter(text).map(|piece| piece.as_str().to_owned()).collect())
}

/// `ToString::to_string` on a `regex::Error`: the crate's own wording of the
/// failure. Nothing is claimed about the text.
#[verifier::external_body]
pub(crate) fn regex_error_text(error: &regex::Error) -> String {
    error.to_string()
}

} // verus!
