//! Text matched against a regular expression. The matching is done by the
//! `regex` crate and is not verified here: this module says what is taken
//! on trust.

use vstd::prelude::*;

verus! {

/// The error of the `regex` crate, `regex::Error`. Nothing is known of what
/// it holds.
#[verifier::external_type_specification]
#[verifier::external_body]
pub struct ExRegexError(regex::Error);

/// Whether `regex::Regex::new` accepts `pattern` as a regular expression.
pub uninterp spec fn regex_compiles(pattern: Seq<char>) -> bool;

/// Whether `regex::Regex::is_match` finds a match in `haystack` for the
/// regular expression that `regex::Regex::new` makes of `pattern`.
pub uninterp spec fn regex_finds(pattern: Seq<char>, haystack: Seq<char>) -> bool;

/// Compiles `pattern` with `regex::Regex::new` and searches `haystack` with
/// `regex::Regex::is_match`.
///
/// Taken on trust: the outcome depends on the two texts alone. Whether the
/// pattern compiles is `regex_compiles`; where it does, whether a match was
/// found is `regex_finds`. Nothing is claimed of which patterns compile or
/// which texts match.
#[verifier::external_body]
pub(crate) fn find_match(pattern: &str, haystack: &str) -> (found: Result<bool, regex::Error>)
    ensures
        (found is Ok) <==> regex_compiles(pattern@),
        found matches Ok(hit) ==> hit == regex_finds(pattern@, haystack@),
{
    match regex::Regex::new(pattern) {
        Ok(expression) => Ok(expression.is_match(haystack)),
        Err(error) => Err(error),
    }
}

} // verus!
