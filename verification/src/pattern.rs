//! The pattern matcher: how often a regular expression matches the text of
//! a file.

use crate::rules::PatternRule;
use vstd::prelude::*;

verus! {

/// Whether `regex::Regex::new` accepts `pattern`: it is well-formed and its
/// compiled form stays within the crate's default size limit.
pub uninterp spec fn regex_compiles(pattern: Seq<char>) -> bool;

/// How many successive non-overlapping matches `regex::Regex::find_iter`
/// yields for the compiled `pattern` in `haystack`, scanning left to right.
pub uninterp spec fn regex_find_count(pattern: Seq<char>, haystack: Seq<char>) -> nat;

/// The text that `String::from_utf8_lossy` makes of `bytes`: valid UTF-8 is
/// kept, and each invalid sequence becomes U+FFFD.
pub uninterp spec fn utf8_lossy(bytes: Seq<u8>) -> Seq<char>;

/// Compiles `pattern` with `regex::Regex::new` and counts what `find_iter`
/// yields in `haystack`. Trusted: the result is `None` exactly where the
/// pattern does not compile, and otherwise the number of matches, both of
/// which depend on the two texts alone.
#[verifier::external_body]
fn regex_count(pattern: &str, haystack: &str) -> (found: Option<usize>)
    ensures
        found.is_some() == regex_compiles(pattern@),
        found matches Some(n) ==> n == regex_find_count(pattern@, haystack@),
{
    match regex::Regex::new(pattern) {
        Ok(re) => Some(re.find_iter(haystack).count()),
        Err(_) => None,
    }
}

/// Calls `String::from_utf8_lossy`. Trusted: the text returned depends on
/// the bytes alone.
#[verifier::external_body]
pub(crate) fn lossy_text(bytes: &[u8]) -> (text: String)
    ensures
        text@ == utf8_lossy(bytes@),
{
    String::from_utf8_lossy(bytes).into_owned()
}

/// How often `pattern` matches `text`; a pattern that does not compile
/// matches nothing.
pub open spec fn pattern_hits(text: Seq<char>, pattern: Seq<char>) -> nat {
    if regex_compiles(pattern) {
        regex_find_count(pattern, text)
    } else {
        0
    }
}

/// The match count for what the pattern engine reported: `None` stands for
/// a pattern that did not compile and counts as no match.
pub fn matches_or_none(found: Option<usize>) -> (hits: usize)
    ensures
        hits == match found {
            Some(n) => n,
            None => 0,
        },
{
    match found {
        Some(n) => n,
        None => 0,
    }
}

/// Counts the non-overlapping matches of the rule's pattern in `text`.
///
/// A pattern that does not compile gives 0; it is never an error.
pub fn count_pattern_matches(text: &str, rule: &PatternRule) -> (hits: usize)
    ensures
        hits == pattern_hits(text@, rule.pattern@),
{
    matches_or_none(regex_count(rule.pattern.as_str(), text))
}

/// A pattern that does not compile matches no text.
pub proof fn lemma_invalid_pattern_never_matches(text: Seq<char>, pattern: Seq<char>)
    requires
        !regex_compiles(pattern),
    ensures
        pattern_hits(text, pattern) == 0,
{
}

} // verus!
