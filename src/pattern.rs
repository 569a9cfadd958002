//! Regular expressions, evaluated by the `fancy_regex` engine.
//!
//! Each call compiles its pattern with the engine's default options and runs
//! one search or one global substitution. The outcomes are named: they are
//! functions of the pattern and the text alone.
use vstd::prelude::*;

verus! {

/// Whether `pattern` finds a match anywhere in `text`; `None` where the
/// pattern does not compile or the search gives up (backtracking limit).
pub uninterp spec fn regex_search(pattern: Seq<char>, text: Seq<char>) -> Option<bool>;

/// `text` with every non-overlapping match of `pattern` replaced by the
/// expansion of `replacement` (`$1`, `$name` name capture groups); `None`
/// where the pattern does not compile or the search gives up.
pub uninterp spec fn regex_replace_all(
    pattern: Seq<char>,
    text: Seq<char>,
    replacement: Seq<char>,
) -> Option<Seq<char>>;

/// The characters of an optional string.
pub open spec fn text_of(s: Option<String>) -> Option<Seq<char>> {
    match s {
        Some(t) => Some(t@),
        None => None,
    }
}

/// Relies on `fancy_regex::Regex::new` and `Regex::is_match`: compiles the
/// pattern, then reports whether it matches somewhere in `text`.
#[verifier::external_body]
pub(crate) fn pattern_is_match(pattern: &str, text: &str) -> (r: Option<bool>)
    ensures
        r == regex_search(pattern@, text@),
{
    match fancy_regex::Regex::new(pattern) {
        Ok(re) => re.is_match(text).ok(),
        Err(_) => None,
    }
}

/// Relies on `fancy_regex::Regex::new` and `Regex::try_replacen` with no
/// limit (the fallible form of `replace_all`): compiles the pattern, then
/// replaces every match. Where the pattern compiles and finds no match, the
/// engine hands the text back unchanged.
#[verifier::external_body]
pub(crate) fn pattern_replace_all(
    pattern: &str,
    text: &str,
    replacement: &str,
) -> (r: Option<String>)
    ensures
        text_of(r) == regex_replace_all(pattern@, text@, replacement@),
        regex_search(pattern@, text@) == Some(false) ==> text_of(r) == Some(text@),
{
    match fancy_regex::Regex::new(pattern) {
        Ok(re) => match re.try_replacen(text, 0, replacement) {
            Ok(s) => Some(s.into_owned()),
            Err(_) => None,
        },
        Err(_) => None,
    }
}

} // verus!
