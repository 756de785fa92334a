//! Regular expressions, as the `regex` crate matches them.
//!
//! Nothing in this file is proved: it states what the crate's functions are
//! taken to compute. What a pattern matches is not written out here; it is
//! named, and the rest of the library reasons about the names.

use regex::Regex;
use vstd::prelude::*;

verus! {

/// What `Regex::new` makes of `pattern`: `None` where it compiles, else the
/// message of the error it returns.
pub uninterp spec fn regex_new_error(pattern: Seq<char>) -> Option<Seq<char>>;

/// Whether `Regex::new` accepts `pattern`.
pub open spec fn regex_compiles(pattern: Seq<char>) -> bool {
    regex_new_error(pattern) is None
}

/// What `Regex::is_match` returns for the regex compiled from `pattern` on
/// `haystack`: whether the pattern matches anywhere in it.
pub uninterp spec fn regex_is_match(pattern: Seq<char>, haystack: Seq<char>) -> bool;

/// What `Regex::captures` returns for the regex compiled from `pattern` on
/// `haystack`: `None` where there is no match, else the capture groups of the
/// leftmost match, by index. Group 0 is the whole match; a group that took no
/// part in the match is `None`.
pub uninterp spec fn regex_captures(pattern: Seq<char>, haystack: Seq<char>) -> Option<
    Seq<Option<Seq<char>>>,
>;

/// The capture groups that `pattern` finds in `haystack`: `None` where the
/// pattern does not compile or does not match.
pub open spec fn captures_of(pattern: Seq<char>, haystack: Seq<char>) -> Option<
    Seq<Option<Seq<char>>>,
> {
    if regex_compiles(pattern) {
        regex_captures(pattern, haystack)
    } else {
        None
    }
}

/// Whether `pattern` compiles and matches somewhere in `haystack`.
pub open spec fn finds(pattern: Seq<char>, haystack: Seq<char>) -> bool {
    regex_compiles(pattern) && regex_is_match(pattern, haystack)
}

/// Calls `Regex::new` on `pattern` and drops the compiled regex. Where the
/// call fails, the result is the error's message as `Display` writes it.
#[verifier::external_body]
pub(crate) fn check_pattern(pattern: &str) -> (r: Option<String>)
    ensures
        r.deep_view() == regex_new_error(pattern@),
{
    Regex::new(pattern).err().map(|e| e.to_string())
}

/// Compiles `pattern` and calls `Regex::is_match` on `haystack`. `None`
/// where the pattern does not compile.
#[verifier::external_body]
pub(crate) fn is_match(pattern: &str, haystack: &str) -> (r: Option<bool>)
    ensures
        r is Some <==> regex_compiles(pattern@),
        r matches Some(found) ==> found == regex_is_match(pattern@, haystack@),
{
    match Regex::new(pattern) {
        Ok(re) => Some(re.is_match(haystack)),
        Err(_) => None,
    }
}

/// Compiles `pattern` and calls `Regex::captures` on `haystack`, copying
/// each group's text out. `None` where the pattern does not compile or does
/// not match.
#[verifier::external_body]
pub(crate) fn captures(pattern: &str, haystack: &str) -> (r: Option<Vec<Option<String>>>)
    ensures
        regex_compiles(pattern@) ==> r.deep_view() == regex_captures(pattern@, haystack@),
        !regex_compiles(pattern@) ==> r is None,
{
    let re = Regex::new(pattern).ok()?;
    let caps = re.captures(haystack)?;
    Some(caps.iter().map(|m| m.map(|m| m.as_str().to_string())).collect())
}

} // verus!
