//! Pattern matching by the `regex` crate.
//!
//! The patterns of this crate that need Unicode word boundaries, digit
//! classes or case folding are matched by `regex`. What it answers is a
//! function of the pattern and the text alone; it is given a name here and
//! taken on trust. Patterns made of plain characters and white space, such
//! as the tags of feed HTML, are matched by this crate itself.

use vstd::prelude::*;

verus! {

/// Whether `pattern` matches somewhere in `text`, as `regex` decides it;
/// `None` where `regex` does not accept the pattern.
pub uninterp spec fn regex_is_match(pattern: Seq<char>, text: Seq<char>) -> Option<bool>;

/// The part of `text` that capture group `group` of `pattern` took in the
/// leftmost match, as `regex` decides it; `None` where `regex` does not
/// accept the pattern, where nothing matches, and where the group does not
/// exist or took no part in the match.
pub uninterp spec fn regex_capture(pattern: Seq<char>, text: Seq<char>, group: nat) -> Option<
    Seq<char>,
>;

/// The parts of `text` between the matches of `pattern`, in order, as
/// `regex` decides them; `None` where `regex` does not accept the pattern.
pub uninterp spec fn regex_split(pattern: Seq<char>, text: Seq<char>) -> Option<Seq<Seq<char>>>;

/// Calls `regex::Regex::new` and `regex::Regex::is_match`.
///
/// Trusted: the answer is the one named `regex_is_match`, and a pattern
/// that does not compile gives `None`.
#[verifier::external_body]
pub(crate) fn is_match(pattern: &str, text: &str) -> (found: Option<bool>)
    ensures
        found == regex_is_match(pattern@, text@),
{
    match regex::Regex::new(pattern) {
        Ok(re) => Some(re.is_match(text)),
        Err(_) => None,
    }
}

/// Calls `regex::Regex::new`, `regex::Regex::captures` and
/// `regex::Captures::get`.
///
/// Trusted: the answer is the one named `regex_capture`. A pattern that
/// does not compile, a text without a match and a group that took no part
/// all give `None`.
#[verifier::external_body]
pub(crate) fn capture(pattern: &str, text: &str, group: usize) -> (part: Option<String>)
    ensures
        part.deep_view() == regex_capture(pattern@, text@, group as nat),
{
    match regex::Regex::new(pattern) {
        Ok(re) => re.captures(text).and_then(|c| c.get(group).map(|m| m.as_str().to_string())),
        Err(_) => None,
    }
}

/// Calls `regex::Regex::new` and `regex::Regex::split`.
///
/// Trusted: the answer is the one named `regex_split`, and a pattern that
/// does not compile gives `None`.
#[verifier::external_body]
pub(crate) fn split(pattern: &str, text: &str) -> (parts: Option<Vec<String>>)
    ensures
        parts.deep_view() == regex_split(pattern@, text@),
{
    match regex::Regex::new(pattern) {
        Ok(re) => Some(re.split(text).map(|part| part.to_string()).collect()),
        Err(_) => None,
    }
}

} // verus!
