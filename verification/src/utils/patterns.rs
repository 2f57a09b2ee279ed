//! Regular expressions, as the `regex` crate reads and matches them.
//!
//! What a pattern matches is not defined here. It is given a name, and the
//! functions of this library say what they make of it.

use vstd::prelude::*;

verus! {

/// The error with which `regex::Regex::new` refuses `pattern`, as text;
/// nothing when the pattern compiles.
pub uninterp spec fn regex_error(pattern: Seq<char>) -> Option<Seq<char>>;

/// What `regex::Regex::find` finds in `text`: the leftmost match of
/// `pattern`.
pub uninterp spec fn regex_find(pattern: Seq<char>, text: Seq<char>) -> Option<Seq<char>>;

/// What group `group` holds in the leftmost match of `pattern` in `text`,
/// as `regex::Regex::captures` and `regex::Captures::get` give it.
pub uninterp spec fn regex_group(pattern: Seq<char>, text: Seq<char>, group: nat) -> Option<
    Seq<char>,
>;

pub open spec fn text_of(o: Option<String>) -> Option<Seq<char>> {
    match o {
        Some(s) => Some(s@),
        None => None,
    }
}

pub open spec fn found_view(r: Result<Option<String>, String>) -> Result<Option<Seq<char>>, Seq<char>> {
    match r {
        Ok(o) => Ok(text_of(o)),
        Err(e) => Err(e@),
    }
}

/// Compiles `pattern` with `regex::Regex::new` and searches `text` with
/// `regex::Regex::find`. The result is the error of the compilation, or the
/// text of the leftmost match, if there is one.
#[verifier::external_body]
pub(crate) fn find_first(pattern: &str, text: &str) -> (r: Result<Option<String>, String>)
    ensures
        found_view(r) == (match regex_error(pattern@) {
            Some(e) => Err(e),
            None => Ok(regex_find(pattern@, text@)),
        }),
{
    match regex::Regex::new(pattern) {
        Ok(re) => Ok(re.find(text).map(|m| m.as_str().to_string())),
        Err(e) => Err(e.to_string()),
    }
}

/// Compiles `pattern` with `regex::Regex::new`, searches `text` with
/// `regex::Regex::captures` and reads group `group` with
/// `regex::Captures::get`. The result is the error of the compilation, or
/// the text of the group in the leftmost match; nothing when there is no
/// match or the group took no part in it.
#[verifier::external_body]
pub(crate) fn capture_group(pattern: &str, text: &str, group: usize) -> (r: Result<
    Option<String>,
    String,
>)
    ensures
        found_view(r) == (match regex_error(pattern@) {
            Some(e) => Err(e),
            None => Ok(regex_group(pattern@, text@, group as nat)),
        }),
{
    match regex::Regex::new(pattern) {
        Ok(re) => Ok(re.captures(text).and_then(|c| c.get(group)).map(|m| m.as_str().to_string())),
        Err(e) => Err(e.to_string()),
    }
}

} // verus!
