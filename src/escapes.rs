//! Removing terminal escape sequences and non-ASCII text from messages.
use vstd::prelude::*;

verus! {

/// ANSI control sequences, and runs of non-ASCII characters.
pub const ESCAPES: &'static str = r"((\x9B|\x1B\[)[0-?]*[ -\/]*[@-~])|([^\x00-\x7F]+)";

/// Whether the regex crate compiles `pattern`.
pub uninterp spec fn regex_compiles(pattern: Seq<char>) -> bool;

/// What is left of `text` once every match of the regular expression
/// `pattern` is removed.
pub uninterp spec fn matches_removed(pattern: Seq<char>, text: Seq<char>) -> Seq<char>;

/// Relies on regex::Regex::new, which compiles `pattern` or fails, and on
/// Regex::replace_all, which replaces every non-overlapping match by the
/// empty replacement.
#[verifier::external_body]
fn remove_matches(pattern: &str, text: &str) -> (r: Option<String>)
    ensures
        r is Some <==> regex_compiles(pattern@),
        r matches Some(t) ==> t@ == matches_removed(pattern@, text@),
{
    match regex::Regex::new(pattern) {
        Ok(re) => Some(re.replace_all(text, "").into_owned()),
        Err(_) => None,
    }
}

/// `text` as it is kept in the transcript.
pub open spec fn cleaned(text: Seq<char>) -> Seq<char> {
    if regex_compiles(ESCAPES@) {
        matches_removed(ESCAPES@, text)
    } else {
        text
    }
}

/// `text` without escape sequences and non-ASCII characters.
pub fn strip_escapes(text: &str) -> (r: String)
    ensures
        r@ == cleaned(text@),
{
    match remove_matches(ESCAPES, text) {
        Some(t) => t,
        None => text.to_owned(),
    }
}

} // verus!
