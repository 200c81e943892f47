use vstd::prelude::*;

verus! {

/// Whether the regular expression `pattern`, as the `regex` crate reads it, has a
/// match anywhere in `text`; `None` where the crate does not accept the pattern.
pub uninterp spec fn regex_finds(pattern: Seq<char>, text: Seq<char>) -> Option<bool>;

/// Compiles `pattern` with `Regex::new` of the `regex` crate and asks `is_match` of
/// `text`. What the crate answers for a pattern and a text is known by name only.
#[verifier::external_body]
pub(crate) fn regex_is_match(pattern: &str, text: &str) -> (r: Option<bool>)
    ensures
        r == regex_finds(pattern@, text@),
{
    match regex::Regex::new(pattern) {
        Ok(re) => Some(re.is_match(text)),
        Err(_) => None,
    }
}

/// Whether `pattern` is accepted and has a match in `text`.
pub open spec fn matches_pattern(pattern: Seq<char>, text: Seq<char>) -> bool {
    regex_finds(pattern, text) == Some(true)
}

/// Whether `pattern` is accepted and has a match in `text`.
pub fn is_match(pattern: &str, text: &str) -> (b: bool)
    ensures
        b == matches_pattern(pattern@, text@),
{
    match regex_is_match(pattern, text) {
        Some(found) => found,
        None => false,
    }
}

} // verus!
