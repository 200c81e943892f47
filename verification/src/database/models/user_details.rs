use crate::pattern::{is_match, matches_pattern};
use vstd::prelude::*;

verus! {

/// What a user tells of themselves.
#[derive(Debug)]
pub struct UserDetails {
    pub bio: Option<String>,
    pub pronouns: Option<String>,
    pub location: Option<String>,
    pub user_id: i32,
}

/// The form of a pair of pronouns: two words with at least one slash between them.
pub open spec fn pronoun_pattern() -> Seq<char> {
    "^\\w+/+\\w+$"@
}

impl UserDetails {
    /// Whether `s` has the form of a pair of pronouns.
    pub fn is_pronoun(s: &str) -> (b: bool)
        ensures
            b == matches_pattern(pronoun_pattern(), s@),
    {
        is_match("^\\w+/+\\w+$", s)
    }
}

} // verus!
