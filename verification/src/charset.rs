use crate::text::is_ascii_digit;
use vstd::prelude::*;

verus! {

/// Whether `c` is alphanumeric in Unicode's sense: what `char::is_alphanumeric` of std
/// answers for `c`.
pub uninterp spec fn unicode_alphanumeric(c: char) -> bool;

/// Whether `c` has Unicode's `White_Space` property: what `char::is_whitespace` of std
/// answers for `c`.
pub uninterp spec fn unicode_whitespace(c: char) -> bool;

/// Whether `c` has Unicode's `Lowercase` property: what `char::is_lowercase` of std
/// answers for `c`.
pub uninterp spec fn unicode_lowercase(c: char) -> bool;

/// Whether `c` has Unicode's `Uppercase` property: what `char::is_uppercase` of std
/// answers for `c`.
pub uninterp spec fn unicode_uppercase(c: char) -> bool;

/// Whether `c` is one of the 128 ASCII characters.
pub open spec fn is_ascii_char(c: char) -> bool {
    c <= '\x7f'
}

/// Among the ASCII characters, the alphanumeric ones are the letters and the digits.
pub open spec fn alphanumeric_known(c: char) -> bool {
    is_ascii_char(c) ==> unicode_alphanumeric(c) == (is_ascii_digit(c) || is_ascii_alphabetic(c))
}

/// Among the ASCII characters, those with the `White_Space` property are the space
/// and the five characters from horizontal tab to carriage return.
pub open spec fn whitespace_known(c: char) -> bool {
    is_ascii_char(c) ==> unicode_whitespace(c) == (c == ' ' || '\t' <= c <= '\r')
}

/// Among the ASCII characters, the lower-case ones are the letters `a` to `z`.
pub open spec fn lowercase_known(c: char) -> bool {
    is_ascii_char(c) ==> unicode_lowercase(c) == ('a' <= c <= 'z')
}

/// Among the ASCII characters, the upper-case ones are the letters `A` to `Z`.
pub open spec fn uppercase_known(c: char) -> bool {
    is_ascii_char(c) ==> unicode_uppercase(c) == ('A' <= c <= 'Z')
}

/// Whether it is known of every ASCII character of `s` if it is alphanumeric.
pub open spec fn alphanumerics_known(s: Seq<char>) -> bool {
    forall|i: int| 0 <= i < s.len() ==> alphanumeric_known(#[trigger] s[i])
}

/// Whether it is known of every ASCII character of `s` if it is whitespace.
pub open spec fn whitespaces_known(s: Seq<char>) -> bool {
    forall|i: int| 0 <= i < s.len() ==> whitespace_known(#[trigger] s[i])
}

/// Whether it is known of every ASCII character of `s` if it is lower case, and if
/// it is upper case.
pub open spec fn cases_known(s: Seq<char>) -> bool {
    forall|i: int|
        0 <= i < s.len() ==> lowercase_known(#[trigger] s[i]) && uppercase_known(s[i])
}

/// `char::is_alphanumeric` of std consults Unicode's tables; its answer depends on
/// the character alone and is known here by name. For an ASCII character the answer
/// is that of the tables' first 128 entries: a letter or a digit.
pub assume_specification[ char::is_alphanumeric ](c: char) -> (b: bool)
    ensures
        b == unicode_alphanumeric(c),
        is_ascii_char(c) ==> b == (is_ascii_digit(c) || is_ascii_alphabetic(c)),
;

/// `char::is_whitespace` of std consults Unicode's tables; its answer depends on the
/// character alone and is known here by name. For an ASCII character the answer is
/// that of the tables' first 128 entries: the space, or one of the five characters
/// from horizontal tab to carriage return.
pub assume_specification[ char::is_whitespace ](c: char) -> (b: bool)
    ensures
        b == unicode_whitespace(c),
        is_ascii_char(c) ==> b == (c == ' ' || '\t' <= c <= '\r'),
;

/// `char::is_lowercase` of std consults Unicode's tables; its answer depends on the
/// character alone and is known here by name. For an ASCII character the answer is
/// that of the tables' first 128 entries: a letter from `a` to `z`.
pub assume_specification[ char::is_lowercase ](c: char) -> (b: bool)
    ensures
        b == unicode_lowercase(c),
        is_ascii_char(c) ==> b == ('a' <= c <= 'z'),
;

/// `char::is_uppercase` of std consults Unicode's tables; its answer depends on the
/// character alone and is known here by name. For an ASCII character the answer is
/// that of the tables' first 128 entries: a letter from `A` to `Z`.
pub assume_specification[ char::is_uppercase ](c: char) -> (b: bool)
    ensures
        b == unicode_uppercase(c),
        is_ascii_char(c) ==> b == ('A' <= c <= 'Z'),
;

/// Space, horizontal tab, line feed, form feed or carriage return.
pub open spec fn is_ascii_whitespace(c: char) -> bool {
    c == ' ' || c == '\t' || c == '\n' || c == '\x0C' || c == '\r'
}

/// One of the 32 ASCII punctuation characters.
pub open spec fn is_ascii_punctuation(c: char) -> bool {
    ||| '!' <= c <= '/'
    ||| ':' <= c <= '@'
    ||| '[' <= c <= '`'
    ||| '{' <= c <= '~'
}

/// An ASCII letter, upper or lower case.
pub open spec fn is_ascii_alphabetic(c: char) -> bool {
    'A' <= c <= 'Z' || 'a' <= c <= 'z'
}

/// Whether `c` is a space, a horizontal tab, a line feed, a form feed or a carriage
/// return.
pub fn ascii_whitespace(c: char) -> (b: bool)
    ensures
        b == is_ascii_whitespace(c),
{
    c == ' ' || c == '\t' || c == '\n' || c == '\x0C' || c == '\r'
}

/// Whether `c` is one of the 32 ASCII punctuation characters.
pub fn ascii_punctuation(c: char) -> (b: bool)
    ensures
        b == is_ascii_punctuation(c),
{
    (c >= '!' && c <= '/') || (c >= ':' && c <= '@') || (c >= '[' && c <= '`') || (c >= '{'
        && c <= '~')
}

/// Whether `c` is an ASCII letter.
pub fn ascii_alphabetic(c: char) -> (b: bool)
    ensures
        b == is_ascii_alphabetic(c),
{
    (c >= 'A' && c <= 'Z') || (c >= 'a' && c <= 'z')
}

/// Whether every character of `s` satisfies `p`.
pub open spec fn all_chars(s: Seq<char>, p: spec_fn(char) -> bool) -> bool {
    forall|i: int| 0 <= i < s.len() ==> #[trigger] p(s[i])
}

/// Whether some character of `s` satisfies `p`.
pub open spec fn any_char(s: Seq<char>, p: spec_fn(char) -> bool) -> bool {
    exists|i: int| 0 <= i < s.len() && #[trigger] p(s[i])
}

/// A prefix extended by one character satisfies `all_chars` exactly when the prefix
/// does and the new character does; likewise for `any_char`.
pub proof fn lemma_chars_step(s: Seq<char>, k: int, p: spec_fn(char) -> bool)
    requires
        0 <= k < s.len(),
    ensures
        all_chars(s.take(k + 1), p) == (all_chars(s.take(k), p) && p(s[k])),
        any_char(s.take(k + 1), p) == (any_char(s.take(k), p) || p(s[k])),
{
    let a = s.take(k);
    let b = s.take(k + 1);
    assert(b[k] == s[k]);
    assert forall|i: int| 0 <= i < k implies a[i] == b[i] by {}
    if all_chars(b, p) {
        assert forall|i: int| 0 <= i < a.len() implies #[trigger] p(a[i]) by {}
    }
    if all_chars(a, p) && p(s[k]) {
        assert forall|i: int| 0 <= i < b.len() implies #[trigger] p(b[i]) by {}
    }
}

} // verus!
