use crate::charset::{
    all_chars, any_char, cases_known, lemma_chars_step, lowercase_known, unicode_lowercase,
    unicode_uppercase, unicode_whitespace, uppercase_known, whitespace_known,
    whitespaces_known,
};
use crate::text::{digit_of, is_ascii_digit};
use vstd::prelude::*;

verus! {

/// One of the characters `& @ # % ^ * ( ) ! ? < >`.
pub open spec fn is_special(c: char) -> bool {
    ||| c == '&'
    ||| c == '@'
    ||| c == '#'
    ||| c == '%'
    ||| c == '^'
    ||| c == '*'
    ||| c == '('
    ||| c == ')'
    ||| c == '!'
    ||| c == '?'
    ||| c == '<'
    ||| c == '>'
}

/// How many bytes a text takes in UTF-8, as a length that a machine can hold.
pub open spec fn byte_length(s: Seq<char>) -> usize {
    vstd::utf8::encode_utf8(s).len() as usize
}

/// A password that is strong enough: no whitespace; an upper-case letter, a
/// lower-case letter, a digit and a special character; at least eight bytes.
pub open spec fn is_strong_password(s: Seq<char>) -> bool {
    &&& !any_char(s, |c: char| unicode_whitespace(c))
    &&& any_char(s, |c: char| unicode_uppercase(c))
    &&& any_char(s, |c: char| unicode_lowercase(c))
    &&& any_char(s, |c: char| is_ascii_digit(c))
    &&& any_char(s, |c: char| is_special(c))
    &&& byte_length(s) >= 8
}

/// Whether `c` is one of the characters `& @ # % ^ * ( ) ! ? < >`.
pub fn special_character(c: char) -> (b: bool)
    ensures
        b == is_special(c),
{
    c == '&' || c == '@' || c == '#' || c == '%' || c == '^' || c == '*' || c == '(' || c == ')'
        || c == '!' || c == '?' || c == '<' || c == '>'
}

/// What is known of `c` once a password that holds it has been looked at: where
/// `c` is an ASCII character, whether it is whitespace, lower case or upper case.
pub open spec fn password_char_known(c: char) -> bool {
    whitespace_known(c) && lowercase_known(c) && uppercase_known(c)
}

/// What is known of a password once it has been looked at: of each of its ASCII
/// characters, whether it is whitespace, lower case or upper case.
pub open spec fn password_known(s: Seq<char>) -> bool {
    whitespaces_known(s) && cases_known(s)
}

/// Whether `s` is strong enough for a password. Of the ASCII characters of `s` it is
/// known afterwards which are whitespace, lower case and upper case.
pub fn is_password_valid(s: &str) -> (b: bool)
    ensures
        b == is_strong_password(s@),
        password_known(s@),
{
    let mut has_whitespace = false;
    let mut has_upper = false;
    let mut has_lower = false;
    let mut has_digit = false;
    let mut has_special_character = false;
    let ghost whitespace = |c: char| unicode_whitespace(c);
    let ghost upper = |c: char| unicode_uppercase(c);
    let ghost lower = |c: char| unicode_lowercase(c);
    let ghost digit = |c: char| is_ascii_digit(c);
    let ghost special = |c: char| is_special(c);
    let ghost known = |c: char| password_char_known(c);
    for c in it: s.chars()
        invariant
            it.seq() == s@,
            whitespace == (|c: char| unicode_whitespace(c)),
            upper == (|c: char| unicode_uppercase(c)),
            lower == (|c: char| unicode_lowercase(c)),
            digit == (|c: char| is_ascii_digit(c)),
            special == (|c: char| is_special(c)),
            known == (|c: char| password_char_known(c)),
            has_whitespace == any_char(s@.take(it.index()), whitespace),
            has_upper == any_char(s@.take(it.index()), upper),
            has_lower == any_char(s@.take(it.index()), lower),
            has_digit == any_char(s@.take(it.index()), digit),
            has_special_character == any_char(s@.take(it.index()), special),
            all_chars(s@.take(it.index()), known),
    {
        proof {
            lemma_chars_step(s@, it.index(), whitespace);
            lemma_chars_step(s@, it.index(), upper);
            lemma_chars_step(s@, it.index(), lower);
            lemma_chars_step(s@, it.index(), digit);
            lemma_chars_step(s@, it.index(), special);
            lemma_chars_step(s@, it.index(), known);
        }
        let is_whitespace = c.is_whitespace();
        let is_lower = c.is_lowercase();
        let is_upper = c.is_uppercase();
        has_whitespace = has_whitespace || is_whitespace;
        has_lower = has_lower || is_lower;
        has_upper = has_upper || is_upper;
        has_digit = has_digit || digit_of(c).is_some();
        has_special_character = has_special_character || special_character(c);
    }
    proof {
        assert(s@.take(s@.len() as int) == s@);
        assert forall|i: int| 0 <= i < s@.len() implies known(#[trigger] s@[i]) by {}
    }
    !has_whitespace && has_upper && has_lower && has_digit && has_special_character && s.len()
        >= 8
}

} // verus!
