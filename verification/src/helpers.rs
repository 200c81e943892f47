use crate::charset::{
    all_chars, alphanumeric_known, ascii_alphabetic, ascii_punctuation, ascii_whitespace,
    is_ascii_alphabetic, is_ascii_punctuation, is_ascii_whitespace, lemma_chars_step,
    unicode_alphanumeric, unicode_whitespace, whitespace_known, alphanumerics_known,
    whitespaces_known,
};
use vstd::prelude::*;

verus! {

/// The characters accepted in titles, descriptions and step texts: anything
/// alphanumeric, ASCII whitespace and ASCII punctuation.
pub open spec fn is_text_char(c: char) -> bool {
    unicode_alphanumeric(c) || is_ascii_whitespace(c) || is_ascii_punctuation(c)
        || is_ascii_alphabetic(c)
}

/// The characters accepted in a plain identifier: anything alphanumeric and any
/// whitespace.
pub open spec fn is_word_char(c: char) -> bool {
    unicode_alphanumeric(c) || unicode_whitespace(c)
}

/// A non-empty text made of accepted text characters only.
pub open spec fn is_plain_text(s: Seq<char>) -> bool {
    s.len() > 0 && all_chars(s, |c: char| is_text_char(c))
}

/// A non-empty text made of alphanumeric characters and whitespace only.
pub open spec fn is_plain_words(s: Seq<char>) -> bool {
    s.len() > 0 && all_chars(s, |c: char| is_word_char(c))
}

/// Whether `s` is a non-empty text of alphanumeric characters, ASCII whitespace and
/// ASCII punctuation. Which of the ASCII characters of `s` are alphanumeric is known
/// once the text has been looked at.
pub fn is_alnum_whitespace_and_ex_chars(s: &str) -> (b: bool)
    ensures
        b == is_plain_text(s@),
        alphanumerics_known(s@),
{
    let ghost p = |c: char| is_text_char(c);
    let ghost known = |c: char| alphanumeric_known(c);
    let mut ok = true;
    for c in it: s.chars()
        invariant
            it.seq() == s@,
            p == (|c: char| is_text_char(c)),
            known == (|c: char| alphanumeric_known(c)),
            ok == all_chars(s@.take(it.index()), p),
            all_chars(s@.take(it.index()), known),
    {
        proof {
            lemma_chars_step(s@, it.index(), p);
            lemma_chars_step(s@, it.index(), known);
        }
        let accepted = c.is_alphanumeric() || ascii_whitespace(c) || ascii_punctuation(c)
            || ascii_alphabetic(c);
        ok = ok && accepted;
    }
    proof {
        assert(s@.take(s@.len() as int) == s@);
        assert forall|i: int| 0 <= i < s@.len() implies known(#[trigger] s@[i]) by {}
    }
    ok && !s.is_empty()
}

/// Whether `s` is a non-empty text of alphanumeric characters and whitespace. Which
/// of the ASCII characters of `s` are alphanumeric, and which are whitespace, is
/// known once the text has been looked at.
pub fn is_alnum_whitespace(s: &str) -> (b: bool)
    ensures
        b == is_plain_words(s@),
        alphanumerics_known(s@),
        whitespaces_known(s@),
{
    let ghost p = |c: char| is_word_char(c);
    let ghost known = |c: char| alphanumeric_known(c) && whitespace_known(c);
    let mut ok = true;
    for c in it: s.chars()
        invariant
            it.seq() == s@,
            p == (|c: char| is_word_char(c)),
            known == (|c: char| alphanumeric_known(c) && whitespace_known(c)),
            ok == all_chars(s@.take(it.index()), p),
            all_chars(s@.take(it.index()), known),
    {
        proof {
            lemma_chars_step(s@, it.index(), p);
            lemma_chars_step(s@, it.index(), known);
        }
        let alphanumeric = c.is_alphanumeric();
        let whitespace = c.is_whitespace();
        ok = ok && (alphanumeric || whitespace);
    }
    proof {
        assert(s@.take(s@.len() as int) == s@);
        assert forall|i: int| 0 <= i < s@.len() implies known(#[trigger] s@[i]) by {}
    }
    ok && !s.is_empty()
}

} // verus!
