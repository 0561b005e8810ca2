//! Text primitives: case folding, substring search and the order of strings.

use vstd::prelude::*;

verus! {

/// The case-folded form of a string: the characters that
/// `str::to_lowercase` produces for it.
pub uninterp spec fn lowercase_of(s: Seq<char>) -> Seq<char>;

/// `needle` stands in `hay` at offset `at`.
pub open spec fn occurs_at(needle: Seq<char>, hay: Seq<char>, at: int) -> bool {
    &&& 0 <= at
    &&& at + needle.len() <= hay.len()
    &&& hay.subrange(at, at + needle.len()) == needle
}

/// `needle` is a contiguous part of `hay`.
pub open spec fn is_substring(needle: Seq<char>, hay: Seq<char>) -> bool {
    exists|at: int| occurs_at(needle, hay, at)
}

/// A name matches a query when the folded name contains the folded query.
pub open spec fn matches_query(name: Seq<char>, query: Seq<char>) -> bool {
    is_substring(lowercase_of(query), lowercase_of(name))
}

/// Lexicographic order of strings by the code points of their characters.
pub open spec fn lex_le(a: Seq<char>, b: Seq<char>) -> bool
    decreases a.len(),
{
    if a.len() == 0 {
        true
    } else if b.len() == 0 {
        false
    } else if a[0] == b[0] {
        lex_le(a.drop_first(), b.drop_first())
    } else {
        (a[0] as u32) < (b[0] as u32)
    }
}

/// Order of names by their folded forms.
pub open spec fn folded_le(a: Seq<char>, b: Seq<char>) -> bool {
    lex_le(lowercase_of(a), lowercase_of(b))
}

/// Any two strings are ordered one way or the other.
pub proof fn lemma_lex_le_total(a: Seq<char>, b: Seq<char>)
    ensures
        lex_le(a, b) || lex_le(b, a),
    decreases a.len(),
{
    if a.len() > 0 && b.len() > 0 {
        if a[0] == b[0] {
            lemma_lex_le_total(a.drop_first(), b.drop_first());
        } else {
            vstd::utf8::char_u32_cast(a[0], a[0] as u32);
            vstd::utf8::char_u32_cast(b[0], b[0] as u32);
        }
    }
}

/// The order of strings is transitive.
pub proof fn lemma_lex_le_transitive(a: Seq<char>, b: Seq<char>, c: Seq<char>)
    requires
        lex_le(a, b),
        lex_le(b, c),
    ensures
        lex_le(a, c),
    decreases a.len(),
{
    if a.len() > 0 && b.len() > 0 && c.len() > 0 && a[0] == b[0] && b[0] == c[0] {
        lemma_lex_le_transitive(a.drop_first(), b.drop_first(), c.drop_first());
    }
}

/// Every string is ordered before itself.
pub proof fn lemma_lex_le_reflexive(a: Seq<char>)
    ensures
        lex_le(a, a),
    decreases a.len(),
{
    if a.len() > 0 {
        lemma_lex_le_reflexive(a.drop_first());
    }
}

/// The empty string is a part of every string.
pub proof fn lemma_empty_is_substring(needle: Seq<char>, hay: Seq<char>)
    requires
        needle.len() == 0,
    ensures
        is_substring(needle, hay),
{
    assert(hay.subrange(0, 0) =~= needle);
    assert(occurs_at(needle, hay, 0));
}

/// Every string is a part of itself.
pub proof fn lemma_whole_is_substring(hay: Seq<char>)
    ensures
        is_substring(hay, hay),
{
    assert(hay.subrange(0, hay.len() as int) =~= hay);
    assert(occurs_at(hay, hay, 0));
}

/// `str::to_lowercase`: the result is the folded form of the argument, a
/// function of the argument's characters alone, and the empty string folds
/// to the empty string.
#[verifier::external_body]
pub(crate) fn lowercase(s: &str) -> (folded: String)
    ensures
        folded@ == lowercase_of(s@),
        s@.len() == 0 ==> folded@.len() == 0,
{
    s.to_lowercase()
}

/// `str::contains` with a string pattern: true exactly when the pattern is a
/// contiguous part of the string.
#[verifier::external_body]
pub(crate) fn contains_str(hay: &str, needle: &str) -> (found: bool)
    ensures
        found == is_substring(needle@, hay@),
{
    hay.contains(needle)
}

/// `<=` on `str`: strings are ordered lexicographically by their bytes, which
/// orders them by the code points of their characters.
#[verifier::external_body]
pub(crate) fn str_le(a: &str, b: &str) -> (le: bool)
    ensures
        le == lex_le(a@, b@),
{
    a <= b
}

/// `String::push`: the character is added at the end.
pub assume_specification[ String::push ](s: &mut String, ch: char)
    ensures
        final(s)@ == old(s)@.push(ch),
;

/// `String::pop`: the last character is taken away and returned, and an
/// empty string gives `None` and stays empty.
pub assume_specification[ String::pop ](s: &mut String) -> (popped: Option<char>)
    ensures
        old(s)@.len() == 0 ==> popped is None && final(s)@ == old(s)@,
        old(s)@.len() > 0 ==> popped == Some(old(s)@.last()) && final(s)@ == old(s)@.drop_last(),
;

/// Case-insensitive containment of `query` in `name`.
pub fn name_matches(name: &str, query: &str) -> (hit: bool)
    ensures
        hit == matches_query(name@, query@),
        query@.len() == 0 ==> hit,
        query@ == name@ ==> hit,
{
    let folded_name = lowercase(name);
    let folded_query = lowercase(query);
    proof {
        if query@.len() == 0 {
            lemma_empty_is_substring(folded_query@, folded_name@);
        }
        lemma_whole_is_substring(folded_name@);
    }
    contains_str(folded_name.as_str(), folded_query.as_str())
}

} // verus!
