//! Character-level helpers on strings.
//!
//! Contracts speak of a string through its view, the sequence of its
//! characters. Two things are taken from the standard library without proof:
//! the lower-case form of a string and the appending of one character.

use vstd::prelude::*;

verus! {

/// The lower-case form of a text, as `str::to_lowercase` computes it.
///
/// The mapping follows the Unicode tables linked into the standard library and
/// is not spelled out here; contracts only rely on it being a function of the
/// characters of its argument.
pub uninterp spec fn lowercase(s: Seq<char>) -> Seq<char>;

/// Calls `str::to_lowercase`. Trusted: the result is the text that `lowercase`
/// names for the characters of `s`.
#[verifier::external_body]
pub(crate) fn to_lowercase(s: &str) -> (r: String)
    ensures
        r@ == lowercase(s@),
{
    s.to_lowercase()
}

/// Calls `String::push`. Trusted: afterwards the string holds its former
/// characters followed by `c`.
#[verifier::external_body]
pub(crate) fn push_char(s: &mut String, c: char)
    ensures
        final(s)@ == old(s)@.push(c),
{
    s.push(c)
}

/// `s` with every occurrence of `from` replaced by `to`.
pub open spec fn replaced(s: Seq<char>, from: char, to: char) -> Seq<char> {
    Seq::new(s.len(), |i: int| if s[i] == from { to } else { s[i] })
}

/// The test that a character differs from `c`.
pub open spec fn other_than(c: char) -> spec_fn(char) -> bool {
    |x: char| x != c
}

/// `s` with every occurrence of `c` taken out.
pub open spec fn without(s: Seq<char>, c: char) -> Seq<char> {
    s.filter(other_than(c))
}

/// Replaces every `from` in `s` by `to`.
pub fn replace_char(s: &str, from: char, to: char) -> (r: String)
    ensures
        r@ == replaced(s@, from, to),
{
    let mut out = String::new();
    for c in it: s.chars()
        invariant
            it.seq() == s@,
            out@ == replaced(s@.take(it.index()), from, to),
    {
        if c == from {
            push_char(&mut out, to);
        } else {
            push_char(&mut out, c);
        }
        assert(out@ =~= replaced(s@.take(it.index() + 1), from, to));
    }
    assert(s@.take(s@.len() as int) =~= s@);
    out
}

/// Removes every `c` from `s`.
pub fn strip_char(s: &str, c: char) -> (r: String)
    ensures
        r@ == without(s@, c),
{
    let mut out = String::new();
    proof {
        reveal(Seq::filter);
        assert(s@.take(0) =~= Seq::<char>::empty());
    }
    for x in it: s.chars()
        invariant
            it.seq() == s@,
            out@ == without(s@.take(it.index()), c),
    {
        proof {
            let done = s@.take(it.index());
            assert(s@.take(it.index() + 1) =~= done.push(x));
            done.lemma_filter_push(x, other_than(c));
        }
        if x != c {
            push_char(&mut out, x);
        }
    }
    assert(s@.take(s@.len() as int) =~= s@);
    out
}

/// The characters of `a` followed by those of `b`.
pub fn joined(a: &str, b: &str) -> (r: String)
    ensures
        r@ == a@ + b@,
{
    let mut out = a.to_owned();
    out.append(b);
    out
}

/// Whether two strings hold the same characters.
pub fn same_text(a: &str, b: &str) -> (r: bool)
    ensures
        r == (a@ == b@),
{
    let x = a.to_owned();
    let y = b.to_owned();
    x == y
}

} // verus!
