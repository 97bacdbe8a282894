//! The simple substitution converters: one fixed character replaced by
//! another, uniformly over the text.  Powers the wide/narrow space and
//! yen-sign conversions.

use vstd::prelude::*;

use crate::codepoint::push_char;
use crate::codepoint::to_chars;

verus! {

/// One character under a substitution: `to` where it equals `from`, itself
/// otherwise.
pub open spec fn substitute_char(from: char, to: char, c: char) -> char {
    if c == from {
        to
    } else {
        c
    }
}

/// A whole text under a substitution, character by character.
pub open spec fn substitute_spec(from: char, to: char, s: Seq<char>) -> Seq<char> {
    s.map_values(|c: char| substitute_char(from, to, c))
}

/// Replaces every occurrence of `from` with `to`, keeping every other
/// character.
pub fn substitute(from: char, to: char, src: &str) -> (r: String)
    ensures
        r@ == substitute_spec(from, to, src@),
{
    let cs = to_chars(src);
    let mut line = String::new();
    let mut i: usize = 0;
    while i < cs.len()
        invariant
            cs@ == src@,
            i <= cs@.len(),
            line@ == substitute_spec(from, to, src@.take(i as int)),
        decreases cs@.len() - i,
    {
        let c = cs[i];
        if c == from {
            push_char(&mut line, to);
        } else {
            push_char(&mut line, c);
        }
        i = i + 1;
        proof {
            assert(line@ =~= substitute_spec(from, to, src@.take(i as int)));
        }
    }
    proof {
        assert(src@.take(cs@.len() as int) =~= src@);
    }
    line
}

/// The text with every wide space replaced by a normal space.
pub open spec fn nowidespace_spec(s: Seq<char>) -> Seq<char> {
    substitute_spec('\u{3000}', '\u{20}', s)
}

/// Converts wide spaces into normal spaces.
pub fn nowidespace(s: &str) -> (r: String)
    ensures
        r@ == nowidespace_spec(s@),
{
    substitute('\u{3000}', '\u{20}', s)
}

/// The text with every normal space replaced by a wide space.
pub open spec fn space2wide_spec(s: Seq<char>) -> Seq<char> {
    substitute_spec('\u{20}', '\u{3000}', s)
}

/// Converts normal spaces into wide spaces.
pub fn space2wide(s: &str) -> (r: String)
    ensures
        r@ == space2wide_spec(s@),
{
    substitute('\u{20}', '\u{3000}', s)
}

/// The text with every wide yen sign replaced by a half-width yen sign.
pub open spec fn nowideyen_spec(s: Seq<char>) -> Seq<char> {
    substitute_spec('\u{FFE5}', '\u{A5}', s)
}

/// Converts wide yen signs into half-width yen signs.
pub fn nowideyen(s: &str) -> (r: String)
    ensures
        r@ == nowideyen_spec(s@),
{
    substitute('\u{FFE5}', '\u{A5}', s)
}

/// The text with every half-width yen sign replaced by a wide yen sign.
pub open spec fn yen2wide_spec(s: Seq<char>) -> Seq<char> {
    substitute_spec('\u{A5}', '\u{FFE5}', s)
}

/// Converts half-width yen signs into wide yen signs.
pub fn yen2wide(s: &str) -> (r: String)
    ensures
        r@ == yen2wide_spec(s@),
{
    substitute('\u{A5}', '\u{FFE5}', s)
}

} // verus!
