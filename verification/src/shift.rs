//! The range-shift converter: remap every character whose scalar value lies
//! in a fixed interval by a fixed offset, passing the others through
//! unchanged.  Powers the wide-ASCII and hiragana/katakana conversions.

use vstd::prelude::*;

use crate::codepoint::char_from_u32;
use crate::codepoint::is_unicode_scalar;
use crate::codepoint::push_char;
use crate::codepoint::to_chars;

verus! {

/// One character under a range shift: moved by `off` when its scalar value
/// lies in `[lo, hi]`, kept otherwise.
pub open spec fn shift_char(lo: u32, hi: u32, off: int, c: char) -> char {
    if lo <= c as u32 <= hi {
        (c as u32 + off) as char
    } else {
        c
    }
}

/// A whole text under a range shift, character by character.
pub open spec fn shift_spec(lo: u32, hi: u32, off: int, s: Seq<char>) -> Seq<char> {
    s.map_values(|c: char| shift_char(lo, hi, off, c))
}

/// Remaps every character whose scalar value lies in `[lo, hi]` by `off`;
/// all other characters pass through unchanged.  The offset must send the
/// whole interval onto Unicode scalar values.
pub fn shift_code(lo: u32, hi: u32, off: i32, src: &str) -> (r: String)
    requires
        forall|k: int| lo <= k <= hi ==> #[trigger] is_unicode_scalar(k + off),
    ensures
        r@ == shift_spec(lo, hi, off as int, src@),
{
    let cs = to_chars(src);
    let mut line = String::new();
    let mut i: usize = 0;
    while i < cs.len()
        invariant
            cs@ == src@,
            forall|k: int| lo <= k <= hi ==> #[trigger] is_unicode_scalar(k + off),
            i <= cs@.len(),
            line@ == shift_spec(lo, hi, off as int, src@.take(i as int)),
        decreases cs@.len() - i,
    {
        let c = cs[i];
        let k = c as u32;
        if lo <= k && k <= hi {
            let shifted = ((k as i64) + (off as i64)) as u32;
            proof {
                assert(is_unicode_scalar(k + off));
                assert(shifted == k + off);
            }
            match char_from_u32(shifted) {
                Some(c2) => {
                    push_char(&mut line, c2);
                    proof {
                        vstd::utf8::char_u32_cast(c2, shifted);
                        assert(c2 == shift_char(lo, hi, off as int, c));
                    }
                },
                None => {
                    proof {
                        assert(false);
                    }
                },
            }
        } else {
            push_char(&mut line, c);
        }
        i = i + 1;
        proof {
            assert(line@ =~= shift_spec(lo, hi, off as int, src@.take(i as int)));
        }
    }
    proof {
        assert(src@.take(cs@.len() as int) =~= src@);
    }
    line
}

/// The text with every wide (full-width) printable Latin character moved to
/// its ASCII counterpart.
pub open spec fn wide2ascii_spec(s: Seq<char>) -> Seq<char> {
    shift_spec(0xFF01, 0xFF5E, -0xFEE0, s)
}

/// Converts wide alphanumerics into normal ASCII.
pub fn wide2ascii(s: &str) -> (r: String)
    ensures
        r@ == wide2ascii_spec(s@),
{
    shift_code(0xFF01, 0xFF5E, -0xFEE0, s)
}

/// The text with every printable ASCII character (other than the space)
/// moved to its wide (full-width) counterpart.
pub open spec fn ascii2wide_spec(s: Seq<char>) -> Seq<char> {
    shift_spec(0x21, 0x7E, 0xFEE0, s)
}

/// Converts normal ASCII characters into wide alphanumerics.
pub fn ascii2wide(s: &str) -> (r: String)
    ensures
        r@ == ascii2wide_spec(s@),
{
    shift_code(0x21, 0x7E, 0xFEE0, s)
}

/// The text with every hiragana character moved to the matching katakana.
pub open spec fn hira2kata_spec(s: Seq<char>) -> Seq<char> {
    shift_spec(0x3041, 0x3096, 0x60, s)
}

/// Converts hiragana into katakana.
pub fn hira2kata(s: &str) -> (r: String)
    ensures
        r@ == hira2kata_spec(s@),
{
    shift_code(0x3041, 0x3096, 0x60, s)
}

/// The text with every katakana character that has a hiragana counterpart
/// moved to it.
pub open spec fn kata2hira_spec(s: Seq<char>) -> Seq<char> {
    shift_spec(0x30A1, 0x30F6, -0x60, s)
}

/// Converts katakana into hiragana.
pub fn kata2hira(s: &str) -> (r: String)
    ensures
        r@ == kata2hira_spec(s@),
{
    shift_code(0x30A1, 0x30F6, -0x60, s)
}

} // verus!
