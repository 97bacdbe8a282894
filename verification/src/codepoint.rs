//! Helpers on Unicode scalar values: the bridge between `char` values and
//! the `u32` arithmetic the range-shift converters are specified with.

use vstd::prelude::*;
use vstd::string::StrSliceExecFns;

verus! {

/// A value that a `char` can hold: any code point except a surrogate.
pub open spec fn is_unicode_scalar(x: int) -> bool {
    (0 <= x && x <= 0xD7FF) || (0xE000 <= x && x <= 0x10FFFF)
}

/// Relies on std's `char::from_u32`: it returns `Some` exactly when the value
/// is a Unicode scalar value, and the character then has that scalar value.
#[verifier::external_body]
pub(crate) fn char_from_u32(x: u32) -> (r: Option<char>)
    ensures
        r is Some <==> is_unicode_scalar(x as int),
        r matches Some(c) ==> c as u32 == x,
{
    char::from_u32(x)
}

/// Relies on std's `String::push`: it appends the character to the end of
/// the string.
#[verifier::external_body]
pub(crate) fn push_char(s: &mut String, c: char)
    ensures
        final(s)@ == old(s)@.push(c),
{
    s.push(c)
}

/// The characters of a string slice, collected into a vector.
pub fn to_chars(s: &str) -> (v: Vec<char>)
    ensures
        v@ == s@,
{
    let n = s.unicode_len();
    let mut v: Vec<char> = Vec::new();
    let mut i: usize = 0;
    while i < n
        invariant
            n == s@.len(),
            i <= n,
            v@ == s@.take(i as int),
        decreases n - i,
    {
        v.push(s.get_char(i));
        i = i + 1;
        proof {
            assert(v@ =~= s@.take(i as int));
        }
    }
    proof {
        assert(s@.take(n as int) =~= s@);
    }
    v
}

} // verus!
