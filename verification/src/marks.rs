//! The voicing-mark normalization converter.
//!
//! A voiced (or semi-voiced) sound mark standing apart from its base
//! character has three accepted spellings: the half-width character, the
//! full-width character, and the combining character (the last optionally
//! preceded by one space).  Recognition accepts every spelling; emission
//! produces exactly one chosen spelling.

use vstd::prelude::*;

use crate::codepoint::push_char;
use crate::codepoint::to_chars;

verus! {

/// The combining voiced sound mark.
pub const CH_VOICED_COMBI: char = '\u{3099}';

/// The combining semi-voiced sound mark.
pub const CH_SEMIVOICED_COMBI: char = '\u{309A}';

/// The full-width voiced sound mark.
pub const CH_VOICED_FULL: char = '\u{309B}';

/// The full-width semi-voiced sound mark.
pub const CH_SEMIVOICED_FULL: char = '\u{309C}';

/// The half-width voiced sound mark.
pub const CH_VOICED_HALF: char = '\u{FF9E}';

/// The half-width semi-voiced sound mark.
pub const CH_SEMIVOICED_HALF: char = '\u{FF9F}';

/// The plain space.
pub const CH_SPACE: char = '\u{20}';

/// One of the three one-character spellings of the voiced sound mark.
pub open spec fn is_voiced_mark(c: char) -> bool {
    c == CH_VOICED_HALF || c == CH_VOICED_FULL || c == CH_VOICED_COMBI
}

/// One of the three one-character spellings of the semi-voiced sound mark.
pub open spec fn is_semivoiced_mark(c: char) -> bool {
    c == CH_SEMIVOICED_HALF || c == CH_SEMIVOICED_FULL || c == CH_SEMIVOICED_COMBI
}

/// The text with every recognized voiced-mark token replaced by `vmark` and
/// every recognized semi-voiced-mark token replaced by `svmark`.
///
/// A token is a one-character mark spelling, or one space directly followed
/// by a combining mark (the space is part of the token and is consumed).
pub open spec fn replace_marks_spec(s: Seq<char>, vmark: Seq<char>, svmark: Seq<char>) -> Seq<
    char,
>
    decreases s.len(),
{
    if s.len() == 0 {
        Seq::empty()
    } else if is_voiced_mark(s[0]) {
        vmark + replace_marks_spec(s.skip(1), vmark, svmark)
    } else if is_semivoiced_mark(s[0]) {
        svmark + replace_marks_spec(s.skip(1), vmark, svmark)
    } else if s.len() >= 2 && s[0] == CH_SPACE && s[1] == CH_VOICED_COMBI {
        vmark + replace_marks_spec(s.skip(2), vmark, svmark)
    } else if s.len() >= 2 && s[0] == CH_SPACE && s[1] == CH_SEMIVOICED_COMBI {
        svmark + replace_marks_spec(s.skip(2), vmark, svmark)
    } else {
        seq![s[0]] + replace_marks_spec(s.skip(1), vmark, svmark)
    }
}

/// Appends every character of `v` to `line`.
fn push_chars(line: &mut String, v: &Vec<char>)
    ensures
        final(line)@ == old(line)@ + v@,
{
    let mut j: usize = 0;
    while j < v.len()
        invariant
            j <= v@.len(),
            line@ == old(line)@ + v@.take(j as int),
        decreases v@.len() - j,
    {
        push_char(line, v[j]);
        j = j + 1;
        proof {
            assert(old(line)@ + v@.take(j as int) =~= (old(line)@ + v@.take(
                j as int - 1,
            )).push(v@[j - 1]));
        }
    }
    proof {
        assert(old(line)@ + v@.take(v@.len() as int) =~= old(line)@ + v@);
    }
}

/// Replaces every recognized voiced-mark token with `vmark` and every
/// recognized semi-voiced-mark token with `svmark`, keeping every other
/// character.
fn replace_marks(vmark: &Vec<char>, svmark: &Vec<char>, src: &str) -> (r: String)
    ensures
        r@ == replace_marks_spec(src@, vmark@, svmark@),
{
    let cs = to_chars(src);
    let mut line = String::new();
    let mut i: usize = 0;
    proof {
        assert(src@.skip(0) =~= src@);
        assert(Seq::<char>::empty() + replace_marks_spec(src@, vmark@, svmark@)
            =~= replace_marks_spec(src@, vmark@, svmark@));
    }
    while i < cs.len()
        invariant
            cs@ == src@,
            i <= cs@.len(),
            replace_marks_spec(src@, vmark@, svmark@) == line@ + replace_marks_spec(
                src@.skip(i as int),
                vmark@,
                svmark@,
            ),
        decreases cs@.len() - i,
    {
        let c = cs[i];
        let ghost pre = line@;
        proof {
            assert(src@.skip(i as int)[0] == c);
        }
        if c == CH_VOICED_HALF || c == CH_VOICED_FULL || c == CH_VOICED_COMBI {
            push_chars(&mut line, vmark);
            i = i + 1;
            proof {
                let tail = replace_marks_spec(src@.skip(i as int), vmark@, svmark@);
                assert(src@.skip(i as int - 1).skip(1) =~= src@.skip(i as int));
                assert(pre + (vmark@ + tail) =~= (pre + vmark@) + tail);
            }
        } else if c == CH_SEMIVOICED_HALF || c == CH_SEMIVOICED_FULL || c == CH_SEMIVOICED_COMBI {
            push_chars(&mut line, svmark);
            i = i + 1;
            proof {
                let tail = replace_marks_spec(src@.skip(i as int), vmark@, svmark@);
                assert(src@.skip(i as int - 1).skip(1) =~= src@.skip(i as int));
                assert(pre + (svmark@ + tail) =~= (pre + svmark@) + tail);
            }
        } else if c == CH_SPACE && i + 1 < cs.len() && (cs[i + 1] == CH_VOICED_COMBI || cs[i + 1]
            == CH_SEMIVOICED_COMBI) {
            proof {
                assert(src@.skip(i as int)[1] == cs@[i as int + 1]);
            }
            if cs[i + 1] == CH_VOICED_COMBI {
                push_chars(&mut line, vmark);
            } else {
                push_chars(&mut line, svmark);
            }
            i = i + 2;
            proof {
                let tail = replace_marks_spec(src@.skip(i as int), vmark@, svmark@);
                assert(src@.skip(i as int - 2).skip(2) =~= src@.skip(i as int));
                assert(pre + (vmark@ + tail) =~= (pre + vmark@) + tail);
                assert(pre + (svmark@ + tail) =~= (pre + svmark@) + tail);
            }
        } else {
            proof {
                if c == CH_SPACE && i + 1 < cs@.len() {
                    assert(src@.skip(i as int)[1] == cs@[i as int + 1]);
                }
            }
            push_char(&mut line, c);
            i = i + 1;
            proof {
                let tail = replace_marks_spec(src@.skip(i as int), vmark@, svmark@);
                assert(src@.skip(i as int - 1).skip(1) =~= src@.skip(i as int));
                assert(line@ =~= pre + seq![c]);
                assert(pre + (seq![c] + tail) =~= (pre + seq![c]) + tail);
            }
        }
    }
    proof {
        assert(src@.skip(cs@.len() as int) =~= Seq::<char>::empty());
        assert(line@ + Seq::<char>::empty() =~= line@);
    }
    line
}

/// The text with every separated sound mark normalized to half-width style.
pub open spec fn vsmark2half_spec(s: Seq<char>) -> Seq<char> {
    replace_marks_spec(s, seq![CH_VOICED_HALF], seq![CH_SEMIVOICED_HALF])
}

/// Converts all separated voiced and semi-voiced sound marks into the
/// half-width style.
pub fn vsmark2half(s: &str) -> (r: String)
    ensures
        r@ == vsmark2half_spec(s@),
{
    let mut vmark: Vec<char> = Vec::new();
    vmark.push(CH_VOICED_HALF);
    let mut svmark: Vec<char> = Vec::new();
    svmark.push(CH_SEMIVOICED_HALF);
    proof {
        assert(vmark@ =~= seq![CH_VOICED_HALF]);
        assert(svmark@ =~= seq![CH_SEMIVOICED_HALF]);
    }
    replace_marks(&vmark, &svmark, s)
}

/// The text with every separated sound mark normalized to full-width style.
pub open spec fn vsmark2full_spec(s: Seq<char>) -> Seq<char> {
    replace_marks_spec(s, seq![CH_VOICED_FULL], seq![CH_SEMIVOICED_FULL])
}

/// Converts all separated voiced and semi-voiced sound marks into the
/// full-width style.
pub fn vsmark2full(s: &str) -> (r: String)
    ensures
        r@ == vsmark2full_spec(s@),
{
    let mut vmark: Vec<char> = Vec::new();
    vmark.push(CH_VOICED_FULL);
    let mut svmark: Vec<char> = Vec::new();
    svmark.push(CH_SEMIVOICED_FULL);
    proof {
        assert(vmark@ =~= seq![CH_VOICED_FULL]);
        assert(svmark@ =~= seq![CH_SEMIVOICED_FULL]);
    }
    replace_marks(&vmark, &svmark, s)
}

/// The text with every separated sound mark normalized to the space plus
/// combining-character style.
pub open spec fn vsmark2combi_spec(s: Seq<char>) -> Seq<char> {
    replace_marks_spec(s, seq![CH_SPACE, CH_VOICED_COMBI], seq![CH_SPACE, CH_SEMIVOICED_COMBI])
}

/// Converts all separated voiced and semi-voiced sound marks into the space
/// plus combining-character style.
pub fn vsmark2combi(s: &str) -> (r: String)
    ensures
        r@ == vsmark2combi_spec(s@),
{
    let mut vmark: Vec<char> = Vec::new();
    vmark.push(CH_SPACE);
    vmark.push(CH_VOICED_COMBI);
    let mut svmark: Vec<char> = Vec::new();
    svmark.push(CH_SPACE);
    svmark.push(CH_SEMIVOICED_COMBI);
    proof {
        assert(vmark@ =~= seq![CH_SPACE, CH_VOICED_COMBI]);
        assert(svmark@ =~= seq![CH_SPACE, CH_SEMIVOICED_COMBI]);
    }
    replace_marks(&vmark, &svmark, s)
}

} // verus!
