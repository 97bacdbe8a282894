//! The diacritic composer: a one-character-lookahead sweep that merges a
//! base kana character followed by a separated voicing mark into the single
//! precomposed character, and the helpers that move a combining mark
//! between its bare form and its space-prefixed two-character form.

use vstd::prelude::*;

use crate::codepoint::push_char;
use crate::codepoint::to_chars;
use crate::marks::CH_SEMIVOICED_COMBI;
use crate::marks::CH_SEMIVOICED_FULL;
use crate::marks::CH_SEMIVOICED_HALF;
use crate::marks::CH_SPACE;
use crate::marks::CH_VOICED_COMBI;
use crate::marks::CH_VOICED_FULL;
use crate::marks::CH_VOICED_HALF;
use crate::marks::is_semivoiced_mark;
use crate::marks::is_voiced_mark;
use crate::tables::consult;
use crate::tables::consult_spec;
use crate::tables::semivoiced_halves;
use crate::tables::semivoiced_halves_lookup;
use crate::tables::semivoices;
use crate::tables::semivoices_lookup;
use crate::tables::voiced_halves;
use crate::tables::voiced_halves_lookup;
use crate::tables::voices;
use crate::tables::voices_lookup;

verus! {

/// The text with every character expanded context-free through the
/// half-width table; the two half-width sound marks become combining marks.
pub open spec fn half2full_spec(s: Seq<char>) -> Seq<char> {
    s.map_values(|c: char| consult_spec(c))
}

/// Converts half-width kana into normal katakana, every diacritical mark
/// kept as a separate combining character.
pub fn half2full(s: &str) -> (r: String)
    ensures
        r@ == half2full_spec(s@),
{
    let cs = to_chars(s);
    let mut line = String::new();
    let mut i: usize = 0;
    while i < cs.len()
        invariant
            cs@ == s@,
            i <= cs@.len(),
            line@ == half2full_spec(s@.take(i as int)),
        decreases cs@.len() - i,
    {
        push_char(&mut line, consult(cs[i]));
        i = i + 1;
        proof {
            assert(line@ =~= half2full_spec(s@.take(i as int)));
        }
    }
    proof {
        assert(s@.take(cs@.len() as int) =~= s@);
    }
    line
}

/// The half-width-kana sweep: a base directly followed by the half-width
/// voiced (or semi-voiced) mark becomes the precomposed character when the
/// table has one; a mark that merged with nothing is expanded with a space
/// put before it; everything else is expanded context-free.
pub open spec fn half2kana_spec(s: Seq<char>) -> Seq<char>
    decreases s.len(),
{
    if s.len() == 0 {
        Seq::empty()
    } else if s.len() >= 2 && s[1] == CH_VOICED_HALF && voiced_halves(s[0]) is Some {
        seq![voiced_halves(s[0])->Some_0] + half2kana_spec(s.skip(2))
    } else if s.len() >= 2 && s[1] == CH_SEMIVOICED_HALF && semivoiced_halves(s[0]) is Some {
        seq![semivoiced_halves(s[0])->Some_0] + half2kana_spec(s.skip(2))
    } else if s[0] == CH_VOICED_HALF || s[0] == CH_SEMIVOICED_HALF {
        seq![CH_SPACE, consult_spec(s[0])] + half2kana_spec(s.skip(1))
    } else {
        seq![consult_spec(s[0])] + half2kana_spec(s.skip(1))
    }
}

/// Converts half-width kana into normal katakana, merging each base and its
/// half-width diacritical mark into the precomposed character where one
/// exists.
pub fn half2kana(s: &str) -> (r: String)
    ensures
        r@ == half2kana_spec(s@),
{
    let cs = to_chars(s);
    let mut line = String::new();
    let mut i: usize = 0;
    proof {
        assert(s@.skip(0) =~= s@);
        assert(Seq::<char>::empty() + half2kana_spec(s@) =~= half2kana_spec(s@));
    }
    while i < cs.len()
        invariant
            cs@ == s@,
            i <= cs@.len(),
            half2kana_spec(s@) == line@ + half2kana_spec(s@.skip(i as int)),
        decreases cs@.len() - i,
    {
        let c = cs[i];
        let ghost pre = line@;
        proof {
            assert(s@.skip(i as int)[0] == c);
            if i + 1 < cs@.len() {
                assert(s@.skip(i as int)[1] == cs@[i as int + 1]);
            }
        }
        let merged: Option<char> = if i + 1 < cs.len() {
            let b = cs[i + 1];
            if b == CH_VOICED_HALF {
                voiced_halves_lookup(c)
            } else if b == CH_SEMIVOICED_HALF {
                semivoiced_halves_lookup(c)
            } else {
                None
            }
        } else {
            None
        };
        match merged {
            Some(v) => {
                push_char(&mut line, v);
                i = i + 2;
                proof {
                    let tail = half2kana_spec(s@.skip(i as int));
                    assert(s@.skip(i as int - 2).skip(2) =~= s@.skip(i as int));
                    assert(line@ =~= pre + seq![v]);
                    assert(pre + (seq![v] + tail) =~= (pre + seq![v]) + tail);
                }
            },
            None => {
                if c == CH_VOICED_HALF || c == CH_SEMIVOICED_HALF {
                    push_char(&mut line, CH_SPACE);
                }
                push_char(&mut line, consult(c));
                i = i + 1;
                proof {
                    let tail = half2kana_spec(s@.skip(i as int));
                    assert(s@.skip(i as int - 1).skip(1) =~= s@.skip(i as int));
                    if c == CH_VOICED_HALF || c == CH_SEMIVOICED_HALF {
                        assert(line@ =~= pre + seq![CH_SPACE, consult_spec(c)]);
                        assert(pre + (seq![CH_SPACE, consult_spec(c)] + tail) =~= (pre + seq![
                            CH_SPACE,
                            consult_spec(c),
                        ]) + tail);
                    } else {
                        assert(line@ =~= pre + seq![consult_spec(c)]);
                        assert(pre + (seq![consult_spec(c)] + tail) =~= (pre + seq![
                            consult_spec(c),
                        ]) + tail);
                    }
                }
            },
        }
    }
    proof {
        assert(s@.skip(cs@.len() as int) =~= Seq::<char>::empty());
        assert(line@ + Seq::<char>::empty() =~= line@);
    }
    line
}

/// The text with every space-plus-combining-mark pair contracted to the
/// bare combining mark.
pub open spec fn despace_spec(s: Seq<char>) -> Seq<char>
    decreases s.len(),
{
    if s.len() == 0 {
        Seq::empty()
    } else if s.len() >= 2 && s[0] == CH_SPACE && (s[1] == CH_VOICED_COMBI || s[1]
        == CH_SEMIVOICED_COMBI) {
        seq![s[1]] + despace_spec(s.skip(2))
    } else {
        seq![s[0]] + despace_spec(s.skip(1))
    }
}

/// Contracts every space-plus-combining-mark pair to the bare combining
/// mark.
pub fn despace(s: &str) -> (r: String)
    ensures
        r@ == despace_spec(s@),
{
    let cs = to_chars(s);
    let mut line = String::new();
    let mut i: usize = 0;
    proof {
        assert(s@.skip(0) =~= s@);
        assert(Seq::<char>::empty() + despace_spec(s@) =~= despace_spec(s@));
    }
    while i < cs.len()
        invariant
            cs@ == s@,
            i <= cs@.len(),
            despace_spec(s@) == line@ + despace_spec(s@.skip(i as int)),
        decreases cs@.len() - i,
    {
        let c = cs[i];
        let ghost pre = line@;
        proof {
            assert(s@.skip(i as int)[0] == c);
            if i + 1 < cs@.len() {
                assert(s@.skip(i as int)[1] == cs@[i as int + 1]);
            }
        }
        if c == CH_SPACE && i + 1 < cs.len() && (cs[i + 1] == CH_VOICED_COMBI || cs[i + 1]
            == CH_SEMIVOICED_COMBI) {
            let b = cs[i + 1];
            push_char(&mut line, b);
            i = i + 2;
            proof {
                let tail = despace_spec(s@.skip(i as int));
                assert(s@.skip(i as int - 2).skip(2) =~= s@.skip(i as int));
                assert(line@ =~= pre + seq![b]);
                assert(pre + (seq![b] + tail) =~= (pre + seq![b]) + tail);
            }
        } else {
            push_char(&mut line, c);
            i = i + 1;
            proof {
                let tail = despace_spec(s@.skip(i as int));
                assert(s@.skip(i as int - 1).skip(1) =~= s@.skip(i as int));
                assert(line@ =~= pre + seq![c]);
                assert(pre + (seq![c] + tail) =~= (pre + seq![c]) + tail);
            }
        }
    }
    proof {
        assert(s@.skip(cs@.len() as int) =~= Seq::<char>::empty());
        assert(line@ + Seq::<char>::empty() =~= line@);
    }
    line
}

/// One character under re-expansion: a bare combining mark becomes the
/// space-prefixed pair, anything else stands alone.
pub open spec fn enspace_char(c: char) -> Seq<char> {
    if c == CH_VOICED_COMBI || c == CH_SEMIVOICED_COMBI {
        seq![CH_SPACE, c]
    } else {
        seq![c]
    }
}

/// The text with every bare combining mark expanded to its space-prefixed
/// two-character form.
pub open spec fn enspace_spec(s: Seq<char>) -> Seq<char>
    decreases s.len(),
{
    if s.len() == 0 {
        Seq::empty()
    } else {
        enspace_char(s[0]) + enspace_spec(s.skip(1))
    }
}

/// Expands every bare combining mark to its space-prefixed two-character
/// form, so an unmerged mark keeps its own visual column.
pub fn enspace(s: &str) -> (r: String)
    ensures
        r@ == enspace_spec(s@),
{
    let cs = to_chars(s);
    let mut line = String::new();
    let mut i: usize = 0;
    proof {
        assert(s@.skip(0) =~= s@);
        assert(Seq::<char>::empty() + enspace_spec(s@) =~= enspace_spec(s@));
    }
    while i < cs.len()
        invariant
            cs@ == s@,
            i <= cs@.len(),
            enspace_spec(s@) == line@ + enspace_spec(s@.skip(i as int)),
        decreases cs@.len() - i,
    {
        let c = cs[i];
        let ghost pre = line@;
        proof {
            assert(s@.skip(i as int)[0] == c);
        }
        if c == CH_VOICED_COMBI || c == CH_SEMIVOICED_COMBI {
            push_char(&mut line, CH_SPACE);
        }
        push_char(&mut line, c);
        i = i + 1;
        proof {
            let tail = enspace_spec(s@.skip(i as int));
            assert(s@.skip(i as int - 1).skip(1) =~= s@.skip(i as int));
            assert(line@ =~= pre + enspace_char(c));
            assert(pre + (enspace_char(c) + tail) =~= (pre + enspace_char(c)) + tail);
        }
    }
    proof {
        assert(s@.skip(cs@.len() as int) =~= Seq::<char>::empty());
        assert(line@ + Seq::<char>::empty() =~= line@);
    }
    line
}

/// The merging sweep over despaced text: a base directly followed by any
/// spelling of a voicing mark becomes the precomposed character when the
/// table has one; everything else passes through.
pub open spec fn combine_sweep_spec(s: Seq<char>) -> Seq<char>
    decreases s.len(),
{
    if s.len() == 0 {
        Seq::empty()
    } else if s.len() >= 2 && is_voiced_mark(s[1]) && voices(s[0]) is Some {
        seq![voices(s[0])->Some_0] + combine_sweep_spec(s.skip(2))
    } else if s.len() >= 2 && is_semivoiced_mark(s[1]) && semivoices(s[0]) is Some {
        seq![semivoices(s[0])->Some_0] + combine_sweep_spec(s.skip(2))
    } else {
        seq![s[0]] + combine_sweep_spec(s.skip(1))
    }
}

/// The whole combine pipeline: contract space-prefixed combining marks,
/// merge each base with the voicing mark that follows it, then re-expand
/// whatever combining mark survived unmerged.
pub open spec fn combine_spec(s: Seq<char>) -> Seq<char> {
    enspace_spec(combine_sweep_spec(despace_spec(s)))
}

/// Combines base characters and the diacritical marks following them, in
/// hiragana and katakana, into precomposed characters; a mark that merges
/// with nothing is kept, re-expanded to its space-prefixed form.
pub fn combine(s: &str) -> (r: String)
    ensures
        r@ == combine_spec(s@),
{
    let ss = despace(s);
    let cs = to_chars(ss.as_str());
    let mut line = String::new();
    let mut i: usize = 0;
    proof {
        assert(ss@.skip(0) =~= ss@);
        assert(Seq::<char>::empty() + combine_sweep_spec(ss@) =~= combine_sweep_spec(ss@));
    }
    while i < cs.len()
        invariant
            cs@ == ss@,
            i <= cs@.len(),
            combine_sweep_spec(ss@) == line@ + combine_sweep_spec(ss@.skip(i as int)),
        decreases cs@.len() - i,
    {
        let c = cs[i];
        let ghost pre = line@;
        proof {
            assert(ss@.skip(i as int)[0] == c);
            if i + 1 < cs@.len() {
                assert(ss@.skip(i as int)[1] == cs@[i as int + 1]);
            }
        }
        let merged: Option<char> = if i + 1 < cs.len() {
            let b = cs[i + 1];
            if b == CH_VOICED_HALF || b == CH_VOICED_FULL || b == CH_VOICED_COMBI {
                voices_lookup(c)
            } else if b == CH_SEMIVOICED_HALF || b == CH_SEMIVOICED_FULL || b == CH_SEMIVOICED_COMBI {
                semivoices_lookup(c)
            } else {
                None
            }
        } else {
            None
        };
        match merged {
            Some(v) => {
                push_char(&mut line, v);
                i = i + 2;
                proof {
                    let tail = combine_sweep_spec(ss@.skip(i as int));
                    assert(ss@.skip(i as int - 2).skip(2) =~= ss@.skip(i as int));
                    assert(line@ =~= pre + seq![v]);
                    assert(pre + (seq![v] + tail) =~= (pre + seq![v]) + tail);
                }
            },
            None => {
                push_char(&mut line, c);
                i = i + 1;
                proof {
                    let tail = combine_sweep_spec(ss@.skip(i as int));
                    assert(ss@.skip(i as int - 1).skip(1) =~= ss@.skip(i as int));
                    assert(line@ =~= pre + seq![c]);
                    assert(pre + (seq![c] + tail) =~= (pre + seq![c]) + tail);
                }
            },
        }
    }
    proof {
        assert(ss@.skip(cs@.len() as int) =~= Seq::<char>::empty());
        assert(line@ + Seq::<char>::empty() =~= line@);
    }
    enspace(line.as_str())
}

} // verus!
