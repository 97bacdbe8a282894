//! The library-wide laws: idempotence of the context-free expansion, the
//! round trips of the range shifts, conservation of visual units under
//! `combine`, and the equivalence of the three voicing-mark spellings under
//! normalization.  Each is stated over the spec functions that the
//! converters' contracts use, and proved for every input it speaks of.

use vstd::prelude::*;

use crate::compose::combine_spec;
use crate::compose::combine_sweep_spec;
use crate::compose::despace_spec;
use crate::compose::enspace_char;
use crate::compose::enspace_spec;
use crate::compose::half2full_spec;
use crate::marks::CH_SEMIVOICED_COMBI;
use crate::marks::CH_SEMIVOICED_FULL;
use crate::marks::CH_SEMIVOICED_HALF;
use crate::marks::CH_SPACE;
use crate::marks::CH_VOICED_COMBI;
use crate::marks::CH_VOICED_FULL;
use crate::marks::CH_VOICED_HALF;
use crate::marks::is_semivoiced_mark;
use crate::marks::is_voiced_mark;
use crate::marks::replace_marks_spec;
use crate::marks::vsmark2full_spec;
use crate::marks::vsmark2half_spec;
use crate::shift::ascii2wide_spec;
use crate::shift::hira2kata_spec;
use crate::shift::kata2hira_spec;
use crate::shift::wide2ascii_spec;
use crate::tables::consult_spec;
use crate::tables::semivoices;
use crate::tables::voices;

verus! {

/// Expanding one character twice through the half-width table is the same
/// as expanding it once: no expansion result is itself a table key.
proof fn lemma_consult_fixed(c: char)
    ensures
        consult_spec(consult_spec(c)) == consult_spec(c),
{
}

/// `half2full` is idempotent: text already fully expanded is left as it is.
pub proof fn lemma_half2full_idempotent(s: Seq<char>)
    ensures
        half2full_spec(half2full_spec(s)) == half2full_spec(s),
{
    assert forall|i: int| 0 <= i < s.len() implies half2full_spec(half2full_spec(s))[i]
        == half2full_spec(s)[i] by {
        lemma_consult_fixed(s[i]);
    }
    assert(half2full_spec(half2full_spec(s)) =~= half2full_spec(s));
}

/// Widening and then narrowing again is the identity on text made of the
/// printable narrow-ASCII characters.
pub proof fn lemma_wide_ascii_round_trip(s: Seq<char>)
    requires
        forall|i: int| 0 <= i < s.len() ==> 0x21 <= #[trigger] (s[i] as u32) <= 0x7E,
    ensures
        wide2ascii_spec(ascii2wide_spec(s)) == s,
{
    assert forall|i: int| 0 <= i < s.len() implies wide2ascii_spec(ascii2wide_spec(s))[i]
        == s[i] by {
        let c = s[i];
        let k = c as u32;
        assert(0x21 <= k <= 0x7E);
        let w = ascii2wide_spec(s)[i];
        assert(w == (k + 0xFEE0) as char);
        assert(w as u32 == k + 0xFEE0);
        assert(wide2ascii_spec(ascii2wide_spec(s))[i] == (w as u32 - 0xFEE0) as char);
        vstd::utf8::char_u32_cast(c, k);
    }
    assert(wide2ascii_spec(ascii2wide_spec(s)) =~= s);
}

/// Shifting hiragana up to katakana and back down is the identity on text
/// made of the hiragana that have a katakana counterpart.
pub proof fn lemma_hira_kata_round_trip(s: Seq<char>)
    requires
        forall|i: int| 0 <= i < s.len() ==> 0x3041 <= #[trigger] (s[i] as u32) <= 0x3096,
    ensures
        kata2hira_spec(hira2kata_spec(s)) == s,
{
    assert forall|i: int| 0 <= i < s.len() implies kata2hira_spec(hira2kata_spec(s))[i]
        == s[i] by {
        let c = s[i];
        let k = c as u32;
        assert(0x3041 <= k <= 0x3096);
        let w = hira2kata_spec(s)[i];
        assert(w == (k + 0x60) as char);
        assert(w as u32 == k + 0x60);
        assert(kata2hira_spec(hira2kata_spec(s))[i] == (w as u32 - 0x60) as char);
        vstd::utf8::char_u32_cast(c, k);
    }
    assert(kata2hira_spec(hira2kata_spec(s)) =~= s);
}

/// The number of base-plus-mark pairs that the merging sweep fuses.
pub open spec fn merge_count(s: Seq<char>) -> nat
    decreases s.len(),
{
    if s.len() == 0 {
        0
    } else if s.len() >= 2 && is_voiced_mark(s[1]) && voices(s[0]) is Some {
        1 + merge_count(s.skip(2))
    } else if s.len() >= 2 && is_semivoiced_mark(s[1]) && semivoices(s[0]) is Some {
        1 + merge_count(s.skip(2))
    } else {
        merge_count(s.skip(1))
    }
}

/// The merging sweep accounts for every character: it emits exactly one
/// character for each fused pair and one for each character kept.
pub proof fn lemma_sweep_conserves(s: Seq<char>)
    ensures
        combine_sweep_spec(s).len() + merge_count(s) == s.len(),
        2 * merge_count(s) <= s.len(),
    decreases s.len(),
{
    if s.len() == 0 {
    } else if s.len() >= 2 && is_voiced_mark(s[1]) && voices(s[0]) is Some {
        lemma_sweep_conserves(s.skip(2));
    } else if s.len() >= 2 && is_semivoiced_mark(s[1]) && semivoices(s[0]) is Some {
        lemma_sweep_conserves(s.skip(2));
    } else {
        lemma_sweep_conserves(s.skip(1));
    }
}

/// Re-expanding the combining marks of a re-contracted text gives the text
/// back: `despace` undoes `enspace` exactly.
pub proof fn lemma_despace_enspace(s: Seq<char>)
    ensures
        despace_spec(enspace_spec(s)) == s,
    decreases s.len(),
{
    if s.len() == 0 {
        assert(despace_spec(enspace_spec(s)) =~= s);
    } else {
        lemma_despace_enspace(s.skip(1));
        let c = s[0];
        let t = enspace_spec(s.skip(1));
        assert(enspace_spec(s) == enspace_char(c) + t);
        if c == CH_VOICED_COMBI || c == CH_SEMIVOICED_COMBI {
            let e = seq![CH_SPACE, c] + t;
            assert(e[0] == CH_SPACE && e[1] == c);
            assert(e.skip(2) =~= t);
            assert(despace_spec(e) == seq![c] + despace_spec(t));
            assert(seq![c] + s.skip(1) =~= s);
        } else {
            let e = seq![c] + t;
            assert(e[0] == c);
            assert(e.skip(1) =~= t);
            if e.len() >= 2 && c == CH_SPACE {
                // the next emitted character is never a bare combining mark
                assert(t.len() > 0);
                assert(e[1] == t[0]);
                assert(t[0] == enspace_char(s.skip(1)[0])[0]);
                assert(t[0] != CH_VOICED_COMBI && t[0] != CH_SEMIVOICED_COMBI);
            }
            assert(despace_spec(e) == seq![c] + despace_spec(t));
            assert(seq![c] + s.skip(1) =~= s);
        }
    }
}

/// Re-expansion never shortens a text.
pub proof fn lemma_enspace_no_shrink(s: Seq<char>)
    ensures
        enspace_spec(s).len() >= s.len(),
    decreases s.len(),
{
    if s.len() > 0 {
        lemma_enspace_no_shrink(s.skip(1));
    }
}

/// `combine` deletes nothing.  Counting one visual unit per character of
/// the despaced text, the output holds exactly one unit for every unit of
/// the input: each fused base-plus-mark pair became one precomposed
/// character, and every other character — each base and each unmerged
/// mark — survives as its own unit.
pub proof fn lemma_combine_no_deletion(s: Seq<char>)
    ensures
        despace_spec(combine_spec(s)).len() + merge_count(despace_spec(s)) == despace_spec(
            s,
        ).len(),
        2 * merge_count(despace_spec(s)) <= despace_spec(s).len(),
        combine_spec(s).len() + merge_count(despace_spec(s)) >= despace_spec(s).len(),
{
    let d = despace_spec(s);
    lemma_despace_enspace(combine_sweep_spec(d));
    lemma_sweep_conserves(d);
    lemma_enspace_no_shrink(combine_sweep_spec(d));
}

/// Normalizing to half-width style leaves no combining mark in the text.
proof fn lemma_vsmark2half_no_combining(s: Seq<char>)
    ensures
        forall|i: int|
            0 <= i < vsmark2half_spec(s).len() ==> #[trigger] vsmark2half_spec(s)[i]
                != CH_VOICED_COMBI && vsmark2half_spec(s)[i] != CH_SEMIVOICED_COMBI,
    decreases s.len(),
{
    let vh = seq![CH_VOICED_HALF];
    let sh = seq![CH_SEMIVOICED_HALF];
    if s.len() == 0 {
    } else if is_voiced_mark(s[0]) {
        lemma_vsmark2half_no_combining(s.skip(1));
        assert(vsmark2half_spec(s) == vh + vsmark2half_spec(s.skip(1)));
    } else if is_semivoiced_mark(s[0]) {
        lemma_vsmark2half_no_combining(s.skip(1));
        assert(vsmark2half_spec(s) == sh + vsmark2half_spec(s.skip(1)));
    } else if s.len() >= 2 && s[0] == CH_SPACE && s[1] == CH_VOICED_COMBI {
        lemma_vsmark2half_no_combining(s.skip(2));
        assert(vsmark2half_spec(s) == vh + vsmark2half_spec(s.skip(2)));
    } else if s.len() >= 2 && s[0] == CH_SPACE && s[1] == CH_SEMIVOICED_COMBI {
        lemma_vsmark2half_no_combining(s.skip(2));
        assert(vsmark2half_spec(s) == sh + vsmark2half_spec(s.skip(2)));
    } else {
        lemma_vsmark2half_no_combining(s.skip(1));
        assert(vsmark2half_spec(s) == seq![s[0]] + vsmark2half_spec(s.skip(1)));
    }
}

/// All three spellings of a separated voicing mark are recognized alike:
/// normalizing to the half-width style first changes nothing about a later
/// normalization to the full-width style.
pub proof fn lemma_vsmark_variant_equivalence(s: Seq<char>)
    ensures
        vsmark2full_spec(vsmark2half_spec(s)) == vsmark2full_spec(s),
    decreases s.len(),
{
    let vf = seq![CH_VOICED_FULL];
    let sf = seq![CH_SEMIVOICED_FULL];
    if s.len() == 0 {
    } else if is_voiced_mark(s[0]) {
        lemma_vsmark_variant_equivalence(s.skip(1));
        let t = vsmark2half_spec(s.skip(1));
        let e = seq![CH_VOICED_HALF] + t;
        assert(vsmark2half_spec(s) == e);
        assert(e[0] == CH_VOICED_HALF);
        assert(e.skip(1) =~= t);
        assert(vsmark2full_spec(e) == vf + vsmark2full_spec(t));
        assert(vsmark2full_spec(s) == vf + vsmark2full_spec(s.skip(1)));
    } else if is_semivoiced_mark(s[0]) {
        lemma_vsmark_variant_equivalence(s.skip(1));
        let t = vsmark2half_spec(s.skip(1));
        let e = seq![CH_SEMIVOICED_HALF] + t;
        assert(vsmark2half_spec(s) == e);
        assert(e[0] == CH_SEMIVOICED_HALF);
        assert(e.skip(1) =~= t);
        assert(vsmark2full_spec(e) == sf + vsmark2full_spec(t));
        assert(vsmark2full_spec(s) == sf + vsmark2full_spec(s.skip(1)));
    } else if s.len() >= 2 && s[0] == CH_SPACE && s[1] == CH_VOICED_COMBI {
        lemma_vsmark_variant_equivalence(s.skip(2));
        let t = vsmark2half_spec(s.skip(2));
        let e = seq![CH_VOICED_HALF] + t;
        assert(vsmark2half_spec(s) == e);
        assert(e[0] == CH_VOICED_HALF);
        assert(e.skip(1) =~= t);
        assert(vsmark2full_spec(e) == vf + vsmark2full_spec(t));
        assert(vsmark2full_spec(s) == vf + vsmark2full_spec(s.skip(2)));
    } else if s.len() >= 2 && s[0] == CH_SPACE && s[1] == CH_SEMIVOICED_COMBI {
        lemma_vsmark_variant_equivalence(s.skip(2));
        let t = vsmark2half_spec(s.skip(2));
        let e = seq![CH_SEMIVOICED_HALF] + t;
        assert(vsmark2half_spec(s) == e);
        assert(e[0] == CH_SEMIVOICED_HALF);
        assert(e.skip(1) =~= t);
        assert(vsmark2full_spec(e) == sf + vsmark2full_spec(t));
        assert(vsmark2full_spec(s) == sf + vsmark2full_spec(s.skip(2)));
    } else {
        lemma_vsmark_variant_equivalence(s.skip(1));
        lemma_vsmark2half_no_combining(s.skip(1));
        let t = vsmark2half_spec(s.skip(1));
        let e = seq![s[0]] + t;
        assert(vsmark2half_spec(s) == e);
        assert(e[0] == s[0]);
        assert(e.skip(1) =~= t);
        if t.len() > 0 {
            assert(e[1] == t[0]);
            assert(t[0] != CH_VOICED_COMBI && t[0] != CH_SEMIVOICED_COMBI);
        }
        assert(vsmark2full_spec(e) == seq![s[0]] + vsmark2full_spec(t));
        assert(vsmark2full_spec(s) == seq![s[0]] + vsmark2full_spec(s.skip(1)));
    }
}

} // verus!
