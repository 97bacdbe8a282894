//! Converter selection: the choice a caller makes with one boolean per
//! converter, resolved in a fixed order to the converter to run, and the
//! dispatcher that runs it on a line of text.

use vstd::prelude::*;

use crate::compose::combine;
use crate::compose::combine_spec;
use crate::compose::half2full;
use crate::compose::half2full_spec;
use crate::compose::half2kana;
use crate::compose::half2kana_spec;
use crate::marks::vsmark2combi;
use crate::marks::vsmark2combi_spec;
use crate::marks::vsmark2full;
use crate::marks::vsmark2full_spec;
use crate::marks::vsmark2half;
use crate::marks::vsmark2half_spec;
use crate::shift::ascii2wide;
use crate::shift::ascii2wide_spec;
use crate::shift::hira2kata;
use crate::shift::hira2kata_spec;
use crate::shift::kata2hira;
use crate::shift::kata2hira_spec;
use crate::shift::wide2ascii;
use crate::shift::wide2ascii_spec;
use crate::substitute::nowidespace;
use crate::substitute::nowidespace_spec;
use crate::substitute::nowideyen;
use crate::substitute::nowideyen_spec;
use crate::substitute::space2wide;
use crate::substitute::space2wide_spec;
use crate::substitute::yen2wide;
use crate::substitute::yen2wide_spec;

verus! {

/// One of the converters this library offers.
#[derive(Clone, Copy, PartialEq, Eq, Structural, Debug)]
pub enum Converter {
    Half2full,
    Half2kana,
    Combine,
    Hira2kata,
    Kata2hira,
    Vsmark2half,
    Vsmark2full,
    Vsmark2combi,
    Ascii2wide,
    Wide2ascii,
    Nowidespace,
    Space2wide,
    Nowideyen,
    Yen2wide,
}

/// One boolean per converter, as a caller's flags select them.
#[derive(Clone, Copy, PartialEq, Eq, Structural, Debug)]
pub struct ConverterChoice {
    pub half2full: bool,
    pub half2kana: bool,
    pub combine: bool,
    pub hira2kata: bool,
    pub kata2hira: bool,
    pub vsmark2half: bool,
    pub vsmark2full: bool,
    pub vsmark2combi: bool,
    pub ascii2wide: bool,
    pub wide2ascii: bool,
    pub nowidespace: bool,
    pub space2wide: bool,
    pub nowideyen: bool,
    pub yen2wide: bool,
}

impl ConverterChoice {
    /// Some converter is selected.
    pub open spec fn any_selected(&self) -> bool {
        self.half2full || self.half2kana || self.combine || self.hira2kata || self.kata2hira
            || self.vsmark2half || self.vsmark2full || self.vsmark2combi || self.ascii2wide
            || self.wide2ascii || self.nowidespace || self.space2wide || self.nowideyen
            || self.yen2wide
    }

    /// The first selected converter, in the fixed order of precedence.
    pub open spec fn selected(&self) -> Converter {
        if self.half2full {
            Converter::Half2full
        } else if self.half2kana {
            Converter::Half2kana
        } else if self.combine {
            Converter::Combine
        } else if self.hira2kata {
            Converter::Hira2kata
        } else if self.kata2hira {
            Converter::Kata2hira
        } else if self.vsmark2half {
            Converter::Vsmark2half
        } else if self.vsmark2full {
            Converter::Vsmark2full
        } else if self.vsmark2combi {
            Converter::Vsmark2combi
        } else if self.ascii2wide {
            Converter::Ascii2wide
        } else if self.wide2ascii {
            Converter::Wide2ascii
        } else if self.nowidespace {
            Converter::Nowidespace
        } else if self.space2wide {
            Converter::Space2wide
        } else if self.nowideyen {
            Converter::Nowideyen
        } else {
            Converter::Yen2wide
        }
    }
}

/// Picks the converter that the first set flag selects, in the fixed order
/// of precedence.
pub fn get_converter(choice: &ConverterChoice) -> (r: Converter)
    requires
        choice.any_selected(),
    ensures
        r == choice.selected(),
{
    if choice.half2full {
        Converter::Half2full
    } else if choice.half2kana {
        Converter::Half2kana
    } else if choice.combine {
        Converter::Combine
    } else if choice.hira2kata {
        Converter::Hira2kata
    } else if choice.kata2hira {
        Converter::Kata2hira
    } else if choice.vsmark2half {
        Converter::Vsmark2half
    } else if choice.vsmark2full {
        Converter::Vsmark2full
    } else if choice.vsmark2combi {
        Converter::Vsmark2combi
    } else if choice.ascii2wide {
        Converter::Ascii2wide
    } else if choice.wide2ascii {
        Converter::Wide2ascii
    } else if choice.nowidespace {
        Converter::Nowidespace
    } else if choice.space2wide {
        Converter::Space2wide
    } else if choice.nowideyen {
        Converter::Nowideyen
    } else {
        Converter::Yen2wide
    }
}

/// What one converter does to a text.
pub open spec fn convert_spec(conv: Converter, s: Seq<char>) -> Seq<char> {
    match conv {
        Converter::Half2full => half2full_spec(s),
        Converter::Half2kana => half2kana_spec(s),
        Converter::Combine => combine_spec(s),
        Converter::Hira2kata => hira2kata_spec(s),
        Converter::Kata2hira => kata2hira_spec(s),
        Converter::Vsmark2half => vsmark2half_spec(s),
        Converter::Vsmark2full => vsmark2full_spec(s),
        Converter::Vsmark2combi => vsmark2combi_spec(s),
        Converter::Ascii2wide => ascii2wide_spec(s),
        Converter::Wide2ascii => wide2ascii_spec(s),
        Converter::Nowidespace => nowidespace_spec(s),
        Converter::Space2wide => space2wide_spec(s),
        Converter::Nowideyen => nowideyen_spec(s),
        Converter::Yen2wide => yen2wide_spec(s),
    }
}

/// Runs one converter on a line of text.
pub fn convert(conv: Converter, s: &str) -> (r: String)
    ensures
        r@ == convert_spec(conv, s@),
{
    match conv {
        Converter::Half2full => half2full(s),
        Converter::Half2kana => half2kana(s),
        Converter::Combine => combine(s),
        Converter::Hira2kata => hira2kata(s),
        Converter::Kata2hira => kata2hira(s),
        Converter::Vsmark2half => vsmark2half(s),
        Converter::Vsmark2full => vsmark2full(s),
        Converter::Vsmark2combi => vsmark2combi(s),
        Converter::Ascii2wide => ascii2wide(s),
        Converter::Wide2ascii => wide2ascii(s),
        Converter::Nowidespace => nowidespace(s),
        Converter::Space2wide => space2wide(s),
        Converter::Nowideyen => nowideyen(s),
        Converter::Yen2wide => yen2wide(s),
    }
}

} // verus!
