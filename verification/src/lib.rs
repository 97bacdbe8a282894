//! Converters for troublesome characters found in Japanese text.
//!
//! * Half-width kana (hankaku kana) -> normal katakana, with diacritical
//!   marks either kept separate or merged into precomposed characters.
//! * Wide (zenkaku) alphanumerics <-> normal ASCII.
//! * Hiragana <-> katakana.
//! * The three spellings of a voiced / semi-voiced sound mark normalized
//!   to one chosen spelling.
//! * Wide space / yen sign <-> their narrow forms.
//!
//! Every converter is a total function on character sequences: characters
//! outside a converter's domain pass through unchanged.

pub mod codepoint;
pub mod compose;
pub mod laws;
pub mod marks;
pub mod select;
pub mod shift;
pub mod substitute;
pub mod tables;

pub use compose::combine;
pub use compose::half2full;
pub use compose::half2kana;
pub use marks::vsmark2combi;
pub use marks::vsmark2full;
pub use marks::vsmark2half;
pub use select::Converter;
pub use select::ConverterChoice;
pub use select::convert;
pub use select::get_converter;
pub use shift::ascii2wide;
pub use shift::hira2kata;
pub use shift::kata2hira;
pub use shift::wide2ascii;
pub use substitute::nowidespace;
pub use substitute::nowideyen;
pub use substitute::space2wide;
pub use substitute::yen2wide;
