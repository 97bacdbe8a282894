use kana::Converter;
use kana::ConverterChoice;
use kana::ascii2wide;
use kana::combine;
use kana::convert;
use kana::get_converter;
use kana::half2full;
use kana::half2kana;
use kana::hira2kata;
use kana::kata2hira;
use kana::nowidespace;
use kana::nowideyen;
use kana::space2wide;
use kana::vsmark2combi;
use kana::vsmark2full;
use kana::vsmark2half;
use kana::wide2ascii;
use kana::yen2wide;

#[test]
fn half2full_idempotent_sample() {
    let s = "\u{FF8F}\u{FF82}\u{FF75} \u{FF8A}\u{FF9E}\u{FF7C}\u{FF6E}\u{FF73} \u{FF71}\u{FF9F}";
    let once = half2full(s);
    assert_eq!(once, half2full(&once));
}

#[test]
fn wide_ascii_round_trip_sample() {
    let s = "!#&0129@AZaz~";
    assert_eq!(s, wide2ascii(&ascii2wide(s)));
}

#[test]
fn hira_kata_round_trip_sample() {
    let s = "\u{3041}\u{304B}\u{306A}\u{3093}\u{3094}\u{3096}";
    assert_eq!(s, kata2hira(&hira2kata(s)));
}

#[test]
fn vsmark_variants_recognized_alike() {
    // the same mark spelled half-width, full-width, combining, and
    // space-plus-combining: normalizing to half first changes nothing
    let s = "\u{306F}\u{FF9E}\u{306F}\u{309B}\u{306F}\u{3099}\u{306F} \u{3099}\u{306F}\u{FF9F}";
    assert_eq!(vsmark2full(s), vsmark2full(&vsmark2half(s)));
}

#[test]
fn combine_keeps_unmerged_mark() {
    // no base for the mark: it survives, re-expanded behind a space
    assert_eq!("\u{3093} \u{3099}", combine("\u{3093}\u{3099}"));
}

#[test]
fn combine_space_prefixed_mark_merges() {
    // a space-prefixed combining mark still merges with the base before it
    assert_eq!("\u{304C}", combine("\u{304B} \u{3099}"));
}

#[test]
fn combine_mark_after_mark_stays() {
    // two marks in a row never merge with each other
    assert_eq!("\u{304C} \u{3099}", combine("\u{304B}\u{3099}\u{3099}"));
}

#[test]
fn half2kana_trailing_mark_merges() {
    // a mark at the very end of the line still merges with its base
    assert_eq!("\u{30AC}", half2kana("\u{FF76}\u{FF9E}"));
}

#[test]
fn half2kana_bare_marks_get_spaces() {
    // a mark with no base at all is expanded behind an inserted space
    assert_eq!(" \u{3099} \u{3099}", half2kana("\u{FF9E}\u{FF9E}"));
}

#[test]
fn converters_keep_empty_text() {
    assert_eq!("", half2full(""));
    assert_eq!("", half2kana(""));
    assert_eq!("", combine(""));
    assert_eq!("", vsmark2half(""));
    assert_eq!("", vsmark2full(""));
    assert_eq!("", vsmark2combi(""));
    assert_eq!("", wide2ascii(""));
    assert_eq!("", ascii2wide(""));
    assert_eq!("", hira2kata(""));
    assert_eq!("", kata2hira(""));
    assert_eq!("", nowidespace(""));
    assert_eq!("", space2wide(""));
    assert_eq!("", nowideyen(""));
    assert_eq!("", yen2wide(""));
}

#[test]
fn unmapped_characters_pass_through() {
    let s = "Tokyo 2026\u{3042}";
    assert_eq!(s, half2full(s));
    assert_eq!(s, combine(s));
    assert_eq!(s, wide2ascii(s));
    assert_eq!(s, kata2hira(s));
}

fn choice_none() -> ConverterChoice {
    ConverterChoice {
        half2full: false,
        half2kana: false,
        combine: false,
        hira2kata: false,
        kata2hira: false,
        vsmark2half: false,
        vsmark2full: false,
        vsmark2combi: false,
        ascii2wide: false,
        wide2ascii: false,
        nowidespace: false,
        space2wide: false,
        nowideyen: false,
        yen2wide: false,
    }
}

#[test]
fn get_converter_picks_selected() {
    let mut choice = choice_none();
    choice.combine = true;
    assert_eq!(Converter::Combine, get_converter(&choice));
}

#[test]
fn get_converter_order_of_precedence() {
    let mut choice = choice_none();
    choice.yen2wide = true;
    choice.half2kana = true;
    assert_eq!(Converter::Half2kana, get_converter(&choice));
}

#[test]
fn convert_dispatches() {
    assert_eq!("\u{30AB}\u{30CA}", convert(Converter::Hira2kata, "\u{304B}\u{306A}"));
    assert_eq!("\u{304C}\u{306A}", convert(Converter::Combine, "\u{304B}\u{309B}\u{306A}"));
    assert_eq!("abc", convert(Converter::Wide2ascii, "\u{FF41}\u{FF42}\u{FF43}"));
}
