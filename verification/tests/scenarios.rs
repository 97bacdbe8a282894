use kana::combine;
use kana::half2full;
use kana::half2kana;
use kana::hira2kata;
use kana::kata2hira;
use kana::vsmark2combi;
use kana::vsmark2full;
use kana::vsmark2half;
use kana::wide2ascii;

// "matsuo bashou a-(semi-voiced)" in half-width kana
const HALF_BASHO: &str = "\u{FF8F}\u{FF82}\u{FF75} \u{FF8A}\u{FF9E}\u{FF7C}\u{FF6E}\u{FF73} \u{FF71}\u{FF9F}";

#[test]
fn half2full_basho() {
    // every character expanded on its own; the marks stay combining characters
    assert_eq!(
        "\u{30DE}\u{30C4}\u{30AA} \u{30CF}\u{3099}\u{30B7}\u{30E7}\u{30A6} \u{30A2}\u{309A}",
        half2full(HALF_BASHO)
    );
}

#[test]
fn half2kana_basho() {
    // the voiced pair merges; the mark with no mergeable base gets a space
    assert_eq!(
        "\u{30DE}\u{30C4}\u{30AA} \u{30D0}\u{30B7}\u{30E7}\u{30A6} \u{30A2} \u{309A}",
        half2kana(HALF_BASHO)
    );
}

#[test]
fn combine_hiragana_marks() {
    // "hi + semi-voiced, hi + voiced, n, ha + voiced" all merge
    assert_eq!(
        "\u{3074}\u{3073}\u{3093}\u{3070}",
        combine("\u{3072}\u{309C}\u{3072}\u{309B}\u{3093}\u{306F}\u{309B}")
    );
}

#[test]
fn combine_kana_pair() {
    assert_eq!("\u{304C}\u{306A}", combine("\u{304B}\u{309B}\u{306A}"));
}

#[test]
fn vsmark2combi_full_marks() {
    assert_eq!(
        "\u{3072} \u{309A}\u{3072} \u{3099}\u{3093}\u{306F} \u{3099}",
        vsmark2combi("\u{3072}\u{309C}\u{3072}\u{309B}\u{3093}\u{306F}\u{309B}")
    );
}

#[test]
fn wide2ascii_rust_release() {
    assert_eq!(
        "#&Rust-1.6!",
        wide2ascii("\u{FF03}\u{FF06}\u{FF32}\u{FF55}\u{FF53}\u{FF54}\u{FF0D}\u{FF11}\u{FF0E}\u{FF16}\u{FF01}")
    );
}

// "hi + half semi-voiced, hi + full voiced, n, ha + space + combining voiced"
const MIXED_MARKS: &str = "\u{3072}\u{FF9F}\u{3072}\u{309B}\u{3093}\u{306F} \u{3099}";

#[test]
fn vsmark2half_mixed() {
    assert_eq!(
        "\u{3072}\u{FF9F}\u{3072}\u{FF9E}\u{3093}\u{306F}\u{FF9E}",
        vsmark2half(MIXED_MARKS)
    );
}

#[test]
fn vsmark2full_mixed() {
    assert_eq!(
        "\u{3072}\u{309C}\u{3072}\u{309B}\u{3093}\u{306F}\u{309B}",
        vsmark2full(MIXED_MARKS)
    );
}

#[test]
fn vsmark2combi_mixed() {
    assert_eq!(
        "\u{3072} \u{309A}\u{3072} \u{3099}\u{3093}\u{306F} \u{3099}",
        vsmark2combi(MIXED_MARKS)
    );
}

#[test]
fn hira2kata_small_letters() {
    assert_eq!(
        "\u{30A4}\u{30ED}\u{30CF}\u{30A1}\u{30A3}\u{30A5}\u{30F4}\u{30F5}\u{30F6}",
        hira2kata("\u{3044}\u{308D}\u{306F}\u{3041}\u{3043}\u{3045}\u{3094}\u{3095}\u{3096}")
    );
}

#[test]
fn kata2hira_small_letters() {
    assert_eq!(
        "\u{3044}\u{308D}\u{306F}\u{3041}\u{3043}\u{3045}\u{3094}\u{3095}\u{3096}",
        kata2hira("\u{30A4}\u{30ED}\u{30CF}\u{30A1}\u{30A3}\u{30A5}\u{30F4}\u{30F5}\u{30F6}")
    );
}
