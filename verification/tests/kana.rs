use kana::ascii2wide;
use kana::combine;
use kana::half2full;
use kana::half2kana;
use kana::hira2kata;
use kana::kata2hira;
use kana::nowidespace;
use kana::nowideyen;
use kana::space2wide;
use kana::tables::halves_lookup;
use kana::wide2ascii;
use kana::yen2wide;

#[test]
fn pub_fn_t1() {
    assert_eq!("!rust-0;", wide2ascii("\u{FF01}\u{FF52}\u{FF55}\u{FF53}\u{FF54}\u{FF0D}\u{FF10}\u{FF1B}"));
    assert_eq!("\u{FF01}\u{FF52}\u{FF55}\u{FF53}\u{FF54}\u{FF0D}\u{FF10}\u{FF1B}", ascii2wide("!rust-0;"));
    assert_eq!("\u{30AB}\u{30CA}", hira2kata("\u{304B}\u{306A}"));
    assert_eq!("\u{304B}\u{306A}", kata2hira("\u{30AB}\u{30CA}"));
}

#[test]
fn pub_fn_t2() {
    assert_eq!(" ", nowidespace("\u{3000}"));
    assert_eq!("\u{3000}", space2wide(" "));
    assert_eq!("\u{A5}", nowideyen("\u{FFE5}"));
    assert_eq!("\u{FFE5}", yen2wide("\u{A5}"));
}

#[test]
fn kana_t1() {
    assert_eq!(Some('\u{30A2}'), halves_lookup('\u{FF71}'));
    assert_eq!("\u{30AB}\u{3099}\u{30CA}", half2full("\u{FF76}\u{FF9E}\u{FF85}"));
    assert_eq!("\u{30AC}\u{30CA}", half2kana("\u{FF76}\u{FF9E}\u{FF85}"));
    assert_eq!("\u{304C}\u{306A}", combine("\u{304B}\u{309B}\u{306A}"));
}
