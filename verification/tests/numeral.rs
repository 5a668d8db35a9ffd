use statusbar::numeral::{parse_numeral, Quantity, WHOLE_CAP};

fn read(text: &str) -> Option<Quantity> {
    parse_numeral(&text.to_string())
}

fn finite(negative: bool, whole: u32, partial: bool) -> Option<Quantity> {
    Some(Quantity { negative, infinite: false, whole, partial })
}

#[test]
fn whole_numerals_are_read() {
    assert_eq!(read("0"), finite(false, 0, false));
    assert_eq!(read("7"), finite(false, 7, false));
    assert_eq!(read("160"), finite(false, 160, false));
    assert_eq!(read("007"), finite(false, 7, false));
    assert_eq!(read("999999"), finite(false, 999_999, false));
}

#[test]
fn fractions_are_told_from_zero_fractions() {
    assert_eq!(read("160.01"), finite(false, 160, true));
    assert_eq!(read("160.00"), finite(false, 160, false));
    assert_eq!(read("0.5"), finite(false, 0, true));
    assert_eq!(read("0.0"), finite(false, 0, false));
    assert_eq!(read("12.340"), finite(false, 12, true));
}

#[test]
fn minus_sign_is_read() {
    assert_eq!(read("-0"), finite(true, 0, false));
    assert_eq!(read("-12.5"), finite(true, 12, true));
}

#[test]
fn infinities_are_read() {
    assert_eq!(read("inf"), Some(Quantity { negative: false, infinite: true, whole: 0, partial: false }));
    assert_eq!(read("-inf"), Some(Quantity { negative: true, infinite: true, whole: 0, partial: false }));
}

#[test]
fn whole_part_is_held_to_the_cap() {
    assert_eq!(WHOLE_CAP, 1_000_000);
    assert_eq!(read("1000000"), finite(false, 1_000_000, false));
    assert_eq!(read("1000001"), finite(false, 1_000_000, false));
    assert_eq!(read("99999999999999999999999999.5"), finite(false, 1_000_000, true));
    assert_eq!(read("4294967296"), finite(false, 1_000_000, false));
}

#[test]
fn malformed_text_is_not_read() {
    for text in ["", "-", ".", "1.", ".1", "1..2", "1.2.3", "1-", "-+1", "+1", "1e3", "NaN", "nan", "Inf", "infinity", "1 ", " 1", "1,5", "٣"] {
        assert_eq!(read(text), None, "{:?}", text);
    }
}

#[test]
fn comparisons_follow_the_number() {
    let q = read("160.01").unwrap();
    assert!(!q.below(160));
    assert!(!q.at_most(160));
    assert!(q.below(161));
    let q = read("160").unwrap();
    assert!(!q.below(160));
    assert!(q.at_most(160));
    let q = read("-0").unwrap();
    assert!(!q.below(0));
    assert!(q.at_most(0));
    assert!(q.below(1));
    let q = read("-0.1").unwrap();
    assert!(q.below(0));
    let q = read("inf").unwrap();
    assert!(!q.at_most(u32::MAX));
    assert!(!q.below(u32::MAX));
    let q = read("-inf").unwrap();
    assert!(q.below(0));
    assert!(q.at_most(0));
}
