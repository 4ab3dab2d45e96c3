use conversation_engine::numeral::{decimal_text, parse_u64};

#[test]
fn parse_accepts_plain_numerals() {
    assert_eq!(parse_u64("0"), Some(0));
    assert_eq!(parse_u64("7"), Some(7));
    assert_eq!(parse_u64("42"), Some(42));
    assert_eq!(parse_u64("1700000000"), Some(1_700_000_000));
    assert_eq!(parse_u64("18446744073709551615"), Some(u64::MAX));
}

#[test]
fn parse_accepts_a_plus_sign_and_leading_zeros() {
    assert_eq!(parse_u64("+15"), Some(15));
    assert_eq!(parse_u64("+0"), Some(0));
    assert_eq!(parse_u64("000123"), Some(123));
    assert_eq!(parse_u64("+0000000000000000000000000042"), Some(42));
}

#[test]
fn parse_refuses_everything_else() {
    for text in [
        "", "+", "-", "-1", "++1", "1+", "1 ", " 1", "1\n", "0x10", "1_000", "1e3", "12a4", "a",
        "١٢٣", "１２", "1.0", "18446744073709551616", "99999999999999999999",
        "184467440737095516150",
    ] {
        assert_eq!(parse_u64(text), None, "{:?}", text);
    }
}

#[test]
fn parse_agrees_with_the_standard_parser() {
    for text in [
        "", "0", "+0", "-0", "+", "5", "+5", "05", "18446744073709551615", "18446744073709551616",
        "+18446744073709551615", "12 ", "é", "1é", "+-1", "0000000000000000000000000000000001",
    ] {
        assert_eq!(parse_u64(text), text.parse::<u64>().ok(), "{:?}", text);
    }
}

#[test]
fn decimal_text_writes_without_leading_zeros() {
    assert_eq!(decimal_text(0), "0");
    assert_eq!(decimal_text(9), "9");
    assert_eq!(decimal_text(10), "10");
    assert_eq!(decimal_text(1_700_000_000), "1700000000");
    assert_eq!(decimal_text(u64::MAX), "18446744073709551615");
}

#[test]
fn written_numerals_read_back() {
    for n in [0u64, 1, 9, 10, 99, 100, 21_600, 1_700_000_000, u64::MAX - 1, u64::MAX] {
        assert_eq!(parse_u64(decimal_text(n).as_str()), Some(n));
        assert_eq!(decimal_text(n), n.to_string());
    }
}
