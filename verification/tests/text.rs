use file_host::text::{decimal_text, join, parse_u16, parse_u64, same_text};

#[test]
fn join_puts_the_second_text_after_the_first() {
    assert_eq!(join("abc", "def"), "abcdef");
    assert_eq!(join("", "x"), "x");
    assert_eq!(join("x", ""), "x");
    assert_eq!(join("é", "ü"), "éü");
}

#[test]
fn same_text_compares_characters() {
    assert!(same_text("png", "png"));
    assert!(!same_text("png", "PNG"));
    assert!(!same_text("png", "pn"));
    assert!(same_text("", ""));
}

#[test]
fn decimal_text_of_small_numbers() {
    assert_eq!(decimal_text(0), "0");
    assert_eq!(decimal_text(7), "7");
    assert_eq!(decimal_text(9), "9");
    assert_eq!(decimal_text(10), "10");
    assert_eq!(decimal_text(413), "413");
}

#[test]
fn decimal_text_of_large_numbers() {
    assert_eq!(decimal_text(104857600), "104857600");
    assert_eq!(decimal_text(1000000000000), "1000000000000");
    assert_eq!(decimal_text(u64::MAX), "18446744073709551615");
}

#[test]
fn decimal_text_agrees_with_the_standard_formatting() {
    let mut n: u64 = 1;
    for _ in 0..64 {
        assert_eq!(decimal_text(n), format!("{}", n));
        assert_eq!(decimal_text(n - 1), format!("{}", n - 1));
        n = n.wrapping_mul(2);
        if n == 0 {
            break;
        }
    }
}

#[test]
fn parse_u64_reads_plain_numbers() {
    assert_eq!(parse_u64("0"), Some(0));
    assert_eq!(parse_u64("100"), Some(100));
    assert_eq!(parse_u64("8080"), Some(8080));
    assert_eq!(parse_u64("18446744073709551615"), Some(u64::MAX));
}

#[test]
fn parse_u64_takes_a_plus_sign_and_leading_zeros() {
    assert_eq!(parse_u64("+5"), Some(5));
    assert_eq!(parse_u64("007"), Some(7));
    assert_eq!(parse_u64("+000"), Some(0));
    assert_eq!(parse_u64("0000000000000000000000000000018446744073709551615"), Some(u64::MAX));
}

#[test]
fn parse_u64_refuses_what_is_no_number() {
    assert_eq!(parse_u64(""), None);
    assert_eq!(parse_u64("+"), None);
    assert_eq!(parse_u64("-"), None);
    assert_eq!(parse_u64("-1"), None);
    assert_eq!(parse_u64("-0"), None);
    assert_eq!(parse_u64("++1"), None);
    assert_eq!(parse_u64("1+"), None);
    assert_eq!(parse_u64(" 1"), None);
    assert_eq!(parse_u64("1 "), None);
    assert_eq!(parse_u64("1_000"), None);
    assert_eq!(parse_u64("1.0"), None);
    assert_eq!(parse_u64("0x10"), None);
    assert_eq!(parse_u64("abc"), None);
    assert_eq!(parse_u64("١٢٣"), None);
}

#[test]
fn parse_u64_refuses_numbers_that_do_not_fit() {
    assert_eq!(parse_u64("18446744073709551616"), None);
    assert_eq!(parse_u64("18446744073709551620"), None);
    assert_eq!(parse_u64("99999999999999999999"), None);
    assert_eq!(parse_u64("184467440737095516150"), None);
    assert_eq!(parse_u64("18446744073709551616x"), None);
}

#[test]
fn parse_u64_agrees_with_the_standard_parser() {
    let inputs = [
        "", "0", "1", "+1", "-1", "+", "-", "00", "+00", "12345", "18446744073709551615",
        "18446744073709551616", "1e3", " 12", "12 ", "1_2", "+-1", "٣", "9223372036854775808",
        "000000000000000000000000000001", "4294967296", "65535", "65536",
    ];
    for text in inputs {
        assert_eq!(parse_u64(text), text.parse::<u64>().ok(), "input {:?}", text);
        assert_eq!(parse_u16(text), text.parse::<u16>().ok(), "input {:?}", text);
    }
}

#[test]
fn parse_u16_stops_at_65535() {
    assert_eq!(parse_u16("65535"), Some(65535));
    assert_eq!(parse_u16("65536"), None);
    assert_eq!(parse_u16("8080"), Some(8080));
    assert_eq!(parse_u16("0"), Some(0));
    assert_eq!(parse_u16("port"), None);
}

#[test]
fn decimal_text_and_parse_u64_undo_each_other() {
    for n in [0u64, 1, 9, 10, 99, 100, 65535, 104857600, u64::MAX - 1, u64::MAX] {
        assert_eq!(parse_u64(&decimal_text(n)), Some(n));
    }
}
