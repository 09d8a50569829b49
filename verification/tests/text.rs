use parking_system::text::{char_is_whitespace, parse_number, push_decimal, trim};

#[test]
fn trim_drops_outer_white_space() {
    assert_eq!(trim("  a b \n"), "a b");
    assert_eq!(trim("\t\r\nAlice\u{3000}"), "Alice");
    assert_eq!(trim("KA01AB1234"), "KA01AB1234");
}

#[test]
fn trim_of_white_space_only_is_empty() {
    assert_eq!(trim(""), "");
    assert_eq!(trim(" \t \n"), "");
}

#[test]
fn trim_keeps_characters_of_several_bytes() {
    assert_eq!(trim(" Zoë Müller \n"), "Zoë Müller");
    assert_eq!(trim("\u{a0}車\u{2003}"), "車");
}

#[test]
fn trim_agrees_with_the_standard_library() {
    let samples = [
        "", " ", "x", " x", "x ", " x y ", "\u{85}x\u{1680}", "\u{200b}x", "\u{2028}x\u{2029}",
        "\u{202f}x\u{205f}", "\u{feff}x", "\u{1c}x\u{1f}", "\u{b}\u{c}x",
    ];
    for sample in samples {
        assert_eq!(trim(sample), sample.trim());
    }
}

#[test]
fn white_space_agrees_with_the_standard_library() {
    for code in 0..=0x3100u32 {
        if let Some(c) = char::from_u32(code) {
            assert_eq!(char_is_whitespace(c), c.is_whitespace());
        }
    }
    assert!(!char_is_whitespace('\u{feff}'));
    assert!(!char_is_whitespace('\u{10ffff}'));
}

#[test]
fn parse_number_reads_digits() {
    assert_eq!(parse_number("0", 30), Some(0));
    assert_eq!(parse_number("7", 30), Some(7));
    assert_eq!(parse_number("30", 30), Some(30));
    assert_eq!(parse_number("007", 30), Some(7));
    assert_eq!(parse_number("18446744073709551615", u64::MAX), Some(u64::MAX));
}

#[test]
fn parse_number_takes_one_plus_sign() {
    assert_eq!(parse_number("+7", 30), Some(7));
    assert_eq!(parse_number("++7", 30), None);
    assert_eq!(parse_number("+", 30), None);
    assert_eq!(parse_number("7+", 30), None);
}

#[test]
fn parse_number_refuses_what_is_no_numeral() {
    assert_eq!(parse_number("", 30), None);
    assert_eq!(parse_number("-7", 30), None);
    assert_eq!(parse_number("abc", 30), None);
    assert_eq!(parse_number("1a", 30), None);
    assert_eq!(parse_number(" 7", 30), None);
    assert_eq!(parse_number("7 ", 30), None);
    assert_eq!(parse_number("1.5", 30), None);
    assert_eq!(parse_number("٣", 30), None);
}

#[test]
fn parse_number_refuses_what_is_over_the_limit() {
    assert_eq!(parse_number("31", 30), None);
    assert_eq!(parse_number("300", 30), None);
    assert_eq!(parse_number("18446744073709551616", u64::MAX), None);
    assert_eq!(parse_number("99999999999999999999999999", 30), None);
    assert_eq!(parse_number("5", 4), None);
    assert_eq!(parse_number("10", 9), None);
}

#[test]
fn parse_number_agrees_with_the_standard_library() {
    let samples = ["", "+", "-", "0", "+0", "-0", "12", "+12", "0012", "1_2", "12 ", "0x10", "１２"];
    for sample in samples {
        assert_eq!(parse_number(sample, u64::MAX), sample.parse::<u64>().ok());
    }
}

#[test]
fn push_decimal_writes_numbers() {
    let mut out = String::new();
    push_decimal(&mut out, 0);
    assert_eq!(out, "0");
    push_decimal(&mut out, 1203);
    assert_eq!(out, "01203");
    let mut out = String::from("n=");
    push_decimal(&mut out, u64::MAX);
    assert_eq!(out, "n=18446744073709551615");
}

#[test]
fn push_decimal_is_read_back_by_parse_number() {
    for n in [0u64, 1, 9, 10, 30, 99, 100, 7200, 123_456_789] {
        let mut out = String::new();
        push_decimal(&mut out, n);
        assert_eq!(out, n.to_string());
        assert_eq!(parse_number(&out, u64::MAX), Some(n));
    }
}
