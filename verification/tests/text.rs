use rusty_tasks::text::{decimal_string, is_whitespace, parse_id, trim};

#[test]
fn decimal_string_writes_small_numbers() {
    assert_eq!(decimal_string(0), "0");
    assert_eq!(decimal_string(7), "7");
    assert_eq!(decimal_string(10), "10");
    assert_eq!(decimal_string(42), "42");
    assert_eq!(decimal_string(100), "100");
    assert_eq!(decimal_string(9_999), "9999");
    assert_eq!(decimal_string(1_234_567_890), "1234567890");
}

#[test]
fn decimal_string_writes_the_largest_number() {
    assert_eq!(decimal_string(usize::MAX), usize::MAX.to_string());
}

#[test]
fn decimal_string_agrees_with_std() {
    for n in 0..5_000usize {
        assert_eq!(decimal_string(n), n.to_string());
    }
    let mut n: usize = 1;
    while n < usize::MAX / 7 {
        assert_eq!(decimal_string(n), n.to_string());
        assert_eq!(decimal_string(n - 1), (n - 1).to_string());
        n *= 7;
    }
}

#[test]
fn is_whitespace_agrees_with_std_on_every_char() {
    for code in 0..=0x10FFFFu32 {
        if let Some(c) = char::from_u32(code) {
            assert_eq!(is_whitespace(c), c.is_whitespace(), "U+{:04X}", code);
        }
    }
}

#[test]
fn is_whitespace_knows_the_common_cases() {
    assert!(is_whitespace(' '));
    assert!(is_whitespace('\n'));
    assert!(is_whitespace('\r'));
    assert!(is_whitespace('\t'));
    assert!(is_whitespace('\u{00A0}'));
    assert!(is_whitespace('\u{3000}'));
    assert!(!is_whitespace('a'));
    assert!(!is_whitespace('1'));
    assert!(!is_whitespace('_'));
    assert!(!is_whitespace('\u{200B}'));
}

#[test]
fn trim_removes_space_on_both_sides() {
    assert_eq!(trim("buy milk\n"), "buy milk");
    assert_eq!(trim("  buy milk  "), "buy milk");
    assert_eq!(trim("\t 1 \r\n"), "1");
    assert_eq!(trim("1"), "1");
}

#[test]
fn trim_keeps_space_inside() {
    assert_eq!(trim("  a  b\tc  "), "a  b\tc");
}

#[test]
fn trim_of_blank_text_is_empty() {
    assert_eq!(trim(""), "");
    assert_eq!(trim(" "), "");
    assert_eq!(trim("\n"), "");
    assert_eq!(trim(" \t\r\n  "), "");
}

#[test]
fn trim_handles_text_beyond_ascii() {
    assert_eq!(trim("\u{3000}caf\u{e9} \u{2003}"), "caf\u{e9}");
    assert_eq!(trim("\u{a0}\u{1F600}\u{a0}"), "\u{1F600}");
    assert_eq!(trim("\u{200B}x\u{200B}"), "\u{200B}x\u{200B}");
}

#[test]
fn trim_agrees_with_std() {
    let samples = [
        "",
        " ",
        "x",
        " x",
        "x ",
        " x ",
        "\n\n",
        "1\n",
        "  two words  ",
        "\u{85}next line\u{85}",
        "\u{2028}line sep\u{2029}",
        "\u{feff}bom",
        "tab\t",
        "\u{1680}ogham\u{205F}",
        "   \u{e9}",
    ];
    for sample in samples {
        assert_eq!(trim(sample), sample.trim(), "{:?}", sample);
    }
}

#[test]
fn parse_id_reads_numerals() {
    assert_eq!(parse_id("0"), Some(0));
    assert_eq!(parse_id("1"), Some(1));
    assert_eq!(parse_id("42"), Some(42));
    assert_eq!(parse_id("1234567890"), Some(1_234_567_890));
}

#[test]
fn parse_id_accepts_leading_zeros_and_a_plus_sign() {
    assert_eq!(parse_id("007"), Some(7));
    assert_eq!(parse_id("+5"), Some(5));
    assert_eq!(parse_id("+0"), Some(0));
    assert_eq!(parse_id("0000000000000000000000000000000000000012"), Some(12));
}

#[test]
fn parse_id_refuses_what_is_no_numeral() {
    assert_eq!(parse_id(""), None);
    assert_eq!(parse_id("+"), None);
    assert_eq!(parse_id("abc"), None);
    assert_eq!(parse_id("-1"), None);
    assert_eq!(parse_id("-0"), None);
    assert_eq!(parse_id("++1"), None);
    assert_eq!(parse_id("1+"), None);
    assert_eq!(parse_id("4 2"), None);
    assert_eq!(parse_id(" 42"), None);
    assert_eq!(parse_id("42 "), None);
    assert_eq!(parse_id("1.5"), None);
    assert_eq!(parse_id("1_000"), None);
    assert_eq!(parse_id("0x10"), None);
    assert_eq!(parse_id("\u{661}\u{662}"), None);
    assert_eq!(parse_id("\u{ff11}"), None);
}

#[test]
fn parse_id_stops_at_the_machine_word() {
    let largest = usize::MAX.to_string();
    assert_eq!(parse_id(&largest), Some(usize::MAX));
    let mut digits: Vec<char> = largest.chars().collect();
    let last = digits.len() - 1;
    assert_ne!(digits[last], '9');
    digits[last] = char::from_digit(digits[last].to_digit(10).unwrap() + 1, 10).unwrap();
    let beyond: String = digits.into_iter().collect();
    assert_eq!(parse_id(&beyond), None);
    assert_eq!(parse_id(&format!("{}0", largest)), None);
    assert_eq!(parse_id("99999999999999999999999999999999999999999"), None);
    assert_eq!(parse_id("99999999999999999999999999999999999999999x"), None);
}

#[test]
fn parse_id_agrees_with_std() {
    let samples = [
        "", "+", "-", "0", "+0", "-0", "00", "9", "10", "+10", "-10", "1a", "a1", " 1", "1 ",
        "18446744073709551615", "18446744073709551616", "4294967295", "4294967296",
        "+4294967296", "1e3", "١", "１２", "+-1", "1\n",
    ];
    for sample in samples {
        assert_eq!(parse_id(sample), sample.parse::<usize>().ok(), "{:?}", sample);
    }
}

#[test]
fn parse_id_reads_back_what_decimal_string_writes() {
    for n in 0..3_000usize {
        assert_eq!(parse_id(&decimal_string(n)), Some(n));
    }
    assert_eq!(parse_id(&decimal_string(usize::MAX)), Some(usize::MAX));
    assert_eq!(parse_id(&decimal_string(usize::MAX - 1)), Some(usize::MAX - 1));
}
