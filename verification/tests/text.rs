use rust_iss::text::{i64_text, parse_u64, split_commas, str_eq, u64_text};

#[test]
fn decimal_text_of_unsigned() {
    assert_eq!(u64_text(0), "0");
    assert_eq!(u64_text(7), "7");
    assert_eq!(u64_text(10), "10");
    assert_eq!(u64_text(1_600_000_000), "1600000000");
    assert_eq!(u64_text(u64::MAX), "18446744073709551615");
    for n in [1u64, 9, 99, 100, 101, 12345, 1 << 40] {
        assert_eq!(u64_text(n), n.to_string());
    }
}

#[test]
fn decimal_text_of_signed() {
    assert_eq!(i64_text(0), "0");
    assert_eq!(i64_text(-1), "-1");
    assert_eq!(i64_text(42), "42");
    assert_eq!(i64_text(i64::MAX), "9223372036854775807");
    assert_eq!(i64_text(i64::MIN), "-9223372036854775808");
}

#[test]
fn parse_u64_accepts_what_std_accepts() {
    let cases = [
        "", "0", "7", "+7", "-7", "007", "+", "-", " 7", "7 ", "7a", "a7", "1_000", "+-1", "++1",
        "18446744073709551615", "18446744073709551616", "99999999999999999999999",
        "000000000000000000000000000001", "١٢٣", "7\u{e9}", "\u{e9}", "+0", "0x10", "1e3", "1.0",
    ];
    for case in cases {
        assert_eq!(parse_u64(case), case.parse::<u64>().ok(), "input {:?}", case);
    }
}

#[test]
fn parse_u64_exact_values() {
    assert_eq!(parse_u64("600"), Some(600));
    assert_eq!(parse_u64("+18446744073709551615"), Some(u64::MAX));
    assert_eq!(parse_u64("18446744073709551616"), None);
    assert_eq!(parse_u64("twenty"), None);
}

#[test]
fn str_eq_compares_contents() {
    assert!(str_eq("", ""));
    assert!(str_eq("apod", "apod"));
    assert!(!str_eq("apod", "apo"));
    assert!(!str_eq("apod", "apoD"));
    assert!(str_eq("\u{e9}t\u{e9}", "\u{e9}t\u{e9}"));
    assert!(!str_eq("\u{e9}", "e"));
}

#[test]
fn split_commas_parts_like_std() {
    for case in ["", ",", "a", "a,b", "a,,b", ",a,", "apod, neo ,FLR", "\u{e9},\u{fc}", ",,,"] {
        let expected: Vec<String> = case.split(',').map(|p| p.to_string()).collect();
        assert_eq!(split_commas(case), expected, "input {:?}", case);
    }
    assert_eq!(split_commas("a,b"), vec!["a".to_string(), "b".to_string()]);
    assert_eq!(split_commas(""), vec!["".to_string()]);
}
