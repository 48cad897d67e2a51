use startup_layout::text::{
    format_i32, format_u64, is_blank, parse_i32, parse_u32, parse_usize,
};

#[test]
fn parse_i32_accepts_signs_and_digits() {
    assert_eq!(parse_i32("0"), Some(0));
    assert_eq!(parse_i32("42"), Some(42));
    assert_eq!(parse_i32("+42"), Some(42));
    assert_eq!(parse_i32("-42"), Some(-42));
    assert_eq!(parse_i32("007"), Some(7));
    assert_eq!(parse_i32("2147483647"), Some(i32::MAX));
    assert_eq!(parse_i32("-2147483648"), Some(i32::MIN));
}

#[test]
fn parse_i32_rejects_what_std_rejects() {
    for s in ["", "-", "+", " 1", "1 ", "1.5", "abc", "--1", "+-1", "2147483648", "-2147483649", "１"] {
        assert_eq!(parse_i32(s), s.parse::<i32>().ok(), "input {:?}", s);
        assert_eq!(parse_i32(s), None, "input {:?}", s);
    }
}

#[test]
fn parse_unsigned_matches_std() {
    for s in ["0", "1000", "+5", "-0", "-5", "", "4294967295", "4294967296", "18446744073709551615", "18446744073709551616", "x1"] {
        assert_eq!(parse_u32(s), s.parse::<u32>().ok(), "u32 input {:?}", s);
        assert_eq!(parse_usize(s), s.parse::<usize>().ok(), "usize input {:?}", s);
    }
}

#[test]
fn format_matches_to_string() {
    for v in [0i32, 7, -7, 1280, -1280, i32::MAX, i32::MIN] {
        assert_eq!(format_i32(v), v.to_string());
        assert_eq!(parse_i32(&format_i32(v)), Some(v));
    }
    for n in [0u64, 9, 10, 1000, u64::MAX] {
        assert_eq!(format_u64(n), n.to_string());
    }
}

#[test]
fn blank_means_only_white_space() {
    assert!(is_blank(""));
    assert!(is_blank("   \t\n"));
    assert!(is_blank("\u{3000}\u{a0}"));
    assert!(!is_blank(" a "));
    assert!(!is_blank("名前"));
    for s in ["", " ", "\u{2003}x", "\u{200b}"] {
        assert_eq!(is_blank(s), s.trim().is_empty(), "input {:?}", s);
    }
}
