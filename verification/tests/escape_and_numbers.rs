use amogus_bot::escape::escape;
use amogus_bot::number::{fmt_u64, parse_u32, parse_u64, read_u64, IntErrorKind};
use amogus_bot::text::{split_once, trim};

#[test]
fn escape_reserved_characters() {
    assert_eq!(escape("a.b"), "a\\.b");
    assert_eq!(escape("_*[]()~`>#+-=|{}.!"), "\\_\\*\\[\\]\\(\\)\\~\\`\\>\\#\\+\\-\\=\\|\\{\\}\\.\\!");
}

#[test]
fn escape_leaves_plain_text() {
    assert_eq!(escape("hello world"), "hello world");
    assert_eq!(escape(""), "");
    assert_eq!(escape("привет, мир"), "привет, мир");
    assert_eq!(escape("\\"), "\\");
}

#[test]
fn escape_non_ascii_around_reserved() {
    assert_eq!(escape("é-ü"), "é\\-ü");
    assert_eq!(escape("1.5 🇺🇸!"), "1\\.5 🇺🇸\\!");
}

#[test]
fn escape_of_concatenation() {
    let a = "x_y";
    let b = "(z)";
    assert_eq!(escape(&format!("{}{}", a, b)), format!("{}{}", escape(a), escape(b)));
}

#[test]
fn escape_length_grows_by_reserved_count() {
    let s = "a-b-c.";
    assert_eq!(escape(s).chars().count(), s.chars().count() + 3);
}

#[test]
fn decimal_text() {
    assert_eq!(fmt_u64(0), "0");
    assert_eq!(fmt_u64(7), "7");
    assert_eq!(fmt_u64(1234567890), "1234567890");
    assert_eq!(fmt_u64(u64::MAX), "18446744073709551615");
}

#[test]
fn parse_numbers() {
    assert_eq!(parse_u64("42"), Some(42));
    assert_eq!(parse_u64("+42"), Some(42));
    assert_eq!(parse_u64("007"), Some(7));
    assert_eq!(parse_u64(""), None);
    assert_eq!(parse_u64("+"), None);
    assert_eq!(parse_u64("-1"), None);
    assert_eq!(parse_u64("12a"), None);
    assert_eq!(parse_u64(" 1"), None);
    assert_eq!(parse_u64("18446744073709551615"), Some(u64::MAX));
    assert_eq!(parse_u64("18446744073709551616"), None);
    assert_eq!(parse_u64("99999999999999999999x"), None);
}

#[test]
fn parse_numbers_like_std() {
    for s in ["0", "+0", "1", "+", "", "-0", "4294967295", "4294967296", "x", "12 ", "٣"] {
        assert_eq!(parse_u64(s), s.parse::<u64>().ok(), "{}", s);
        assert_eq!(parse_u32(s), s.parse::<u32>().ok(), "{}", s);
    }
}

#[test]
fn parse_reads_back_decimal_text() {
    for n in [0u64, 9, 10, 404, 65535, 1 << 40, u64::MAX] {
        assert_eq!(parse_u64(&fmt_u64(n)), Some(n));
    }
}

#[test]
fn split_at_first_separator() {
    assert_eq!(split_once("a b c", ' '), ("a", Some("b c")));
    assert_eq!(split_once("abc", ' '), ("abc", None));
    assert_eq!(split_once(" x", ' '), ("", Some("x")));
    assert_eq!(split_once("x ", ' '), ("x", Some("")));
}

#[test]
fn trim_both_ends() {
    assert_eq!(trim("  abc \n"), "abc");
    assert_eq!(trim("\u{3000}a b\u{a0}"), "a b");
    assert_eq!(trim("   "), "");
    assert_eq!(trim(""), "");
    assert_eq!(trim("x"), "x");
    for s in ["\t q \r", " \u{2028}y\u{85}", "zz"] {
        assert_eq!(trim(s), s.trim_end().trim_start());
    }
}

fn std_kind(s: &str) -> Result<u64, IntErrorKind> {
    s.parse::<u64>().map_err(|e| match e.kind() {
        std::num::IntErrorKind::Empty => IntErrorKind::Empty,
        std::num::IntErrorKind::InvalidDigit => IntErrorKind::InvalidDigit,
        std::num::IntErrorKind::PosOverflow => IntErrorKind::PosOverflow,
        other => panic!("unexpected kind {:?}", other),
    })
}

#[test]
fn read_u64_reports_why() {
    assert_eq!(read_u64("2934"), Ok(2934));
    assert_eq!(read_u64(""), Err(IntErrorKind::Empty));
    assert_eq!(read_u64("+"), Err(IntErrorKind::InvalidDigit));
    assert_eq!(read_u64("12a"), Err(IntErrorKind::InvalidDigit));
    assert_eq!(read_u64("18446744073709551616"), Err(IntErrorKind::PosOverflow));
    assert_eq!(read_u64("99999999999999999999x"), Err(IntErrorKind::PosOverflow));
    assert_eq!(read_u64("1x99999999999999999999"), Err(IntErrorKind::InvalidDigit));
    for t in ["", "+", "-", "0", "+0", "007", "-1", " 1", "1 ", "18446744073709551615", "18446744073709551616",
              "184467440737095516150", "99999999999999999999x", "x99999999999999999999", "++1", "+12", "١٢"] {
        assert_eq!(read_u64(t), std_kind(t), "{:?}", t);
    }
}
