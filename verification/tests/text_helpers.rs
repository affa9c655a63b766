use api::text::{
    contains_text, debug_quoted, i64_to_text, parse_usize, same_text, u64_to_text,
};

#[test]
fn numbers_are_written_in_decimal() {
    assert_eq!(u64_to_text(0), "0");
    assert_eq!(u64_to_text(3600), "3600");
    assert_eq!(u64_to_text(u64::MAX), u64::MAX.to_string());
    assert_eq!(i64_to_text(-2), "-2");
    assert_eq!(i64_to_text(i64::MIN), i64::MIN.to_string());
    assert_eq!(i64_to_text(42), "42");
}

#[test]
fn numbers_parse_as_std_parses_them() {
    for s in ["", "+", "-", "0", "007", "+5", "-5", "12a", " 1", "18446744073709551615", "18446744073709551616", "99999999999999999999999"] {
        assert_eq!(parse_usize(s), s.parse::<usize>().ok(), "input {:?}", s);
    }
}

#[test]
fn written_numbers_read_back() {
    for n in [0u64, 1, 9, 10, 99, 100, 123456789, u32::MAX as u64] {
        assert_eq!(parse_usize(&u64_to_text(n)), Some(n as usize));
    }
}

#[test]
fn containment_matches_std() {
    for (h, n) in [("Naruto", "aru"), ("Naruto", ""), ("", ""), ("", "a"), ("abc", "abcd"), ("ずっと", "っと"), ("aaab", "aab")] {
        assert_eq!(contains_text(h, n), h.contains(n), "{:?} {:?}", h, n);
    }
}

#[test]
fn texts_compare_by_characters() {
    assert!(same_text("q", "q"));
    assert!(!same_text("q", "l"));
    assert!(!same_text("q", "qq"));
}

#[test]
fn debug_form_quotes_and_escapes() {
    assert_eq!(debug_quoted("abc"), "\"abc\"");
    assert_eq!(debug_quoted("a\"b"), "\"a\\\"b\"");
    assert_eq!(debug_quoted("line\n"), "\"line\\n\"");
}
