use gallog_cleaner::text::{contains, str_eq, to_chars, to_decimal};

#[test]
fn contains_finds_a_word_in_the_middle() {
    assert!(contains("{\"result\":\"success\"}", "success"));
    assert!(!contains("{\"result\":\"fail\"}", "success"));
}

#[test]
fn contains_takes_the_empty_needle_everywhere() {
    assert!(contains("", ""));
    assert!(contains("abc", ""));
    assert!(!contains("", "a"));
}

#[test]
fn contains_works_on_characters_not_bytes() {
    assert!(contains("삭제할 게시물이 없습니다", "게시물"));
    assert!(!contains("삭제", "제삭"));
}

#[test]
fn str_eq_compares_whole_strings() {
    assert!(str_eq("ci_c", "ci_c"));
    assert!(!str_eq("ci_c", "ci_t"));
    assert!(!str_eq("ci_c", "ci_"));
    assert!(str_eq("", ""));
}

#[test]
fn to_chars_keeps_every_character() {
    assert_eq!(to_chars("a개b"), vec!['a', '개', 'b']);
}

#[test]
fn to_decimal_writes_numerals() {
    assert_eq!(to_decimal(0), "0");
    assert_eq!(to_decimal(7), "7");
    assert_eq!(to_decimal(10), "10");
    assert_eq!(to_decimal(4096), "4096");
    assert_eq!(to_decimal(u64::MAX), "18446744073709551615");
}

#[test]
fn trim_drops_white_space_at_both_ends_only() {
    assert_eq!(gallog_cleaner::text::trim("  \n\t프로 그래밍 \r\n"), "프로 그래밍");
    assert_eq!(gallog_cleaner::text::trim("abc"), "abc");
    assert_eq!(gallog_cleaner::text::trim(" \u{3000} "), "");
    assert_eq!(gallog_cleaner::text::trim(""), "");
}

#[test]
fn join_concatenates_in_order() {
    let parts = vec!["게임".to_string(), "".to_string(), "!".to_string()];
    assert_eq!(gallog_cleaner::text::join(&parts), "게임!");
    assert_eq!(gallog_cleaner::text::join(&Vec::new()), "");
}

#[test]
fn push_signed_writes_the_sign() {
    let mut out = String::from("id=");
    gallog_cleaner::text::push_signed(&mut out, -42);
    assert_eq!(out, "id=-42");
    let mut low = String::new();
    gallog_cleaner::text::push_signed(&mut low, i64::MIN);
    assert_eq!(low, "-9223372036854775808");
    let mut high = String::new();
    gallog_cleaner::text::push_signed(&mut high, i64::MAX);
    assert_eq!(high, "9223372036854775807");
}
