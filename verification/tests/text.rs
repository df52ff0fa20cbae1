use atac::text::{
    bool_to_text, chars_of, decimal_text, is_white_space_char, join_lines, parse_unsigned_text, replace_text, same_text,
    string_of, trim_text, write_decimal,
};

#[test]
fn trimming_removes_unicode_white_space_at_both_ends() {
    assert_eq!(trim_text("  a b \t\n"), "a b");
    assert_eq!(trim_text("\u{3000}x\u{a0}"), "x");
    assert_eq!(trim_text(" \r\n "), "");
    assert_eq!(trim_text(""), "");
    assert!(is_white_space_char('\u{2029}'));
    assert!(!is_white_space_char('_'));
}

#[test]
fn unsigned_numbers_are_read_as_from_str_does() {
    assert_eq!(parse_unsigned_text("0", 10), Some(0));
    assert_eq!(parse_unsigned_text("+7", 10), Some(7));
    assert_eq!(parse_unsigned_text("10", 10), Some(10));
    assert_eq!(parse_unsigned_text("11", 10), None);
    assert_eq!(parse_unsigned_text("", 10), None);
    assert_eq!(parse_unsigned_text("+", 10), None);
    assert_eq!(parse_unsigned_text("-1", 10), None);
    assert_eq!(parse_unsigned_text(" 1", 10), None);
    assert_eq!(parse_unsigned_text("00042", 100), Some(42));
    assert_eq!(parse_unsigned_text("4294967295", u32::MAX as u64), Some(4294967295));
    assert_eq!(parse_unsigned_text("4294967296", u32::MAX as u64), None);
    assert_eq!(parse_unsigned_text("99999999999999999999999", u32::MAX as u64), None);
}

#[test]
fn numbers_and_booleans_as_text() {
    assert_eq!(decimal_text(0), "0");
    assert_eq!(decimal_text(1048576), "1048576");
    assert_eq!(decimal_text(u128::MAX), u128::MAX.to_string());
    let mut out = String::from("n=");
    write_decimal(305, &mut out);
    assert_eq!(out, "n=305");
    assert_eq!(bool_to_text(true), "true");
    assert_eq!(bool_to_text(false), "false");
}

#[test]
fn joining_and_replacing() {
    let lines = vec![String::from("a"), String::from(""), String::from("c")];
    assert_eq!(join_lines(&lines, "\n"), "a\n\nc");
    assert_eq!(join_lines(&lines, ""), "ac");
    assert_eq!(join_lines(&vec![], ","), "");

    assert_eq!(replace_text("aaa", "aa", "b"), "ba");
    assert_eq!(replace_text("x{{K}}y{{K}}", "{{K}}", ""), "xy");
}

#[test]
fn characters_and_comparisons() {
    let chars = chars_of("héllo");
    assert_eq!(chars, vec!['h', 'é', 'l', 'l', 'o']);
    assert_eq!(string_of(&chars, 1, 3), "él");
    assert!(same_text("é", "é"));
    assert!(!same_text("e", "é"));
    assert!(!same_text("ab", "a"));
}
