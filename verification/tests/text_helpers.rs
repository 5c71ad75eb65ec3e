use kuren::text::{i64_text, join, pad_left, pad_right, repeat_char, same_text, split_on_char, starts_with_at, strip_at_prefix, trim, u64_text, contains_text, replace_all_char, prefix_bytes, starts_with_text, format_row, push_cell, Cell};
use kuren::commands::payments::truncate;

#[test]
fn strip_at() {
    assert_eq!(strip_at_prefix("@@bob"), "bob");
    assert_eq!(strip_at_prefix("bob@x"), "bob@x");
    assert_eq!(strip_at_prefix("@"), "");
    assert_eq!(strip_at_prefix(""), "");
    assert!(starts_with_at("@x"));
    assert!(!starts_with_at("x@"));
    assert!(!starts_with_at(""));
}

#[test]
fn trimming_and_splitting() {
    assert_eq!(trim("  read, write \t"), "read, write");
    assert_eq!(trim("\u{3000}x\u{a0}"), "x");
    assert_eq!(trim("   "), "");
    let parts = split_on_char("read, write,,", ',');
    assert_eq!(parts, vec!["read", " write", "", ""]);
    assert_eq!(split_on_char("", ','), vec![""]);
    assert_eq!(join(&split_on_char("a,b,c", ','), ","), "a,b,c");
}

#[test]
fn truncate_cases() {
    assert_eq!(truncate("short", 18), "short");
    assert_eq!(truncate("exactly-eighteen!!", 18), "exactly-eighteen!!");
    assert_eq!(truncate("a merchant with a long name", 18), "a merchant with...");
    assert_eq!(truncate("abcdef", 3), "...");
    assert_eq!(truncate("héllo wörld", 6), "hé...");
}

#[test]
fn numbers() {
    assert_eq!(u64_text(0), "0");
    assert_eq!(u64_text(1234567890), "1234567890");
    assert_eq!(u64_text(u64::MAX), u64::MAX.to_string());
    assert_eq!(i64_text(-42), "-42");
    assert_eq!(i64_text(i64::MIN), i64::MIN.to_string());
    assert_eq!(i64_text(i64::MAX), i64::MAX.to_string());
}

#[test]
fn padding_and_rows() {
    assert_eq!(pad_right("ab", 4), "ab  ");
    assert_eq!(pad_left("ab", 4), "  ab");
    assert_eq!(pad_right("abcdef", 4), "abcdef");
    assert_eq!(repeat_char('=', 3), "===");
    let mut cells: Vec<Cell> = Vec::new();
    push_cell(&mut cells, "Type".to_string(), 8, false);
    push_cell(&mut cells, "1.5".to_string(), 6, true);
    push_cell(&mut cells, "memo".to_string(), 0, false);
    assert_eq!(format_row(&cells), format!("{:<8} {:>6} {}", "Type", "1.5", "memo"));
}

#[test]
fn searching_and_replacing() {
    assert!(contains_text("abcdef", "cde"));
    assert!(contains_text("abc", ""));
    assert!(!contains_text("ab", "abc"));
    assert_eq!(replace_all_char("a b c", ' ', '-'), "a-b-c");
    assert_eq!(prefix_bytes("2025-02-15T10:00:00Z", 10), "2025-02-15");
    assert!(starts_with_text("https://x", "https://"));
    assert!(!starts_with_text("http", "https"));
    assert!(same_text("abc", "abc"));
    assert!(!same_text("abc", "abd"));
}

#[test]
fn trim_twice_is_trim_once() {
    for s in ["  a b  ", "\tx", "", " \u{2003} "] {
        let once = trim(s);
        assert_eq!(trim(&once), once);
    }
}

#[test]
fn truncated_text_fits_its_budget() {
    for (s, n) in [("a merchant with a long name", 18usize), ("héllo wörld", 6), ("ok", 3), ("abcdef", 3)] {
        assert!(truncate(s, n).len() <= n);
    }
}

#[test]
fn strip_twice_is_strip_once() {
    let once = strip_at_prefix("@@@x@");
    assert_eq!(strip_at_prefix(&once), once);
    assert!(!once.starts_with('@'));
}
