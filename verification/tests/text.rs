use audit_viewer::text::{decimal_text, pad_right, same_text, truncate};

#[test]
fn decimal_of_small_and_large_numbers() {
    assert_eq!(decimal_text(0), "0");
    assert_eq!(decimal_text(9), "9");
    assert_eq!(decimal_text(10), "10");
    assert_eq!(decimal_text(1234567890), "1234567890");
    assert_eq!(decimal_text(u64::MAX), "18446744073709551615");
}

#[test]
fn truncate_cuts_by_characters() {
    assert_eq!(truncate("hello", 5), "hello");
    assert_eq!(truncate("hello", 4), "hell…");
    assert_eq!(truncate("", 0), "");
    assert_eq!(truncate("x", 0), "…");
    assert_eq!(truncate("äöü", 2), "äö…");
    assert_eq!(truncate("äöü", 3), "äöü");
}

#[test]
fn pad_right_fills_and_never_cuts() {
    assert_eq!(pad_right("abc", 5), format!("{:<5}", "abc"));
    assert_eq!(pad_right("ä", 3), format!("{:<3}", "ä"));
    assert_eq!(pad_right("abcdef", 3), "abcdef");
    assert_eq!(pad_right("", 2), "  ");
}

#[test]
fn same_text_compares_characters() {
    assert!(same_text("", ""));
    assert!(same_text("kick", "kick"));
    assert!(!same_text("kick", "kic"));
    assert!(!same_text("kic", "kick"));
    assert!(!same_text("kick", "kicK"));
    assert!(same_text("é", "é"));
}
