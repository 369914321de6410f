use task_tui::text::{decimal_text, is_blank};

#[test]
fn decimal_text_of_small_and_large_numbers() {
    assert_eq!(decimal_text(0), "0");
    assert_eq!(decimal_text(7), "7");
    assert_eq!(decimal_text(10), "10");
    assert_eq!(decimal_text(1234567890), "1234567890");
    assert_eq!(decimal_text(u64::MAX), "18446744073709551615");
}

#[test]
fn blank_texts() {
    assert!(is_blank(""));
    assert!(is_blank(" "));
    assert!(is_blank("\n"));
    assert!(is_blank(" \t\r\n  "));
}

#[test]
fn texts_that_are_not_blank() {
    assert!(!is_blank("null"));
    assert!(!is_blank("  []"));
    assert!(!is_blank("[]  "));
    assert!(!is_blank("\u{a0}"));
    assert!(!is_blank("\u{b}"));
}
