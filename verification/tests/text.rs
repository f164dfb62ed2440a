use rust_lldb_visual_debugger::text::{
    decimal_string, eq_ignore_ascii_case, hex_padded, hex_string, is_blank_str,
    parse_trimmed, same_text, starts_with, trim,
};

#[test]
fn numbers_are_written_and_read_back() {
    assert_eq!(decimal_string(0), "0");
    assert_eq!(decimal_string(1234567890), "1234567890");
    assert_eq!(hex_string(0x1a2b), "1a2b");
    assert_eq!(hex_padded(0xab, 4), "00ab");
    assert_eq!(hex_padded(0x12345, 2), "12345");
    assert_eq!(parse_trimmed(&decimal_string(u64::MAX as u128), 10, u64::MAX), Some(u64::MAX));
    assert_eq!(parse_trimmed(&hex_string(0xdead_beef), 16, u64::MAX), Some(0xdead_beef));
    assert_eq!(parse_trimmed(" 256 ", 10, 255), None);
    assert_eq!(parse_trimmed("+", 10, 255), None);
    assert_eq!(parse_trimmed("", 10, 255), None);
}

#[test]
fn text_is_trimmed_and_compared() {
    assert_eq!(trim("\t a b \n"), "a b");
    assert_eq!(trim("\u{3000}x\u{a0}"), "x");
    assert!(is_blank_str(" \r\n"));
    assert!(!is_blank_str(" . "));
    assert!(eq_ignore_ascii_case("Bad-Token", "bad-token"));
    assert!(!eq_ignore_ascii_case("bad-tokens", "bad-token"));
    assert!(starts_with("mock://xdbg", "mock://"));
    assert!(!starts_with("moc", "mock://"));
    assert!(same_text("ret", "ret"));
    assert!(!same_text("ret", "re"));
}
