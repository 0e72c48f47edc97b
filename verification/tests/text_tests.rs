use module_graph::text::{concat2, decimal_u8, join, replace_char};

#[test]
fn replace_char_turns_backslashes() {
    assert_eq!(replace_char("a\\b\\c", '\\', '/'), "a/b/c");
}

#[test]
fn join_puts_separator_between_parts() {
    let parts = vec!["a".to_string(), "b".to_string(), "c".to_string()];
    assert_eq!(join(&parts, "\n"), "a\nb\nc");
    assert_eq!(join(&Vec::new(), "\n"), "");
}

#[test]
fn decimal_u8_writes_all_digits() {
    assert_eq!(decimal_u8(0), "0");
    assert_eq!(decimal_u8(7), "7");
    assert_eq!(decimal_u8(42), "42");
    assert_eq!(decimal_u8(100), "100");
    assert_eq!(decimal_u8(255), "255");
    assert_eq!(concat2("a", "b"), "ab");
}
