use dobby_rs::{is_symbol_name, resolve_symbol, NULL_ADDRESS};

#[test]
fn resolve_symbol_finds_nothing_on_a_null_answer() {
    assert_eq!(resolve_symbol("libnothere.so", "printf", NULL_ADDRESS), None);
    assert_eq!(resolve_symbol("libc.so.6", "no_such_symbol", 0), None);
}

#[test]
fn resolve_symbol_hands_the_address_on() {
    assert_eq!(resolve_symbol("libc.so.6", "printf", 0x7f00_1234), Some(0x7f00_1234));
    assert_eq!(resolve_symbol("", "printf", 1), Some(1));
    assert_eq!(resolve_symbol("libc.so.6", "printf", usize::MAX), Some(usize::MAX));
}

#[test]
fn symbol_names_must_not_hold_the_terminator() {
    assert!(is_symbol_name("libc.so.6"));
    assert!(is_symbol_name("printf"));
    assert!(is_symbol_name(""));
    assert!(is_symbol_name("gr\u{fc}\u{df}e"));
    assert!(!is_symbol_name("lib\0c"));
    assert!(!is_symbol_name("\0"));
    assert!(!is_symbol_name("printf\0"));
}
