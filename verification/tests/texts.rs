use terminal::text::{
    chars_of, decimal_of, join_from, normalize_line_ends, remove_char, str_eq, string_of,
    strip_prefix, trim_end,
};

#[test]
fn texts_are_taken_apart_and_put_together() {
    assert_eq!(chars_of("aé"), vec!['a', 'é']);
    assert_eq!(string_of(&vec!['a', 'é']), "aé");
    assert!(str_eq("é", "é") && !str_eq("e", "é"));
    let parts = vec!["a".to_owned(), "b".to_owned(), "c".to_owned()];
    assert_eq!(join_from(&parts, 0, "--"), "a--b--c");
    assert_eq!(join_from(&parts, 2, "--"), "c");
    assert_eq!(join_from(&parts, 3, "--"), "");
}

#[test]
fn prefixes_are_taken_off() {
    assert_eq!(strip_prefix("file://x", "file://"), Some("x".to_owned()));
    assert_eq!(strip_prefix("file://", "file://"), Some(String::new()));
    assert_eq!(strip_prefix("file:/", "file://"), None);
    assert_eq!(strip_prefix("xfile://", "file://"), None);
}

#[test]
fn characters_are_replaced() {
    assert_eq!(normalize_line_ends("a\r\n\nb\r"), "a\r\rb\r");
    assert_eq!(remove_char("\x1ba\x1b\x1bb", '\x1b'), "ab");
}

#[test]
fn white_space_is_taken_off_the_end() {
    assert_eq!(trim_end(" a \t\u{2003}\n"), " a");
    assert_eq!(trim_end(" \t"), "");
    assert_eq!(trim_end(""), "");
}

#[test]
fn numbers_are_written_out() {
    assert_eq!(decimal_of(0), "0");
    assert_eq!(decimal_of(1203), "1203");
    assert_eq!(decimal_of(i32::MIN), "-2147483648");
    assert_eq!(decimal_of(i32::MAX), "2147483647");
}
