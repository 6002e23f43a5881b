use dstack_backend::text::{
    chars_of, same_text, starts_with_text, text_after, text_contains, to_decimal,
};

#[test]
fn decimal_numerals() {
    assert_eq!(to_decimal(0), "0");
    assert_eq!(to_decimal(7), "7");
    assert_eq!(to_decimal(10), "10");
    assert_eq!(to_decimal(503), "503");
    assert_eq!(to_decimal(18446744073709551615), "18446744073709551615");
}

#[test]
fn same_text_compares_characters() {
    assert!(same_text("", ""));
    assert!(same_text("AllowAll", "AllowAll"));
    assert!(!same_text("AllowAll", "allowall"));
    assert!(!same_text("abc", "abcd"));
    assert!(same_text("größe", "größe"));
}

#[test]
fn contains_finds_a_needle_anywhere() {
    assert!(text_contains("NVIDIA H100 80GB", "H100"));
    assert!(text_contains("H100", "H100"));
    assert!(text_contains("xxH100", "H100"));
    assert!(!text_contains("NVIDIA H10", "H100"));
    assert!(!text_contains("", "H100"));
    assert!(text_contains("anything", ""));
    assert!(text_contains("", ""));
    assert!(text_contains("ä H200 ö", "H200"));
}

#[test]
fn prefix_and_rest() {
    assert!(starts_with_text("unix:///var/run/x.sock", "unix://"));
    assert!(!starts_with_text("http://localhost", "unix://"));
    assert!(!starts_with_text("unix:/", "unix://"));
    assert_eq!(text_after("unix:///var/run/x.sock", 7), "/var/run/x.sock");
    assert_eq!(text_after("abc", 3), "");
    assert_eq!(text_after("äbc", 1), "bc");
}

#[test]
fn chars_are_listed_in_order() {
    assert_eq!(chars_of("aäb"), vec!['a', 'ä', 'b']);
    assert!(chars_of("").is_empty());
}
