use aegis_input::text::{eq_ignore_ascii_case, join_relative, push_decimal, push_signed_decimal, str_contains, str_starts_with, string_of, trim_chars};

#[test]
fn decimals() {
    let mut s = String::new();
    push_decimal(&mut s, 0);
    push_decimal(&mut s, 9);
    push_decimal(&mut s, 10);
    push_decimal(&mut s, u64::MAX);
    assert_eq!(s, format!("0910{}", u64::MAX));
    let mut t = String::from("x");
    push_signed_decimal(&mut t, -42);
    push_signed_decimal(&mut t, i64::MIN);
    assert_eq!(t, format!("x-42{}", i64::MIN));
}

#[test]
fn text_helpers() {
    assert_eq!(string_of(&trim_chars("\u{3000} a b \n")), "a b");
    assert_eq!(string_of(&trim_chars("   ")), "");
    assert!(str_contains("abcabd", "abd"));
    assert!(!str_contains("ab", "abc"));
    assert!(str_contains("ab", ""));
    assert!(str_starts_with("/dev/input/event1", "/dev/input/event"));
    assert!(!str_starts_with("/dev", "/dev/input"));
    assert!(eq_ignore_ascii_case("UsB", "usb"));
    assert!(!eq_ignore_ascii_case("ÄB", "äb"));
    assert_eq!(join_relative("/a", "b"), "/a/b");
    assert_eq!(join_relative("/a/", "b"), "/a/b");
    assert_eq!(join_relative("", "b"), "b");
}
