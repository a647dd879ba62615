use modal::text::{i32_text, lowercases_to, natural_text};

#[test]
fn decimal_texts() {
    assert_eq!(i32_text(0), "0");
    assert_eq!(i32_text(7), "7");
    assert_eq!(i32_text(-3), "-3");
    assert_eq!(i32_text(137), "137");
    assert_eq!(i32_text(i32::MAX), "2147483647");
    assert_eq!(i32_text(i32::MIN), "-2147483648");
    assert_eq!(natural_text(u64::MAX), "18446744073709551615");
    assert_eq!(natural_text(1000), "1000");
}

#[test]
fn ascii_lowercase_comparison() {
    assert!(lowercases_to("PiCkLe", "pickle"));
    assert!(lowercases_to("pickle", "pickle"));
    assert!(!lowercases_to("pickles", "pickle"));
    assert!(!lowercases_to("[ickle", "{ickle"));
    assert!(lowercases_to("", ""));
}
