use podfetch::ordering::text_less;
use podfetch::text::{decimal_string, get_url_file_suffix, i32_string, split_commas};

#[test]
fn decimal_forms() {
    assert_eq!(decimal_string(0), "0");
    assert_eq!(decimal_string(1234567890), "1234567890");
    assert_eq!(decimal_string(u64::MAX), "18446744073709551615");
    assert_eq!(i32_string(i32::MIN), "-2147483648");
    assert_eq!(i32_string(42), "42");
}

#[test]
fn comma_splitting() {
    assert_eq!(split_commas("a,b, c"), vec!["a".to_string(), "b".to_string(), " c".to_string()]);
    assert_eq!(split_commas(""), vec![String::new()]);
    assert_eq!(split_commas(",x,"), vec![String::new(), "x".to_string(), String::new()]);
}

#[test]
fn file_suffixes() {
    assert_eq!(get_url_file_suffix("http://h/a.b/c.mp3"), "mp3");
    assert_eq!(get_url_file_suffix("noext"), "");
    assert_eq!(get_url_file_suffix("dot."), "");
}

#[test]
fn text_order() {
    assert!(text_less("abc", "abd"));
    assert!(text_less("ab", "abc"));
    assert!(!text_less("abc", "abc"));
    assert!(!text_less("b", "abc"));
    assert!(text_less("", "a"));
    assert!(text_less("Z", "a"));
}
