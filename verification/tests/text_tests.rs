use run_my_rust::text::{bool_str, contains_sub, contains_u64, parse_u64, str_eq, u64_to_string};

#[test]
fn parse_u64_valid() {
    assert_eq!(parse_u64("0"), Some(0));
    assert_eq!(parse_u64("957417376314429490"), Some(957417376314429490));
    assert_eq!(parse_u64("18446744073709551615"), Some(u64::MAX));
}

#[test]
fn parse_u64_invalid() {
    assert_eq!(parse_u64(""), None);
    assert_eq!(parse_u64("12a"), None);
    assert_eq!(parse_u64("-1"), None);
    assert_eq!(parse_u64(" 1"), None);
    assert_eq!(parse_u64("18446744073709551616"), None);
}

#[test]
fn u64_to_string_roundtrip() {
    assert_eq!(u64_to_string(0), "0");
    assert_eq!(u64_to_string(42), "42");
    assert_eq!(u64_to_string(u64::MAX), "18446744073709551615");
    assert_eq!(parse_u64(&u64_to_string(123456789)), Some(123456789));
}

#[test]
fn contains_sub_finds_substrings() {
    assert!(contains_sub("fn main() { }", "fn main()"));
    assert!(contains_sub("abc", ""));
    assert!(contains_sub("abc", "abc"));
    assert!(!contains_sub("fn  main()", "fn main()"));
    assert!(!contains_sub("ab", "abc"));
}

#[test]
fn str_eq_compares_contents() {
    assert!(str_eq("run", "run"));
    assert!(!str_eq("run", "run-message"));
    assert!(!str_eq("rs", "rust"));
}

#[test]
fn bool_str_text() {
    assert_eq!(bool_str(true), "true");
    assert_eq!(bool_str(false), "false");
}

#[test]
fn contains_u64_membership() {
    assert!(contains_u64(&vec![1, 2, 3], 2));
    assert!(!contains_u64(&vec![1, 2, 3], 4));
    assert!(!contains_u64(&Vec::new(), 4));
}
