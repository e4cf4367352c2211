use handy_core::strutil::{is_blank, starts_with, str_eq, trim, trim_trailing_slashes};

#[test]
fn starts_with_basic() {
    assert!(starts_with("nova-3-general", "nova-3"));
    assert!(starts_with("nova-3", "nova-3"));
    assert!(!starts_with("nova-2", "nova-3"));
    assert!(!starts_with("no", "nova"));
    assert!(starts_with("anything", ""));
}

#[test]
fn str_eq_basic() {
    assert!(str_eq("auto", "auto"));
    assert!(!str_eq("auto", "Auto"));
    assert!(!str_eq("", "a"));
    assert!(str_eq("", ""));
}

#[test]
fn trim_removes_surrounding_whitespace() {
    assert_eq!(trim("  nova-3 \t\n"), "nova-3");
    assert_eq!(trim("nova-3"), "nova-3");
    assert_eq!(trim("   "), "");
    assert_eq!(trim(""), "");
    assert_eq!(trim(" a b "), "a b");
}

#[test]
fn blankness() {
    assert!(is_blank(""));
    assert!(is_blank(" \t\n"));
    assert!(!is_blank(" x "));
}

#[test]
fn trailing_slashes_are_trimmed() {
    assert_eq!(trim_trailing_slashes("https://api.example.com/"), "https://api.example.com");
    assert_eq!(trim_trailing_slashes("https://api.example.com///"), "https://api.example.com");
    assert_eq!(trim_trailing_slashes("https://api.example.com"), "https://api.example.com");
    assert_eq!(trim_trailing_slashes(""), "");
    assert_eq!(trim_trailing_slashes("///"), "");
}
