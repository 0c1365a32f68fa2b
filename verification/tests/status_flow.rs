use localtranslate::status::{
    check_model_installed, status_connection_error, status_parse_error,
};
use localtranslate::text::{str_starts_with, trim_str, u16_to_decimal};

#[test]
fn installed_tag_with_suffix_matches_default_model() {
    let tags = vec![String::from("translategemma:4b:latest")];
    let r = check_model_installed("translategemma:4b", &tags);
    assert_eq!(r, Ok(String::from("translategemma:4b is ready")));
}

#[test]
fn exact_tag_matches_too() {
    let tags = vec![String::from("llama3:8b"), String::from("translategemma:12b")];
    let r = check_model_installed("translategemma:12b", &tags);
    assert_eq!(r, Ok(String::from("translategemma:12b is ready")));
}

#[test]
fn empty_tag_list_reports_install_command() {
    let tags: Vec<String> = Vec::new();
    let err = check_model_installed("translategemma:4b", &tags).unwrap_err();
    assert!(err.contains("ollama run translategemma:4b"));
    assert_eq!(
        err,
        "translategemma:4b model not found. Please install it with:\n\n\
         ollama run translategemma:4b"
    );
}

#[test]
fn unrelated_tags_do_not_match() {
    let tags = vec![String::from("llama3:8b"), String::from("translategemma:27b")];
    assert!(check_model_installed("translategemma:4b", &tags).is_err());
}

#[test]
fn fixed_status_errors_have_their_documented_text() {
    assert_eq!(
        status_connection_error(),
        "Ollama is not running. Please start Ollama with: ollama serve"
    );
    assert_eq!(status_parse_error(), "Failed to parse Ollama response");
}

#[test]
fn prefix_test_behaves_like_starts_with() {
    assert!(str_starts_with("translategemma:4b:latest", "translategemma:4b"));
    assert!(str_starts_with("abc", ""));
    assert!(str_starts_with("abc", "abc"));
    assert!(!str_starts_with("ab", "abc"));
    assert!(!str_starts_with("abc", "abd"));
}

#[test]
fn trim_removes_unicode_whitespace_at_both_ends() {
    assert_eq!(trim_str("  hi  "), "hi");
    assert_eq!(trim_str("hi"), "hi");
    assert_eq!(trim_str(""), "");
    assert_eq!(trim_str(" \t\r\n\u{a0}\u{3000} "), "");
    assert_eq!(trim_str("\u{2028}a b\u{205f}"), "a b");
    assert_eq!(trim_str("  hi  "), "  hi  ".trim());
}

#[test]
fn decimal_rendering_is_exact() {
    assert_eq!(u16_to_decimal(0), "0");
    assert_eq!(u16_to_decimal(7), "7");
    assert_eq!(u16_to_decimal(500), "500");
    assert_eq!(u16_to_decimal(65535), "65535");
}
