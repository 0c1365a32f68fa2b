use localtranslate::model::resolve_model;

const DEFAULT: &str = "translategemma:4b";

#[test]
fn absent_model_yields_default() {
    assert_eq!(resolve_model(None), Ok(String::from(DEFAULT)));
}

#[test]
fn empty_model_yields_default() {
    assert_eq!(resolve_model(Some(String::from(""))), Ok(String::from(DEFAULT)));
}

#[test]
fn whitespace_model_yields_default() {
    assert_eq!(resolve_model(Some(String::from("   "))), Ok(String::from(DEFAULT)));
    assert_eq!(resolve_model(Some(String::from("\t\n \u{3000}"))), Ok(String::from(DEFAULT)));
}

#[test]
fn supported_model_passes_through() {
    assert_eq!(
        resolve_model(Some(String::from("translategemma:12b"))),
        Ok(String::from("translategemma:12b"))
    );
    assert_eq!(
        resolve_model(Some(String::from("translategemma:27b"))),
        Ok(String::from("translategemma:27b"))
    );
    assert_eq!(resolve_model(Some(String::from(DEFAULT))), Ok(String::from(DEFAULT)));
}

#[test]
fn supported_model_is_trimmed() {
    assert_eq!(
        resolve_model(Some(String::from("  translategemma:12b\n"))),
        Ok(String::from("translategemma:12b"))
    );
}

#[test]
fn unknown_model_lists_all_supported_values() {
    let err = resolve_model(Some(String::from("gpt-unknown"))).unwrap_err();
    assert_eq!(
        err,
        "Unsupported model 'gpt-unknown'. Supported models: \
         translategemma:4b, translategemma:12b, translategemma:27b"
    );
    assert!(err.contains("translategemma:4b"));
    assert!(err.contains("translategemma:12b"));
    assert!(err.contains("translategemma:27b"));
}
