use localtranslate::chat::{
    check_http_status, connection_error_message, extract_translation, prepare_translation,
    OllamaMessage, OllamaResponse,
};

#[test]
fn empty_text_is_rejected_before_any_request() {
    let r = prepare_translation("en", "es", "", None);
    assert_eq!(r.err(), Some(String::from("Text cannot be empty")));
}

#[test]
fn whitespace_text_is_rejected_before_any_request() {
    let r = prepare_translation("en", "es", " \t\n ", None);
    assert_eq!(r.err(), Some(String::from("Text cannot be empty")));
}

#[test]
fn bad_model_is_rejected_before_any_request() {
    let r = prepare_translation("en", "es", "Hello", Some(String::from("bad-model")));
    assert_eq!(
        r.err(),
        Some(String::from(
            "Unsupported model 'bad-model'. Supported models: \
             translategemma:4b, translategemma:12b, translategemma:27b"
        ))
    );
}

#[test]
fn valid_input_builds_the_chat_request() {
    let req = prepare_translation("en", "es", "Hello", None).unwrap();
    assert_eq!(req.model, "translategemma:4b");
    assert!(!req.stream);
    assert_eq!(req.messages.len(), 1);
    assert_eq!(req.messages[0].role, "user");
    assert!(req.messages[0].content.ends_with("Hello"));
    assert!(req.messages[0].content.starts_with("You are a professional English (en) to Spanish (es) translator."));
}

#[test]
fn successful_reply_yields_the_translation() {
    let status = check_http_status(200, "translategemma:4b");
    assert!(status.is_ok());
    let parsed = Ok(OllamaResponse {
        message: OllamaMessage { role: String::from("assistant"), content: String::from("Hola") },
    });
    assert_eq!(extract_translation(parsed), Ok(String::from("Hola")));
}

#[test]
fn server_error_status_is_reported_with_its_code() {
    let err = check_http_status(500, "translategemma:4b").unwrap_err();
    assert!(err.contains("500"));
    assert_eq!(
        err,
        "Ollama API returned error: 500. Make sure 'translategemma:4b' model is installed."
    );
}

#[test]
fn every_success_status_passes_and_every_other_fails() {
    for s in [200u16, 201, 204, 299] {
        assert!(check_http_status(s, "translategemma:4b").is_ok());
    }
    for s in [0u16, 100, 199, 300, 301, 404, 503] {
        assert!(check_http_status(s, "translategemma:4b").is_err());
    }
}

#[test]
fn unreadable_reply_is_reported_as_parse_failure() {
    let r = extract_translation(Err(String::from("expected value at line 1 column 1")));
    assert_eq!(
        r.err(),
        Some(String::from(
            "Failed to parse Ollama response: expected value at line 1 column 1"
        ))
    );
}

#[test]
fn connection_failure_message_names_server_and_model() {
    let msg = connection_error_message("translategemma:4b", "connection refused");
    assert_eq!(
        msg,
        "Failed to connect to Ollama. Please ensure Ollama is running and \
         'translategemma:4b' is installed.\nError: connection refused"
    );
}
