use localtranslate::prompt::build_translation_prompt;

fn expected_prompt(source_lang: &str, target_lang: &str, text: &str) -> String {
    let source_name = match source_lang {
        "en" => "English",
        "es" => "Spanish",
        other => other,
    };
    let target_name = match target_lang {
        "en" => "English",
        "es" => "Spanish",
        other => other,
    };
    format!(
        "You are a professional {} ({}) to {} ({}) translator. Your goal is to accurately \
         convey the meaning and nuances of the original {} text while adhering to {} grammar, \
         vocabulary, and cultural sensitivities.\n\nProduce only the {} translation, without \
         any additional explanations or commentary. Please translate the following {} text \
         into {}:\n\n\n{}",
        source_name,
        source_lang,
        target_name,
        target_lang,
        source_name,
        target_name,
        target_name,
        source_name,
        target_name,
        text
    )
}

#[test]
fn prompt_matches_fixed_phrasing_exactly() {
    let got = build_translation_prompt("en", "es", "Hello");
    assert_eq!(got, expected_prompt("en", "es", "Hello"));
}

#[test]
fn prompt_keeps_unknown_codes_as_names() {
    let got = build_translation_prompt("xx", "yy", "abc");
    assert_eq!(got, expected_prompt("xx", "yy", "abc"));
}

#[test]
fn prompt_ends_with_the_text_verbatim() {
    let text = "Line one.\nLine two — with punctuation!";
    let got = build_translation_prompt("en", "es", text);
    assert!(got.ends_with(text));
    assert!(got[..got.len() - text.len()].ends_with(":\n\n\n"));
}

#[test]
fn prompt_is_deterministic() {
    let a = build_translation_prompt("en", "es", "Hello");
    let b = build_translation_prompt("en", "es", "Hello");
    assert_eq!(a, b);
    assert_eq!(a.as_bytes(), b.as_bytes());
}

#[test]
fn empty_text_leaves_prompt_after_separator() {
    let got = build_translation_prompt("en", "es", "");
    assert!(got.ends_with(":\n\n\n"));
}
