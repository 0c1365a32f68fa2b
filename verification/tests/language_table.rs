use localtranslate::lang::get_language_name;

#[test]
fn known_codes_resolve_to_documented_names() {
    assert_eq!(get_language_name("en"), "English");
    assert_eq!(get_language_name("es"), "Spanish");
    assert_eq!(get_language_name("fr"), "French");
    assert_eq!(get_language_name("de"), "German");
    assert_eq!(get_language_name("ja"), "Japanese");
    assert_eq!(get_language_name("ar"), "Arabic");
    assert_eq!(get_language_name("hi"), "Hindi");
    assert_eq!(get_language_name("nb"), "Norwegian Bokm\u{e5}l");
    assert_eq!(get_language_name("vo"), "Volap\u{fc}k");
    assert_eq!(get_language_name("aa"), "Afar");
    assert_eq!(get_language_name("zu"), "Zulu");
}

#[test]
fn chinese_locale_variants_share_one_name() {
    assert_eq!(get_language_name("zh"), "Chinese");
    assert_eq!(get_language_name("zh-Hans"), "Chinese");
    assert_eq!(get_language_name("zh-Hant"), "Chinese");
}

#[test]
fn unknown_codes_pass_through_unchanged() {
    assert_eq!(get_language_name("xx"), "xx");
    assert_eq!(get_language_name(""), "");
    assert_eq!(get_language_name("en-US"), "en-US");
    assert_eq!(get_language_name("EN"), "EN");
}

#[test]
fn resolving_twice_changes_nothing() {
    for code in ["en", "zh-Hans", "xx", "", "tlh"] {
        let once = get_language_name(code);
        let twice = get_language_name(once);
        assert_eq!(once, twice);
    }
}
