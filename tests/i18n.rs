use mdde::i18n::{
    detect_language, get_language, init_language, lookup_message, set_language, t, tf, Language,
    LanguageSetting,
};

#[test]
fn test_language_detection() {
    assert_eq!(Language::from_str("zh_CN"), Language::Chinese);
    assert_eq!(Language::from_str("zh_TW"), Language::Chinese);
    assert_eq!(Language::from_str("cn"), Language::Chinese);

    assert_eq!(Language::from_str("en_US"), Language::English);
    assert_eq!(Language::from_str("fr_FR"), Language::English);
}

#[test]
fn test_translation() {
    let mut setting = LanguageSetting::new();
    set_language(&mut setting, Language::Chinese);
    assert_eq!(t(&setting, "clean_completed"), "✓ 清理完成");

    set_language(&mut setting, Language::English);
    assert_eq!(t(&setting, "clean_completed"), "✓ Cleanup completed");
}

#[test]
fn test_formatted_translation() {
    let mut setting = LanguageSetting::new();
    set_language(&mut setting, Language::English);
    let result = tf(&setting, "server_address", &["http://localhost:3000"]);
    assert_eq!(result, "Server address: http://localhost:3000");

    set_language(&mut setting, Language::Chinese);
    let result_zh = tf(&setting, "server_address", &["http://localhost:3000"]);
    assert_eq!(result_zh, "服务器地址: http://localhost:3000");
}

#[test]
fn unknown_key_stands_for_itself() {
    let setting = LanguageSetting::new();
    assert_eq!(t(&setting, "no_such_message"), "no_such_message");
    assert_eq!(tf(&setting, "no_such_{}", &["x"]), "no_such_x");
    assert!(lookup_message("no_such_message").is_none());
}

#[test]
fn language_defaults_to_english_and_init_keeps_a_choice() {
    let mut setting = LanguageSetting::new();
    assert_eq!(get_language(&setting), Language::English);
    init_language(&mut setting, Language::Chinese);
    assert_eq!(get_language(&setting), Language::Chinese);
    init_language(&mut setting, Language::English);
    assert_eq!(get_language(&setting), Language::Chinese);
}

#[test]
fn later_duplicate_message_wins() {
    let setting = LanguageSetting::new();
    assert_eq!(
        t(&setting, "docker_compose_not_exists"),
        "docker-compose.yml file does not exist"
    );
}

#[test]
fn placeholders_fill_in_order() {
    let setting = LanguageSetting::new();
    // every `{}` takes the first argument, `{1}` the second
    assert_eq!(tf(&setting, "{} and {} then {1}", &["a", "b"]), "a and a then b");
    assert_eq!(tf(&setting, "{}", &[]), "{}");
}

#[test]
fn locale_variables_pick_the_language() {
    // the first set variable decides, read in lower case
    assert_eq!(detect_language(Some("ZH_CN.UTF-8"), Some("en_US"), None), Language::Chinese);
    assert_eq!(detect_language(None, Some("en_US"), Some("zh")), Language::English);
    assert_eq!(detect_language(None, None, Some("CN")), Language::Chinese);
    assert_eq!(detect_language(None, None, None), Language::English);
}
