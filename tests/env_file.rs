use mdde::env_file::{parse_env_content, render_env_content, EnvVars};
use mdde::i18n::LanguageSetting;
use mdde::validation::parse_key_value;

#[test]
fn test_parse_key_value() {
    let setting = LanguageSetting::new();
    assert_eq!(
        parse_key_value(&setting, "host=http://localhost:3000").unwrap(),
        ("host".to_string(), "http://localhost:3000".to_string())
    );

    assert_eq!(
        parse_key_value(&setting, "query=a=b&c=d").unwrap(),
        ("query".to_string(), "a=b&c=d".to_string())
    );

    assert_eq!(
        parse_key_value(&setting, "empty=").unwrap(),
        ("empty".to_string(), "".to_string())
    );

    assert!(parse_key_value(&setting, "no_equals").is_err());
    assert!(parse_key_value(&setting, "=no_key").is_err());
    assert!(parse_key_value(&setting, "invalid-key=value").is_err());
}

#[test]
fn test_env_file_parsing() {
    let env_content = "# 这是注释行\nhost=http://test-server:9000\n\n# 空行应该被忽略\ncontainer_name=test-container\ndebug_port=5000\n";
    let env_vars = parse_env_content(env_content);

    assert_eq!(env_vars.get("host"), Some("http://test-server:9000".to_string()));
    assert_eq!(env_vars.get("container_name"), Some("test-container".to_string()));
    assert_eq!(env_vars.get("debug_port"), Some("5000".to_string()));

    assert!(!env_vars.contains_key("#"));
    assert!(!env_vars.contains_key(""));
}

#[test]
fn save_then_load_keeps_pairs_and_drops_comments() {
    let first = "# comment\n\nhost=http://x:1\nname = demo \nquery=a=b\n";
    let vars = parse_env_content(first);
    let text = render_env_content(&vars);
    assert_eq!(text, "host=http://x:1\nname=demo\nquery=a=b\n");
    let again = parse_env_content(&text);
    assert_eq!(again.len(), 3);
    assert_eq!(again.get("host"), Some("http://x:1".to_string()));
    assert_eq!(again.get("name"), Some("demo".to_string()));
    assert_eq!(again.get("query"), Some("a=b".to_string()));
}

#[test]
fn later_line_wins_and_keys_stay_unique() {
    let vars = parse_env_content("a=1\r\nb=2\na=3");
    assert_eq!(vars.len(), 2);
    assert_eq!(vars.get("a"), Some("3".to_string()));
    assert_eq!(render_env_content(&vars), "a=3\nb=2\n");
}

#[test]
fn lines_without_equals_are_skipped() {
    let vars = parse_env_content("junk\n  \n#x=1\n");
    assert!(vars.is_empty());
    assert_eq!(render_env_content(&vars), "");
}

#[test]
fn insert_and_remove() {
    let mut vars = EnvVars::new();
    vars.insert("k".to_string(), "v".to_string());
    vars.insert("k".to_string(), "w".to_string());
    assert_eq!(vars.len(), 1);
    assert_eq!(vars.remove("k"), Some("w".to_string()));
    assert_eq!(vars.remove("k"), None);
    assert!(vars.is_empty());
}

#[test]
fn key_value_argument_is_trimmed() {
    let setting = LanguageSetting::new();
    assert_eq!(
        parse_key_value(&setting, "  port = 80 ").unwrap(),
        ("port".to_string(), "80".to_string())
    );
    assert_eq!(
        parse_key_value(&setting, "no_equals").unwrap_err().message(),
        "无效的参数: Invalid format: 'no_equals'. Should be key=value format, example: host=http://localhost:3000"
    );
}

#[test]
fn settings_listed_in_key_order() {
    let vars = parse_env_content("zeta=1\nalpha=2\nAlpha=3\nal=4\n");
    let keys: Vec<String> = vars.sorted_pairs().into_iter().map(|p| p.0).collect();
    assert_eq!(keys, vec!["Alpha", "al", "alpha", "zeta"]);
    let mut expected = vars.to_pairs();
    expected.sort();
    assert_eq!(vars.sorted_pairs(), expected);
    assert!(EnvVars::new().sorted_pairs().is_empty());
}
