use mdde::config::{gitignore_update, Config, DEFAULT_HOST};
use mdde::env_file::{parse_env_content, render_env_content, EnvVars};
use mdde::error::MddeError;

fn load(text: &str) -> Config {
    Config::from_env_vars(&parse_env_content(text))
}

#[test]
fn test_config_load_with_env_override() {
    let config = load("host=http://localhost:8080\n");
    assert_eq!(config.host, "http://localhost:8080");
}

#[test]
fn no_file_gives_defaults_and_update_persists() {
    let config = Config::from_env_vars(&EnvVars::new());
    assert_eq!(config.host, DEFAULT_HOST);
    assert!(config.container_name.is_none());
    assert!(config.app_port.is_none());
    assert!(config.workspace.is_none());

    let mut config = config;
    config
        .update(&vec![("container_name".to_string(), "demo".to_string())])
        .unwrap();
    let saved = render_env_content(&config.to_env_vars());
    let reloaded = load(&saved);
    assert_eq!(reloaded.container_name, Some("demo".to_string()));
    assert_eq!(reloaded.host, DEFAULT_HOST);
}

#[test]
fn save_and_load_all_fields() {
    let mut config = Config::default();
    config.host = "http://test-server:9000".to_string();
    config.container_name = Some("test-container".to_string());
    config.app_port = Some((5000, 80));
    config.workspace = Some("./test-workspace".to_string());
    let text = render_env_content(&config.to_env_vars());
    assert_eq!(
        text,
        "host=http://test-server:9000\ncontainer_name=test-container\napp_port=5000:80\nworkspace=./test-workspace\n"
    );
    let loaded = load(&text);
    assert_eq!(loaded.host, "http://test-server:9000");
    assert_eq!(loaded.container_name, Some("test-container".to_string()));
    assert_eq!(loaded.app_port, Some((5000, 80)));
    assert_eq!(loaded.workspace, Some("./test-workspace".to_string()));
}

#[test]
fn malformed_port_ignored_on_load_refused_on_update() {
    let config = load("app_port=abc\n");
    assert_eq!(config.app_port, None);

    let mut config = Config::default();
    let result = config.update(&vec![
        ("container_name".to_string(), "x".to_string()),
        ("app_port".to_string(), "abc".to_string()),
    ]);
    assert_eq!(result, Err(MddeError::InvalidArgument("无效的端口号".to_string())));
    // a refused update changes nothing
    assert_eq!(config.container_name, None);
}

#[test]
fn unknown_key_refused() {
    let mut config = Config::default();
    assert_eq!(
        config.update(&vec![("colour".to_string(), "red".to_string())]),
        Err(MddeError::InvalidArgument("未知配置项: colour".to_string()))
    );
    assert!(config
        .update(&vec![
            ("app_port".to_string(), "8080:80".to_string()),
            ("workspace".to_string(), "/w".to_string()),
            ("host".to_string(), "http://h".to_string()),
        ])
        .is_ok());
    assert_eq!(config.app_port, Some((8080, 80)));
    assert_eq!(config.workspace, Some("/w".to_string()));
    assert_eq!(config.host, "http://h");
}

#[test]
fn gitignore_gets_the_directory_once() {
    assert_eq!(
        gitignore_update("target"),
        Some("target\n\n# MDDE 配置目录\n.mdde/\n".to_string())
    );
    assert_eq!(
        gitignore_update("target\n"),
        Some("target\n\n# MDDE 配置目录\n.mdde/\n".to_string())
    );
    assert_eq!(gitignore_update("target\n.mdde/\n"), None);
}

#[test]
fn integration_tests_test_config_save_and_load() {
    let mut config = Config::default();
    config.host = "http://localhost:3000".to_string();

    let saved = render_env_content(&config.to_env_vars());

    let loaded_config = load(&saved);
    assert_eq!(loaded_config.host, "http://localhost:3000");
}
