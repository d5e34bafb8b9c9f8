use mdde::error::MddeError;
use mdde::i18n::{set_language, Language, LanguageSetting};
use mdde::utils::is_valid_url;
use mdde::validation::{parse_port_mapping, validate_env_name, validate_port, validate_url};

#[test]
fn port_mapping_accepted() {
    let setting = LanguageSetting::new();
    assert_eq!(validate_port(&setting, "8080:80").unwrap(), (8080, 80));
    assert_eq!(validate_port(&setting, "65535:1").unwrap(), (65535, 1));
    assert_eq!(parse_port_mapping("+22:22"), Some((22, 22)));
}

#[test]
fn port_mapping_refused() {
    let setting = LanguageSetting::new();
    for bad in ["0:80", "80", "abc:80", "80:0", "1:2:3", "65536:80", "80:", "-1:80"] {
        assert!(
            matches!(validate_port(&setting, bad), Err(MddeError::InvalidPortFormat(_))),
            "{bad}"
        );
        assert_eq!(parse_port_mapping(bad), None, "{bad}");
    }
}

#[test]
fn port_mapping_messages() {
    let setting = LanguageSetting::new();
    assert_eq!(
        validate_port(&setting, "80"),
        Err(MddeError::InvalidPortFormat(
            "Application port format error: '80'. Should be host_port:container_port format, example: 8080:80".to_string()
        ))
    );
    assert_eq!(
        validate_port(&setting, "abc:80"),
        Err(MddeError::InvalidPortFormat(
            "Invalid host port: 'abc'. Must be a number between 1-65535".to_string()
        ))
    );
    assert_eq!(
        validate_port(&setting, "0:80"),
        Err(MddeError::InvalidPortFormat("Port number cannot be 0".to_string()))
    );
}

#[test]
fn url_scheme_check() {
    assert!(is_valid_url("http://x"));
    assert!(is_valid_url("https://x"));
    assert!(!is_valid_url("ftp://x"));
}

#[test]
fn server_address_validation() {
    let mut setting = LanguageSetting::new();
    assert_eq!(validate_url(&setting, "http://localhost:3000"), Ok(()));
    assert_eq!(
        validate_url(&setting, "ftp://example.com"),
        Err(MddeError::InvalidArgument(
            "Server address must start with http:// or https://".to_string()
        ))
    );
    assert_eq!(
        validate_url(&setting, "http://[::1"),
        Err(MddeError::InvalidArgument("Invalid server address format".to_string()))
    );
    set_language(&mut setting, Language::Chinese);
    assert_eq!(
        validate_url(&setting, "http://"),
        Err(MddeError::InvalidArgument("无效的服务器地址格式".to_string()))
    );
}

#[test]
fn environment_name_validation() {
    let setting = LanguageSetting::new();
    assert_eq!(validate_env_name(&setting, "my-env_1").unwrap(), "my-env_1");
    assert_eq!(validate_env_name(&setting, "  spaced  ").unwrap(), "spaced");
    assert!(matches!(
        validate_env_name(&setting, "my env!"),
        Err(MddeError::InvalidInput(_))
    ));
    assert_eq!(
        validate_env_name(&setting, "   "),
        Err(MddeError::InvalidInput("Environment name cannot be empty".to_string()))
    );
}
