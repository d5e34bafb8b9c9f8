use mdde::utils::{
    file_name_char, format_file_size, get_file_extension, is_script_extension, is_script_file, is_valid_port,
    is_valid_url, sanitize_filename,
};

#[test]
fn test_utils_functions() {
    assert!(is_valid_port(8080));
    assert!(!is_valid_port(0));
    assert!(!is_valid_port(70000));

    assert!(is_valid_url("http://localhost:3000"));
    assert!(is_valid_url("https://example.com"));
    assert!(!is_valid_url("ftp://example.com"));

    let cleaned = sanitize_filename("test file (1).txt");
    assert_eq!(cleaned, "test_file__1_.txt");

    assert_eq!(format_file_size(1024), "1.0 KB");
    assert_eq!(format_file_size(1048576), "1.0 MB");
}

#[test]
fn file_sizes() {
    assert_eq!(format_file_size(0), "0 B");
    assert_eq!(format_file_size(1023), "1023 B");
    assert_eq!(format_file_size(1536), "1.5 KB");
    assert_eq!(format_file_size(1048575), "1024.0 KB");
    assert_eq!(format_file_size(3 * 1024 * 1024 * 1024), "3.0 GB");
    assert_eq!(format_file_size(1024 + 51), format!("{:.1} KB", 1075.0f64 / 1024.0));
    // an exact tie: 1.25 KB
    assert_eq!(format_file_size(1280), format!("{:.1} KB", 1280.0f64 / 1024.0));
    assert_eq!(format_file_size(u64::MAX), "16.0 GB".replace("16.0", "17179869184.0"));
}

#[test]
fn file_names_keep_unicode_letters() {
    assert_eq!(sanitize_filename("café-1.tar.gz"), "café-1.tar.gz");
    assert_eq!(sanitize_filename("a/b\\c"), "a_b_c");
    assert_eq!(file_name_char('é', true), 'é');
    assert_eq!(file_name_char('é', false), '_');
    assert_eq!(file_name_char('-', false), '-');
}

#[test]
fn extensions_and_scripts() {
    assert_eq!(get_file_extension("dir/Run.SH"), Some("sh".to_string()));
    assert_eq!(get_file_extension("archive.tar.gz"), Some("gz".to_string()));
    assert_eq!(get_file_extension(".bashrc"), None);
    assert_eq!(get_file_extension("Makefile"), None);
    assert!(is_script_file("deploy.PS1"));
    assert!(is_script_file("x.py"));
    assert!(!is_script_file("notes.txt"));
    assert!(!is_script_file("sh"));
    assert!(is_script_extension("ts"));
    assert!(!is_script_extension("TS"));
}
