use vivado_mac::assets::{is_executable_script, needs_extract};

#[test]
fn extraction_when_no_version_recorded() {
    assert!(needs_extract(None, "0.1.0"));
}

#[test]
fn no_extraction_when_version_matches() {
    assert!(!needs_extract(Some("0.1.0".to_string()), "0.1.0"));
    assert!(!needs_extract(Some("  0.1.0\n".to_string()), "0.1.0"));
}

#[test]
fn extraction_when_version_differs() {
    assert!(needs_extract(Some("0.0.9".to_string()), "0.1.0"));
    assert!(needs_extract(Some(String::new()), "0.1.0"));
}

#[test]
fn shell_and_expect_scripts_are_executable() {
    assert!(is_executable_script("install.sh"));
    assert!(is_executable_script("auth_token_gen.exp"));
    assert!(!is_executable_script("vivado_settings_202502.txt"));
    assert!(!is_executable_script("sh"));
}
