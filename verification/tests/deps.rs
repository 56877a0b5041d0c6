use vivado_mac::deps::{check_host_deps, is_affirmative};

#[test]
fn host_deps_warn_for_each_missing_tool() {
    assert!(check_host_deps(true, true).is_empty());
    assert_eq!(
        check_host_deps(false, true),
        vec!["openFPGALoader not found. Run `vivado-mac install` to install it.".to_string()]
    );
    assert_eq!(
        check_host_deps(true, false),
        vec!["XQuartz not found. Run `vivado-mac install` to install it.".to_string()]
    );
    assert_eq!(check_host_deps(false, false).len(), 2);
    assert!(check_host_deps(false, false)[0].starts_with("openFPGALoader"));
}

#[test]
fn yes_answers() {
    for a in ["y", "Y", "yes", "Yes", "  yes\n", "y\r\n"] {
        assert!(is_affirmative(a), "{a:?}");
    }
}

#[test]
fn other_answers_mean_no() {
    for a in ["", "\n", "n", "no", "YES", "yess", "y y", "ye"] {
        assert!(!is_affirmative(a), "{a:?}");
    }
}
