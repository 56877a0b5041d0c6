use vivado_mac::text::{ends_with_text, first_word_of, join_path, same_text, trim_text};

#[test]
fn trim_removes_surrounding_whitespace() {
    assert_eq!(trim_text("  hello world \n"), "hello world");
    assert_eq!(trim_text("\t\r\n"), "");
    assert_eq!(trim_text(""), "");
    assert_eq!(trim_text("\u{3000}x\u{a0}"), "x");
    assert_eq!(trim_text("a b"), "a b");
}

#[test]
fn trim_is_idempotent_on_examples() {
    let once = trim_text("  \u{2003}value\t ");
    assert_eq!(trim_text(&once), once);
}

#[test]
fn first_word_is_the_digest_of_md5sum_output() {
    assert_eq!(
        first_word_of("abe838aa2e2d3d9b10fea94165e9a303  /tmp/installer.bin\n"),
        Some("abe838aa2e2d3d9b10fea94165e9a303".to_string())
    );
    assert_eq!(first_word_of("   word"), Some("word".to_string()));
    assert_eq!(first_word_of("  \n "), None);
    assert_eq!(first_word_of(""), None);
}

#[test]
fn ends_with_matches_suffixes() {
    assert!(ends_with_text("install.sh", ".sh"));
    assert!(ends_with_text(".sh", ".sh"));
    assert!(!ends_with_text("sh", ".sh"));
    assert!(!ends_with_text("install.sh.txt", ".sh"));
    assert!(ends_with_text("anything", ""));
}

#[test]
fn same_text_compares_characters() {
    assert!(same_text("yes", "yes"));
    assert!(!same_text("yes", "Yes"));
    assert!(!same_text("yes", "yes "));
    assert!(same_text("", ""));
}

#[test]
fn join_path_follows_unix_rules() {
    assert_eq!(join_path(b"/home/a", b"setup.log"), b"/home/a/setup.log".to_vec());
    assert_eq!(join_path(b"/home/a/", b"setup.log"), b"/home/a/setup.log".to_vec());
    assert_eq!(join_path(b"", b"setup.log"), b"setup.log".to_vec());
    assert_eq!(join_path(b"/home/a", b"/opt/x"), b"/opt/x".to_vec());
    assert_eq!(join_path(b"scripts", b"../v.bin"), b"scripts/../v.bin".to_vec());
    assert_eq!(join_path(b"/h\xff", b"x"), b"/h\xff/x".to_vec());
}
