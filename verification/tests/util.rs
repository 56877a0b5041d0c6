use vivado_mac::util::{
    data_dir, known_versions, openfpgaloader_path, resolve_data_dir, status_line, Level,
};

#[test]
fn status_lines_carry_coloured_tags() {
    assert_eq!(status_line(Level::Info, "hi"), "\x1b[0;34m[INFO]\x1b[0m hi");
    assert_eq!(status_line(Level::Success, "done"), "\x1b[0;32m[OK]\x1b[0m done");
    assert_eq!(status_line(Level::Warn, "w"), "\x1b[1;33m[WARNING]\x1b[0m w");
    assert_eq!(status_line(Level::Error, "e"), "\x1b[0;31m[ERROR]\x1b[0m e");
    assert_eq!(status_line(Level::Step, "s"), "\x1b[0;36m[STEP]\x1b[0m s");
    assert_eq!(status_line(Level::Debug, "d"), "\x1b[0;90m[DEBUG]\x1b[0m d");
}

#[test]
fn data_dir_override_wins() {
    assert_eq!(
        resolve_data_dir(Some("/custom".to_string()), Some(b"/home/a".to_vec())),
        Some(b"/custom".to_vec())
    );
    assert_eq!(data_dir(Some("/custom".to_string())), Some(b"/custom".to_vec()));
    assert_eq!(data_dir(Some(String::new())), Some(Vec::new()));
}

#[test]
fn data_dir_defaults_under_home() {
    assert_eq!(
        resolve_data_dir(None, Some(b"/Users/a".to_vec())),
        Some(b"/Users/a/.local/share/vivado-mac".to_vec())
    );
    assert_eq!(
        resolve_data_dir(None, Some(b"/home/\xff".to_vec())),
        Some(b"/home/\xff/.local/share/vivado-mac".to_vec())
    );
    assert_eq!(resolve_data_dir(None, None), None);
}

#[test]
fn data_dir_from_home_ends_in_local_share() {
    if let Some(d) = data_dir(None) {
        assert!(d.ends_with(b"/.local/share/vivado-mac"));
    }
}

#[test]
fn loader_path_prefers_override_then_which() {
    assert_eq!(
        openfpgaloader_path(Some("/opt/ofl".to_string()), Some("/usr/bin/x\n".to_string())),
        Some("/opt/ofl".to_string())
    );
    assert_eq!(
        openfpgaloader_path(None, Some("/opt/homebrew/bin/openFPGALoader\n".to_string())),
        Some("/opt/homebrew/bin/openFPGALoader".to_string())
    );
    assert_eq!(openfpgaloader_path(None, None), None);
}

#[test]
fn known_versions_lists_four_installers() {
    let v = known_versions();
    assert_eq!(v.len(), 4);
    assert_eq!(v[0], ("abe838aa2e2d3d9b10fea94165e9a303".to_string(), "202502".to_string()));
    assert_eq!(v[1], ("20c806793b3ea8d79273d5138fbd195f".to_string(), "202402".to_string()));
    assert_eq!(v[2], ("8b0e99a41b851b50592d5d6ef1b1263d".to_string(), "202401".to_string()));
    assert_eq!(v[3], ("b8c785d03b754766538d6cde1277c4f0".to_string(), "202302".to_string()));
}
