use vivado_mac::setup::{
    cached_installer_path, installer_log_entry, installer_source, installer_version,
    InstallerSource, InstallerVersionError,
};

#[test]
fn known_installers_give_their_versions() {
    assert_eq!(installer_version("abe838aa2e2d3d9b10fea94165e9a303").unwrap(), "202502");
    assert_eq!(installer_version("20c806793b3ea8d79273d5138fbd195f").unwrap(), "202402");
    assert_eq!(installer_version("b8c785d03b754766538d6cde1277c4f0").unwrap(), "202302");
}

#[test]
fn version_202401_is_refused() {
    match installer_version("8b0e99a41b851b50592d5d6ef1b1263d") {
        Err(InstallerVersionError::Unsupported(v)) => assert_eq!(v, "202401"),
        other => panic!("unexpected {other:?}"),
    }
}

#[test]
fn unknown_digest_is_refused() {
    assert!(matches!(installer_version("0000"), Err(InstallerVersionError::UnknownHash)));
    assert!(matches!(installer_version(""), Err(InstallerVersionError::UnknownHash)));
    assert!(matches!(
        installer_version("ABE838AA2E2D3D9B10FEA94165E9A303"),
        Err(InstallerVersionError::UnknownHash)
    ));
}

#[test]
fn log_entry_is_relative_to_scripts() {
    assert_eq!(installer_log_entry("FPGAs_Installer.bin"), "../FPGAs_Installer.bin");
    assert_eq!(installer_log_entry(""), "../");
}

#[test]
fn cached_installer_is_trimmed_and_joined() {
    assert_eq!(
        cached_installer_path(b"/d/scripts", "  ../v.bin\n"),
        Some(b"/d/scripts/../v.bin".to_vec())
    );
    assert_eq!(cached_installer_path(b"/d/scripts", " \n\t"), None);
    assert_eq!(cached_installer_path(b"/d/scripts", ""), None);
    assert_eq!(cached_installer_path(b"/d/scripts", "/abs/v.bin"), Some(b"/abs/v.bin".to_vec()));
}

#[test]
fn written_log_entry_reads_back() {
    let entry = installer_log_entry("Xilinx_Unified_2025.2.bin");
    assert_eq!(
        cached_installer_path(b"/d/scripts", &entry),
        Some(b"/d/scripts/../Xilinx_Unified_2025.2.bin".to_vec())
    );
}

#[test]
fn installer_source_prefers_argument_then_memory() {
    assert!(matches!(
        installer_source(Some("/a.bin".to_string()), Some(b"/b.bin".to_vec())),
        InstallerSource::Given(p) if p == "/a.bin"
    ));
    assert!(matches!(
        installer_source(None, Some(b"/b.bin".to_vec())),
        InstallerSource::Remembered(p) if p == b"/b.bin".to_vec()
    ));
    assert!(matches!(installer_source(None, None), InstallerSource::Ask));
}
