use vivado_mac::docker::{
    container_running, setup_container_spec, setup_outcome, vivado_container_spec, wait_exit_code,
    SetupOutcome, IMAGE_NAME,
};

#[test]
fn setup_container_is_interactive() {
    let c = setup_container_spec("/Users/a/.local/share/vivado-mac");
    assert_eq!(c.name, "vivado_x11");
    assert_eq!(c.platform, "linux/amd64");
    assert_eq!(c.image, IMAGE_NAME);
    assert_eq!(c.image, "ghcr.io/yoketh/vivado-mac");
    assert_eq!(c.cmd, vec!["bash".to_string(), "scripts/install.sh".to_string()]);
    assert_eq!(c.env, None);
    assert_eq!(c.tty, Some(true));
    assert_eq!(c.open_stdin, Some(true));
    assert_eq!(c.attach_stdin, Some(true));
    assert_eq!(c.attach_stdout, Some(true));
    assert_eq!(c.attach_stderr, Some(true));
    assert_eq!(c.init, Some(true));
    assert_eq!(c.auto_remove, Some(true));
    assert_eq!(c.network_mode, None);
    assert_eq!(c.mount_target, "/home/user");
    assert_eq!(c.mount_source, "/Users/a/.local/share/vivado-mac");
}

#[test]
fn vivado_container_uses_host_display_and_network() {
    let c = vivado_container_spec("/d");
    assert_eq!(c.name, "vivado");
    assert_eq!(
        c.cmd,
        ["sudo", "-H", "-u", "user", "bash", "scripts/startup.sh"]
            .iter()
            .map(|s| s.to_string())
            .collect::<Vec<_>>()
    );
    assert_eq!(c.env, Some(vec!["DISPLAY=host.docker.internal:0".to_string()]));
    assert_eq!(c.tty, None);
    assert_eq!(c.network_mode, Some("host".to_string()));
    assert_eq!(c.mount_source, "/d");
    assert_eq!(c.mount_target, "/home/user");
    assert_eq!(c.auto_remove, Some(true));
}

#[test]
fn setup_outcome_fails_on_nonzero_exit() {
    assert_eq!(setup_outcome(Some(3)), SetupOutcome::NonZeroExit(3));
    assert_eq!(setup_outcome(Some(-1)), SetupOutcome::NonZeroExit(-1));
    assert_eq!(setup_outcome(Some(0)), SetupOutcome::Session);
    assert_eq!(setup_outcome(None), SetupOutcome::Session);
}

#[test]
fn wait_exit_code_defaults_to_zero() {
    assert_eq!(wait_exit_code::<String>(Some(Ok(137))), Ok(137));
    assert_eq!(wait_exit_code::<String>(Some(Err("gone".to_string()))), Err("gone".to_string()));
    assert_eq!(wait_exit_code::<String>(None), Ok(0));
}

#[test]
fn container_runs_only_when_inspection_says_so() {
    assert!(container_running(Some(Some(true))));
    assert!(!container_running(Some(Some(false))));
    assert!(!container_running(Some(None)));
    assert!(!container_running(None));
}
