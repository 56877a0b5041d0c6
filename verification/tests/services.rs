use vivado_mac::services::{program_args, status_report, xvc_args};

#[test]
fn program_arguments() {
    assert_eq!(program_args("basys3", "top.bit"), vec!["-b", "basys3", "top.bit"]);
}

#[test]
fn xvc_arguments() {
    assert_eq!(xvc_args("arty_a7_35t"), vec!["-b", "arty_a7_35t", "--xvc"]);
}

#[test]
fn status_report_lines() {
    assert_eq!(
        status_report(true, false),
        vec![
            "Service Status:".to_string(),
            "  XVC Server:       \x1b[0;32mrunning\x1b[0m".to_string(),
            "  Vivado Container: \x1b[0;31mstopped\x1b[0m".to_string(),
        ]
    );
    let r = status_report(false, true);
    assert!(r[1].ends_with("stopped\x1b[0m"));
    assert!(r[2].ends_with("running\x1b[0m"));
}
