use vivado_mac::flows::{
    next_install_step, next_setup_step, next_uninstall_step, InstallFailure, InstallStep,
    SetupFailure, SetupStep, UninstallFailure, UninstallStep,
};

fn run_setup(outcomes: &[bool]) -> Vec<SetupStep> {
    let mut at = SetupStep::ExtractScripts;
    let mut seen = vec![at];
    for &ok in outcomes {
        at = next_setup_step(at, ok);
        seen.push(at);
    }
    seen
}

#[test]
fn install_with_everything_present() {
    let mut at = InstallStep::CheckBrew;
    for ok in [true, true, true] {
        at = next_install_step(at, ok);
    }
    assert_eq!(at, InstallStep::Done);
}

#[test]
fn install_stops_without_homebrew() {
    assert_eq!(
        next_install_step(InstallStep::CheckBrew, false),
        InstallStep::Failed(InstallFailure::BrewMissing)
    );
}

#[test]
fn install_asks_before_installing() {
    assert_eq!(next_install_step(InstallStep::CheckLoader, false), InstallStep::AskInstallLoader);
    assert_eq!(next_install_step(InstallStep::AskInstallLoader, false), InstallStep::CheckXQuartz);
    assert_eq!(next_install_step(InstallStep::AskInstallLoader, true), InstallStep::InstallLoader);
    assert_eq!(
        next_install_step(InstallStep::InstallXQuartz, false),
        InstallStep::Failed(InstallFailure::BrewFailed)
    );
    assert_eq!(next_install_step(InstallStep::AskInstallXQuartz, false), InstallStep::Done);
}

#[test]
fn uninstall_refusing_to_stop_removes_nothing() {
    let mut at = UninstallStep::CheckContainer;
    at = next_uninstall_step(at, true);
    assert_eq!(at, UninstallStep::AskStopContainer);
    at = next_uninstall_step(at, false);
    assert_eq!(at, UninstallStep::Failed(UninstallFailure::ContainerStillRunning));
    assert_eq!(next_uninstall_step(at, true), at);
}

#[test]
fn uninstall_everything_with_consent() {
    let mut at = UninstallStep::CheckContainer;
    let mut seen = vec![at];
    for ok in [true, true, true, true, true, true, true, true, true] {
        at = next_uninstall_step(at, ok);
        seen.push(at);
    }
    assert_eq!(
        seen,
        vec![
            UninstallStep::CheckContainer,
            UninstallStep::AskStopContainer,
            UninstallStep::StopContainer,
            UninstallStep::CheckDataDir,
            UninstallStep::AskRemoveDataDir,
            UninstallStep::RemoveDataDir,
            UninstallStep::CheckImage,
            UninstallStep::AskRemoveImage,
            UninstallStep::RemoveImage,
            UninstallStep::Done,
        ]
    );
}

#[test]
fn uninstall_keeps_data_when_declined() {
    let mut at = UninstallStep::CheckContainer;
    for ok in [false, true, false] {
        at = next_uninstall_step(at, ok);
    }
    assert_eq!(at, UninstallStep::CheckImage);
    assert_eq!(
        next_uninstall_step(UninstallStep::RemoveDataDir, false),
        UninstallStep::Failed(UninstallFailure::DataDirNotRemoved)
    );
    assert_eq!(next_uninstall_step(UninstallStep::CheckImage, false), UninstallStep::Done);
}

#[test]
fn setup_fresh_install_with_given_installer() {
    // scripts ok, no install, installer given, file exists, copied, recorded,
    // hashed, accepted, docker up, image missing, pulled, installed
    let seen = run_setup(&[true, false, false, true, true, true, true, true, true, false, true, true]);
    assert_eq!(
        seen,
        vec![
            SetupStep::ExtractScripts,
            SetupStep::CheckExistingInstall,
            SetupStep::FindInstaller,
            SetupStep::CheckInstallerFile,
            SetupStep::CopyInstaller,
            SetupStep::RecordInstaller,
            SetupStep::HashInstaller,
            SetupStep::CheckVersion,
            SetupStep::ConnectDocker,
            SetupStep::CheckImage,
            SetupStep::PullImage,
            SetupStep::RunInstaller,
            SetupStep::Done,
        ]
    );
}

#[test]
fn setup_with_remembered_installer_skips_copy() {
    let seen = run_setup(&[true, false, true]);
    assert_eq!(seen.last(), Some(&SetupStep::HashInstaller));
}

#[test]
fn setup_declining_replacement_cancels() {
    let seen = run_setup(&[true, true, false]);
    assert_eq!(seen.last(), Some(&SetupStep::Cancelled));
}

#[test]
fn setup_refuses_unknown_installer() {
    let seen = run_setup(&[true, false, true, true, false, true]);
    assert_eq!(seen.last(), Some(&SetupStep::Failed(SetupFailure::InstallerRefused)));
    assert!(!seen.contains(&SetupStep::ConnectDocker));
}

#[test]
fn setup_missing_installer_fails() {
    // no log file: fails at once
    let seen = run_setup(&[true, false, false, false, false]);
    assert_eq!(seen.last(), Some(&SetupStep::Failed(SetupFailure::InstallerMissing)));
    assert!(!seen.contains(&SetupStep::ForgetInstaller));
    // log file, user declines: nothing removed
    let seen = run_setup(&[true, false, false, false, true, false]);
    assert_eq!(seen.last(), Some(&SetupStep::Failed(SetupFailure::InstallerMissing)));
    assert!(!seen.contains(&SetupStep::ForgetInstaller));
    // log file, user agrees: the log is forgotten, then setup fails
    let seen = run_setup(&[true, false, false, false, true, true, true]);
    assert_eq!(
        &seen[4..],
        &[
            SetupStep::CheckInstallerLog,
            SetupStep::AskForgetInstaller,
            SetupStep::ForgetInstaller,
            SetupStep::Failed(SetupFailure::InstallerMissing),
        ]
    );
    assert!(!seen.contains(&SetupStep::CopyInstaller));
    assert!(!seen.contains(&SetupStep::ConnectDocker));
}

use vivado_mac::flows::{next_start_step, StartFailure, StartStep};

fn run_start(outcomes: &[bool], serve_xvc: bool) -> Vec<StartStep> {
    let mut at = StartStep::ExtractScripts;
    let mut seen = vec![at];
    for &ok in outcomes {
        at = next_start_step(at, ok, serve_xvc);
        seen.push(at);
    }
    seen
}

#[test]
fn start_runs_xvc_then_vivado_then_shuts_down() {
    let seen = run_start(&[true, true, true, true, true, true], true);
    assert_eq!(
        seen,
        vec![
            StartStep::ExtractScripts,
            StartStep::ConnectDocker,
            StartStep::StartXvc,
            StartStep::StartVivado,
            StartStep::WaitForEnd,
            StartStep::ShutDown,
            StartStep::Done,
        ]
    );
}

#[test]
fn start_stops_xvc_when_vivado_fails() {
    let seen = run_start(&[true, true, true, false, true], true);
    assert_eq!(
        &seen[4..],
        &[StartStep::StopXvcAfterFailure, StartStep::Failed(StartFailure::VivadoNotStarted)]
    );
}

#[test]
fn vivado_only_skips_xvc() {
    let seen = run_start(&[true, true, false], false);
    assert_eq!(
        seen,
        vec![
            StartStep::ExtractScripts,
            StartStep::ConnectDocker,
            StartStep::StartVivado,
            StartStep::Failed(StartFailure::VivadoNotStarted),
        ]
    );
    assert!(!seen.contains(&StartStep::StartXvc));
}

#[test]
fn start_fails_without_docker() {
    let seen = run_start(&[true, false], true);
    assert_eq!(seen.last(), Some(&StartStep::Failed(StartFailure::DockerUnavailable)));
}

use vivado_mac::flows::{next_xvc_step, XvcStep};

#[test]
fn xvc_only_stops_the_server() {
    let mut at = XvcStep::StartXvc;
    let mut seen = vec![at];
    for ok in [true, true, true] {
        at = next_xvc_step(at, ok);
        seen.push(at);
    }
    assert_eq!(seen, vec![XvcStep::StartXvc, XvcStep::WaitForEnd, XvcStep::StopXvc, XvcStep::Done]);
    assert_eq!(next_xvc_step(XvcStep::StartXvc, false), XvcStep::Failed);
}
