//! The decisions of the commands `install`, `setup`, `start`, `vivado`,
//! `xvc` and `uninstall`, as machines: each step names the one thing to do next (a
//! probe, a question to the user, or an action), and what was found, answered
//! or achieved decides the step after it. Steps that end a command stay put.
use vstd::prelude::*;

verus! {

// ---------------------------------------------------------------- install

/// Why `install` stops with an error.
#[derive(Clone, Copy, PartialEq, Eq, Structural, Debug)]
pub enum InstallFailure {
    /// Homebrew is not there.
    BrewMissing,
    /// `brew install` failed.
    BrewFailed,
}

/// A step of `install`. For each, the outcome given to
/// [`next_install_step`] is: whether the tool was found (checks), whether the
/// user said yes (questions), whether the installation succeeded (installs).
#[derive(Clone, Copy, PartialEq, Eq, Structural, Debug)]
pub enum InstallStep {
    CheckBrew,
    CheckLoader,
    AskInstallLoader,
    InstallLoader,
    CheckXQuartz,
    AskInstallXQuartz,
    InstallXQuartz,
    Done,
    Failed(InstallFailure),
}

/// The step of `install` after `step`, whose outcome was `ok`.
pub open spec fn install_after(step: InstallStep, ok: bool) -> InstallStep {
    match step {
        InstallStep::CheckBrew => if ok {
            InstallStep::CheckLoader
        } else {
            InstallStep::Failed(InstallFailure::BrewMissing)
        },
        InstallStep::CheckLoader => if ok {
            InstallStep::CheckXQuartz
        } else {
            InstallStep::AskInstallLoader
        },
        InstallStep::AskInstallLoader => if ok {
            InstallStep::InstallLoader
        } else {
            InstallStep::CheckXQuartz
        },
        InstallStep::InstallLoader => if ok {
            InstallStep::CheckXQuartz
        } else {
            InstallStep::Failed(InstallFailure::BrewFailed)
        },
        InstallStep::CheckXQuartz => if ok {
            InstallStep::Done
        } else {
            InstallStep::AskInstallXQuartz
        },
        InstallStep::AskInstallXQuartz => if ok {
            InstallStep::InstallXQuartz
        } else {
            InstallStep::Done
        },
        InstallStep::InstallXQuartz => if ok {
            InstallStep::Done
        } else {
            InstallStep::Failed(InstallFailure::BrewFailed)
        },
        InstallStep::Done => InstallStep::Done,
        InstallStep::Failed(f) => InstallStep::Failed(f),
    }
}

/// The step of `install` after `step`, whose outcome was `ok`.
pub fn next_install_step(step: InstallStep, ok: bool) -> (r: InstallStep)
    ensures
        r == install_after(step, ok),
{
    match step {
        InstallStep::CheckBrew => if ok {
            InstallStep::CheckLoader
        } else {
            InstallStep::Failed(InstallFailure::BrewMissing)
        },
        InstallStep::CheckLoader => if ok {
            InstallStep::CheckXQuartz
        } else {
            InstallStep::AskInstallLoader
        },
        InstallStep::AskInstallLoader => if ok {
            InstallStep::InstallLoader
        } else {
            InstallStep::CheckXQuartz
        },
        InstallStep::InstallLoader => if ok {
            InstallStep::CheckXQuartz
        } else {
            InstallStep::Failed(InstallFailure::BrewFailed)
        },
        InstallStep::CheckXQuartz => if ok {
            InstallStep::Done
        } else {
            InstallStep::AskInstallXQuartz
        },
        InstallStep::AskInstallXQuartz => if ok {
            InstallStep::InstallXQuartz
        } else {
            InstallStep::Done
        },
        InstallStep::InstallXQuartz => if ok {
            InstallStep::Done
        } else {
            InstallStep::Failed(InstallFailure::BrewFailed)
        },
        InstallStep::Done => InstallStep::Done,
        InstallStep::Failed(f) => InstallStep::Failed(f),
    }
}

/// How many steps `install` has at most left from `step`.
pub open spec fn install_rank(step: InstallStep) -> nat {
    match step {
        InstallStep::CheckBrew => 7,
        InstallStep::CheckLoader => 6,
        InstallStep::AskInstallLoader => 5,
        InstallStep::InstallLoader => 4,
        InstallStep::CheckXQuartz => 3,
        InstallStep::AskInstallXQuartz => 2,
        InstallStep::InstallXQuartz => 1,
        InstallStep::Done => 0,
        InstallStep::Failed(_) => 0,
    }
}

/// The steps that end `install`.
pub open spec fn install_finished(step: InstallStep) -> bool {
    step == InstallStep::Done || step is Failed
}

/// `install` installs a tool only when the user said yes to it, and always
/// comes to an end: every step that does not end it brings the end closer,
/// and the ends stay put.
pub proof fn lemma_install_consent_and_end(step: InstallStep, ok: bool)
    ensures
        install_after(step, ok) == InstallStep::InstallLoader ==> step
            == InstallStep::AskInstallLoader && ok,
        install_after(step, ok) == InstallStep::InstallXQuartz ==> step
            == InstallStep::AskInstallXQuartz && ok,
        !install_finished(step) ==> install_rank(install_after(step, ok)) < install_rank(step),
        install_finished(step) ==> install_after(step, ok) == step,
{
}

// ---------------------------------------------------------------- uninstall

/// Why `uninstall` stops with an error.
#[derive(Clone, Copy, PartialEq, Eq, Structural, Debug)]
pub enum UninstallFailure {
    /// The Vivado container runs and the user would not stop it.
    ContainerStillRunning,
    /// The data directory could not be removed.
    DataDirNotRemoved,
}

/// A step of `uninstall`. The outcome given to [`next_uninstall_step`] is:
/// for the checks, whether the container runs / the data directory exists /
/// the image exists (false when Docker cannot be reached); for the questions,
/// whether the user said yes; for the removals, whether they succeeded.
#[derive(Clone, Copy, PartialEq, Eq, Structural, Debug)]
pub enum UninstallStep {
    CheckContainer,
    AskStopContainer,
    StopContainer,
    CheckDataDir,
    AskRemoveDataDir,
    RemoveDataDir,
    CheckImage,
    AskRemoveImage,
    RemoveImage,
    Done,
    Failed(UninstallFailure),
}

/// The step of `uninstall` after `step`, whose outcome was `ok`.
pub open spec fn uninstall_after(step: UninstallStep, ok: bool) -> UninstallStep {
    match step {
        UninstallStep::CheckContainer => if ok {
            UninstallStep::AskStopContainer
        } else {
            UninstallStep::CheckDataDir
        },
        UninstallStep::AskStopContainer => if ok {
            UninstallStep::StopContainer
        } else {
            UninstallStep::Failed(UninstallFailure::ContainerStillRunning)
        },
        UninstallStep::StopContainer => UninstallStep::CheckDataDir,
        UninstallStep::CheckDataDir => if ok {
            UninstallStep::AskRemoveDataDir
        } else {
            UninstallStep::CheckImage
        },
        UninstallStep::AskRemoveDataDir => if ok {
            UninstallStep::RemoveDataDir
        } else {
            UninstallStep::CheckImage
        },
        UninstallStep::RemoveDataDir => if ok {
            UninstallStep::CheckImage
        } else {
            UninstallStep::Failed(UninstallFailure::DataDirNotRemoved)
        },
        UninstallStep::CheckImage => if ok {
            UninstallStep::AskRemoveImage
        } else {
            UninstallStep::Done
        },
        UninstallStep::AskRemoveImage => if ok {
            UninstallStep::RemoveImage
        } else {
            UninstallStep::Done
        },
        UninstallStep::RemoveImage => UninstallStep::Done,
        UninstallStep::Done => UninstallStep::Done,
        UninstallStep::Failed(f) => UninstallStep::Failed(f),
    }
}

/// The step of `uninstall` after `step`, whose outcome was `ok`.
pub fn next_uninstall_step(step: UninstallStep, ok: bool) -> (r: UninstallStep)
    ensures
        r == uninstall_after(step, ok),
{
    match step {
        UninstallStep::CheckContainer => if ok {
            UninstallStep::AskStopContainer
        } else {
            UninstallStep::CheckDataDir
        },
        UninstallStep::AskStopContainer => if ok {
            UninstallStep::StopContainer
        } else {
            UninstallStep::Failed(UninstallFailure::ContainerStillRunning)
        },
        UninstallStep::StopContainer => UninstallStep::CheckDataDir,
        UninstallStep::CheckDataDir => if ok {
            UninstallStep::AskRemoveDataDir
        } else {
            UninstallStep::CheckImage
        },
        UninstallStep::AskRemoveDataDir => if ok {
            UninstallStep::RemoveDataDir
        } else {
            UninstallStep::CheckImage
        },
        UninstallStep::RemoveDataDir => if ok {
            UninstallStep::CheckImage
        } else {
            UninstallStep::Failed(UninstallFailure::DataDirNotRemoved)
        },
        UninstallStep::CheckImage => if ok {
            UninstallStep::AskRemoveImage
        } else {
            UninstallStep::Done
        },
        UninstallStep::AskRemoveImage => if ok {
            UninstallStep::RemoveImage
        } else {
            UninstallStep::Done
        },
        UninstallStep::RemoveImage => UninstallStep::Done,
        UninstallStep::Done => UninstallStep::Done,
        UninstallStep::Failed(f) => UninstallStep::Failed(f),
    }
}

/// How many steps `uninstall` has at most left from `step`.
pub open spec fn uninstall_rank(step: UninstallStep) -> nat {
    match step {
        UninstallStep::CheckContainer => 9,
        UninstallStep::AskStopContainer => 8,
        UninstallStep::StopContainer => 7,
        UninstallStep::CheckDataDir => 6,
        UninstallStep::AskRemoveDataDir => 5,
        UninstallStep::RemoveDataDir => 4,
        UninstallStep::CheckImage => 3,
        UninstallStep::AskRemoveImage => 2,
        UninstallStep::RemoveImage => 1,
        UninstallStep::Done => 0,
        UninstallStep::Failed(_) => 0,
    }
}

/// The steps that end `uninstall`.
pub open spec fn uninstall_finished(step: UninstallStep) -> bool {
    step == UninstallStep::Done || step is Failed
}

/// `uninstall` stops the container, removes the data directory and removes
/// the image each only right after the user said yes to it; a running
/// container that the user will not stop ends it before anything is
/// removed; and it always comes to an end.
pub proof fn lemma_uninstall_consent_and_end(step: UninstallStep, ok: bool)
    ensures
        uninstall_after(step, ok) == UninstallStep::StopContainer ==> step
            == UninstallStep::AskStopContainer && ok,
        uninstall_after(step, ok) == UninstallStep::RemoveDataDir ==> step
            == UninstallStep::AskRemoveDataDir && ok,
        uninstall_after(step, ok) == UninstallStep::RemoveImage ==> step
            == UninstallStep::AskRemoveImage && ok,
        step == UninstallStep::AskStopContainer && !ok ==> uninstall_after(step, ok)
            == UninstallStep::Failed(UninstallFailure::ContainerStillRunning),
        !uninstall_finished(step) ==> uninstall_rank(uninstall_after(step, ok)) < uninstall_rank(
            step,
        ),
        uninstall_finished(step) ==> uninstall_after(step, ok) == step,
{
}

// ---------------------------------------------------------------- setup

/// Why `setup` stops with an error.
#[derive(Clone, Copy, PartialEq, Eq, Structural, Debug)]
pub enum SetupFailure {
    ScriptsNotExtracted,
    InstallationNotRemoved,
    InstallerMissing,
    CopyFailed,
    HashFailed,
    /// The installer's digest is unknown, or its version unsupported.
    InstallerRefused,
    DockerUnavailable,
    PullFailed,
    InstallFailed,
}

/// A step of `setup`. The outcome given to [`next_setup_step`] is, step by
/// step: the scripts were extracted; a Vivado installation exists; the user
/// agreed to replace it; it was removed; the remembered installer was found
/// and is used as it is; the installer file exists; the installer-path log
/// is a file; the user agreed to forget the remembered path; (ignored); the
/// installer was copied into the data directory; (ignored); its MD5 digest was
/// computed; it is a known installer of a supported version; Docker was
/// reached; the image exists; the image was pulled; the installation in the
/// container succeeded.
#[derive(Clone, Copy, PartialEq, Eq, Structural, Debug)]
pub enum SetupStep {
    ExtractScripts,
    CheckExistingInstall,
    AskReplaceInstall,
    RemoveInstall,
    FindInstaller,
    CheckInstallerFile,
    /// The installer file is missing: is there an installer-path log?
    CheckInstallerLog,
    /// Ask whether to forget the remembered path and retry later.
    AskForgetInstaller,
    /// Remove the installer-path log.
    ForgetInstaller,
    CopyInstaller,
    RecordInstaller,
    HashInstaller,
    CheckVersion,
    ConnectDocker,
    CheckImage,
    PullImage,
    RunInstaller,
    Done,
    Cancelled,
    Failed(SetupFailure),
}

/// The step of `setup` after `step`, whose outcome was `ok`.
pub open spec fn setup_after(step: SetupStep, ok: bool) -> SetupStep {
    match step {
        SetupStep::ExtractScripts => if ok {
            SetupStep::CheckExistingInstall
        } else {
            SetupStep::Failed(SetupFailure::ScriptsNotExtracted)
        },
        SetupStep::CheckExistingInstall => if ok {
            SetupStep::AskReplaceInstall
        } else {
            SetupStep::FindInstaller
        },
        SetupStep::AskReplaceInstall => if ok {
            SetupStep::RemoveInstall
        } else {
            SetupStep::Cancelled
        },
        SetupStep::RemoveInstall => if ok {
            SetupStep::FindInstaller
        } else {
            SetupStep::Failed(SetupFailure::InstallationNotRemoved)
        },
        SetupStep::FindInstaller => if ok {
            SetupStep::HashInstaller
        } else {
            SetupStep::CheckInstallerFile
        },
        SetupStep::CheckInstallerFile => if ok {
            SetupStep::CopyInstaller
        } else {
            SetupStep::CheckInstallerLog
        },
        SetupStep::CheckInstallerLog => if ok {
            SetupStep::AskForgetInstaller
        } else {
            SetupStep::Failed(SetupFailure::InstallerMissing)
        },
        SetupStep::AskForgetInstaller => if ok {
            SetupStep::ForgetInstaller
        } else {
            SetupStep::Failed(SetupFailure::InstallerMissing)
        },
        SetupStep::ForgetInstaller => SetupStep::Failed(SetupFailure::InstallerMissing),
        SetupStep::CopyInstaller => if ok {
            SetupStep::RecordInstaller
        } else {
            SetupStep::Failed(SetupFailure::CopyFailed)
        },
        SetupStep::RecordInstaller => SetupStep::HashInstaller,
        SetupStep::HashInstaller => if ok {
            SetupStep::CheckVersion
        } else {
            SetupStep::Failed(SetupFailure::HashFailed)
        },
        SetupStep::CheckVersion => if ok {
            SetupStep::ConnectDocker
        } else {
            SetupStep::Failed(SetupFailure::InstallerRefused)
        },
        SetupStep::ConnectDocker => if ok {
            SetupStep::CheckImage
        } else {
            SetupStep::Failed(SetupFailure::DockerUnavailable)
        },
        SetupStep::CheckImage => if ok {
            SetupStep::RunInstaller
        } else {
            SetupStep::PullImage
        },
        SetupStep::PullImage => if ok {
            SetupStep::RunInstaller
        } else {
            SetupStep::Failed(SetupFailure::PullFailed)
        },
        SetupStep::RunInstaller => if ok {
            SetupStep::Done
        } else {
            SetupStep::Failed(SetupFailure::InstallFailed)
        },
        SetupStep::Done => SetupStep::Done,
        SetupStep::Cancelled => SetupStep::Cancelled,
        SetupStep::Failed(f) => SetupStep::Failed(f),
    }
}

/// The step of `setup` after `step`, whose outcome was `ok`.
pub fn next_setup_step(step: SetupStep, ok: bool) -> (r: SetupStep)
    ensures
        r == setup_after(step, ok),
{
    match step {
        SetupStep::ExtractScripts => if ok {
            SetupStep::CheckExistingInstall
        } else {
            SetupStep::Failed(SetupFailure::ScriptsNotExtracted)
        },
        SetupStep::CheckExistingInstall => if ok {
            SetupStep::AskReplaceInstall
        } else {
            SetupStep::FindInstaller
        },
        SetupStep::AskReplaceInstall => if ok {
            SetupStep::RemoveInstall
        } else {
            SetupStep::Cancelled
        },
        SetupStep::RemoveInstall => if ok {
            SetupStep::FindInstaller
        } else {
            SetupStep::Failed(SetupFailure::InstallationNotRemoved)
        },
        SetupStep::FindInstaller => if ok {
            SetupStep::HashInstaller
        } else {
            SetupStep::CheckInstallerFile
        },
        SetupStep::CheckInstallerFile => if ok {
            SetupStep::CopyInstaller
        } else {
            SetupStep::CheckInstallerLog
        },
        SetupStep::CheckInstallerLog => if ok {
            SetupStep::AskForgetInstaller
        } else {
            SetupStep::Failed(SetupFailure::InstallerMissing)
        },
        SetupStep::AskForgetInstaller => if ok {
            SetupStep::ForgetInstaller
        } else {
            SetupStep::Failed(SetupFailure::InstallerMissing)
        },
        SetupStep::ForgetInstaller => SetupStep::Failed(SetupFailure::InstallerMissing),
        SetupStep::CopyInstaller => if ok {
            SetupStep::RecordInstaller
        } else {
            SetupStep::Failed(SetupFailure::CopyFailed)
        },
        SetupStep::RecordInstaller => SetupStep::HashInstaller,
        SetupStep::HashInstaller => if ok {
            SetupStep::CheckVersion
        } else {
            SetupStep::Failed(SetupFailure::HashFailed)
        },
        SetupStep::CheckVersion => if ok {
            SetupStep::ConnectDocker
        } else {
            SetupStep::Failed(SetupFailure::InstallerRefused)
        },
        SetupStep::ConnectDocker => if ok {
            SetupStep::CheckImage
        } else {
            SetupStep::Failed(SetupFailure::DockerUnavailable)
        },
        SetupStep::CheckImage => if ok {
            SetupStep::RunInstaller
        } else {
            SetupStep::PullImage
        },
        SetupStep::PullImage => if ok {
            SetupStep::RunInstaller
        } else {
            SetupStep::Failed(SetupFailure::PullFailed)
        },
        SetupStep::RunInstaller => if ok {
            SetupStep::Done
        } else {
            SetupStep::Failed(SetupFailure::InstallFailed)
        },
        SetupStep::Done => SetupStep::Done,
        SetupStep::Cancelled => SetupStep::Cancelled,
        SetupStep::Failed(f) => SetupStep::Failed(f),
    }
}

/// The step that `setup` reaches from `step` through the outcomes `outcomes`,
/// first to last.
pub open spec fn setup_run(step: SetupStep, outcomes: Seq<bool>) -> SetupStep
    decreases outcomes.len(),
{
    if outcomes.len() == 0 {
        step
    } else {
        setup_run(setup_after(step, outcomes[0]), outcomes.drop_first())
    }
}

/// The steps that come only after the installer was accepted.
pub open spec fn after_acceptance(step: SetupStep) -> bool {
    ||| step == SetupStep::ConnectDocker
    ||| step == SetupStep::CheckImage
    ||| step == SetupStep::PullImage
    ||| step == SetupStep::RunInstaller
    ||| step == SetupStep::Done
}

/// An existing installation is removed only right after the user agreed to
/// replace it; refusing cancels setup.
pub proof fn lemma_setup_replaces_only_with_consent(step: SetupStep, ok: bool)
    ensures
        setup_after(step, ok) == SetupStep::RemoveInstall ==> step == SetupStep::AskReplaceInstall
            && ok,
        step == SetupStep::AskReplaceInstall && !ok ==> setup_after(step, ok)
            == SetupStep::Cancelled,
        setup_after(step, ok) == SetupStep::Cancelled ==> step == SetupStep::Cancelled || (step
            == SetupStep::AskReplaceInstall && !ok),
{
}

/// The steps that follow a missing installer file.
pub open spec fn after_missing_installer(step: SetupStep) -> bool {
    ||| step == SetupStep::CheckInstallerLog
    ||| step == SetupStep::AskForgetInstaller
    ||| step == SetupStep::ForgetInstaller
    ||| step == SetupStep::Failed(SetupFailure::InstallerMissing)
}

/// A missing installer file ends setup with an error, and nothing is copied
/// and Docker is not reached on the way: the steps after it lead only to
/// each other. The installer-path log is removed only when it is a file and
/// the user agreed to forget it.
pub proof fn lemma_setup_missing_installer(step: SetupStep, ok: bool)
    ensures
        step == SetupStep::CheckInstallerFile && !ok ==> after_missing_installer(
            setup_after(step, ok),
        ),
        after_missing_installer(step) ==> after_missing_installer(setup_after(step, ok)),
        setup_after(step, ok) == SetupStep::ForgetInstaller ==> step
            == SetupStep::AskForgetInstaller && ok,
        setup_after(step, ok) == SetupStep::AskForgetInstaller ==> step
            == SetupStep::CheckInstallerLog && ok,
{
}

/// Setup reaches Docker, and so the installation, only with an accepted
/// installer: on every run from a step before the version check, each step
/// after acceptance that is reached was preceded by the version check with a
/// positive outcome.
pub proof fn lemma_setup_installs_only_accepted_installers(step: SetupStep, outcomes: Seq<bool>)
    requires
        !after_acceptance(step),
        after_acceptance(setup_run(step, outcomes)),
    ensures
        exists|j: int|
            0 <= j < outcomes.len() && setup_run(step, outcomes.take(j)) == SetupStep::CheckVersion
                && #[trigger] outcomes[j],
    decreases outcomes.len(),
{
    if outcomes.len() == 0 {
    } else {
        let next = setup_after(step, outcomes[0]);
        assert(outcomes.take(0) =~= Seq::<bool>::empty());
        if step == SetupStep::CheckVersion && outcomes[0] {
            assert(setup_run(step, outcomes.take(0)) == SetupStep::CheckVersion);
        } else {
            assert(!after_acceptance(next));
            let rest = outcomes.drop_first();
            lemma_setup_installs_only_accepted_installers(next, rest);
            let j = choose|j: int|
                0 <= j < rest.len() && setup_run(next, rest.take(j)) == SetupStep::CheckVersion
                    && #[trigger] rest[j];
            assert(outcomes.take(j + 1).drop_first() =~= rest.take(j));
            assert(outcomes.take(j + 1)[0] == outcomes[0]);
            assert(setup_run(step, outcomes.take(j + 1)) == SetupStep::CheckVersion);
            assert(outcomes[j + 1] == rest[j]);
        }
    }
}

/// How many steps `setup` has at most left from `step`.
pub open spec fn setup_rank(step: SetupStep) -> nat {
    match step {
        SetupStep::ExtractScripts => 15,
        SetupStep::CheckExistingInstall => 14,
        SetupStep::AskReplaceInstall => 13,
        SetupStep::RemoveInstall => 12,
        SetupStep::FindInstaller => 11,
        SetupStep::CheckInstallerFile => 10,
        SetupStep::CheckInstallerLog => 9,
        SetupStep::AskForgetInstaller => 8,
        SetupStep::ForgetInstaller => 7,
        SetupStep::CopyInstaller => 8,
        SetupStep::RecordInstaller => 7,
        SetupStep::HashInstaller => 6,
        SetupStep::CheckVersion => 5,
        SetupStep::ConnectDocker => 4,
        SetupStep::CheckImage => 3,
        SetupStep::PullImage => 2,
        SetupStep::RunInstaller => 1,
        SetupStep::Done => 0,
        SetupStep::Cancelled => 0,
        SetupStep::Failed(_) => 0,
    }
}

/// The steps that end `setup`.
pub open spec fn setup_finished(step: SetupStep) -> bool {
    step == SetupStep::Done || step == SetupStep::Cancelled || step is Failed
}

/// Setup always comes to an end: every step that does not end it brings the
/// end closer, and the ends stay put.
pub proof fn lemma_setup_ends(step: SetupStep, ok: bool)
    ensures
        !setup_finished(step) ==> setup_rank(setup_after(step, ok)) < setup_rank(step),
        setup_finished(step) ==> setup_after(step, ok) == step,
{
}

/// Setup ends well only after the installation in the container succeeded.
pub proof fn lemma_setup_done_only_after_install(step: SetupStep, ok: bool)
    ensures
        setup_after(step, ok) == SetupStep::Done ==> step == SetupStep::Done || (step
            == SetupStep::RunInstaller && ok),
{
}

// ---------------------------------------------------------------- start

/// Why `start` or `vivado` stops with an error.
#[derive(Clone, Copy, PartialEq, Eq, Structural, Debug)]
pub enum StartFailure {
    ScriptsNotExtracted,
    DockerUnavailable,
    XvcNotStarted,
    VivadoNotStarted,
}

/// A step of `start` (with the XVC server) or `vivado` (without). The
/// outcome given to [`next_start_step`] is: the scripts were extracted;
/// Docker was reached; the XVC server was started; the Vivado container was
/// started; for the other steps it is ignored.
#[derive(Clone, Copy, PartialEq, Eq, Structural, Debug)]
pub enum StartStep {
    ExtractScripts,
    ConnectDocker,
    StartXvc,
    StartVivado,
    /// Stop the XVC server after the container failed to start.
    StopXvcAfterFailure,
    /// Wait for Ctrl-C or for the container to exit.
    WaitForEnd,
    /// Kill the container, and the XVC server when there is one.
    ShutDown,
    Done,
    Failed(StartFailure),
}

/// The step of `start` (`serve_xvc`) or `vivado` after `step`, whose outcome was `ok`.
pub open spec fn start_after(step: StartStep, ok: bool, serve_xvc: bool) -> StartStep {
    match step {
        StartStep::ExtractScripts => if ok {
            StartStep::ConnectDocker
        } else {
            StartStep::Failed(StartFailure::ScriptsNotExtracted)
        },
        StartStep::ConnectDocker => if !ok {
            StartStep::Failed(StartFailure::DockerUnavailable)
        } else if serve_xvc {
            StartStep::StartXvc
        } else {
            StartStep::StartVivado
        },
        StartStep::StartXvc => if ok {
            StartStep::StartVivado
        } else {
            StartStep::Failed(StartFailure::XvcNotStarted)
        },
        StartStep::StartVivado => if ok {
            StartStep::WaitForEnd
        } else if serve_xvc {
            StartStep::StopXvcAfterFailure
        } else {
            StartStep::Failed(StartFailure::VivadoNotStarted)
        },
        StartStep::StopXvcAfterFailure => StartStep::Failed(StartFailure::VivadoNotStarted),
        StartStep::WaitForEnd => StartStep::ShutDown,
        StartStep::ShutDown => StartStep::Done,
        StartStep::Done => StartStep::Done,
        StartStep::Failed(f) => StartStep::Failed(f),
    }
}

/// The step of `start` (`serve_xvc`) or `vivado` after `step`, whose outcome
/// was `ok`.
pub fn next_start_step(step: StartStep, ok: bool, serve_xvc: bool) -> (r: StartStep)
    ensures
        r == start_after(step, ok, serve_xvc),
{
    match step {
        StartStep::ExtractScripts => if ok {
            StartStep::ConnectDocker
        } else {
            StartStep::Failed(StartFailure::ScriptsNotExtracted)
        },
        StartStep::ConnectDocker => if !ok {
            StartStep::Failed(StartFailure::DockerUnavailable)
        } else if serve_xvc {
            StartStep::StartXvc
        } else {
            StartStep::StartVivado
        },
        StartStep::StartXvc => if ok {
            StartStep::StartVivado
        } else {
            StartStep::Failed(StartFailure::XvcNotStarted)
        },
        StartStep::StartVivado => if ok {
            StartStep::WaitForEnd
        } else if serve_xvc {
            StartStep::StopXvcAfterFailure
        } else {
            StartStep::Failed(StartFailure::VivadoNotStarted)
        },
        StartStep::StopXvcAfterFailure => StartStep::Failed(StartFailure::VivadoNotStarted),
        StartStep::WaitForEnd => StartStep::ShutDown,
        StartStep::ShutDown => StartStep::Done,
        StartStep::Done => StartStep::Done,
        StartStep::Failed(f) => StartStep::Failed(f),
    }
}

/// The step that `start` (`serve_xvc`) or `vivado` reaches from `step`
/// through the outcomes `outcomes`, first to last.
pub open spec fn start_run(step: StartStep, outcomes: Seq<bool>, serve_xvc: bool) -> StartStep
    decreases outcomes.len(),
{
    if outcomes.len() == 0 {
        step
    } else {
        start_run(start_after(step, outcomes[0], serve_xvc), outcomes.drop_first(), serve_xvc)
    }
}

/// The steps at which the XVC server runs: it was started and not yet
/// stopped.
pub open spec fn xvc_running(step: StartStep) -> bool {
    step == StartStep::StartVivado || step == StartStep::WaitForEnd
}

/// The steps that stop the XVC server.
pub open spec fn stops_xvc(step: StartStep) -> bool {
    step == StartStep::StopXvcAfterFailure || step == StartStep::ShutDown
}

/// `start` never leaves the XVC server behind: from a step at which it runs,
/// every run that comes to an end passes a step that stops it.
pub proof fn lemma_start_stops_xvc(step: StartStep, outcomes: Seq<bool>)
    requires
        xvc_running(step),
        start_run(step, outcomes, true) == StartStep::Done || start_run(step, outcomes, true) is Failed,
    ensures
        exists|j: int| 0 <= j < outcomes.len() && #[trigger] stops_xvc(start_run(step, outcomes.take(j), true)),
    decreases outcomes.len(),
{
    if outcomes.len() == 0 {
    } else {
        let next = start_after(step, outcomes[0], true);
        let rest = outcomes.drop_first();
        assert(outcomes.take(1).drop_first() =~= rest.take(0));
        if stops_xvc(next) {
            let one = outcomes.take(1);
            assert(one[0] == outcomes[0]);
            assert(one.drop_first() =~= Seq::<bool>::empty());
            assert(start_run(next, Seq::<bool>::empty(), true) == next);
            assert(start_run(step, one, true) == next);
            assert(stops_xvc(start_run(step, outcomes.take(1), true)));
            if rest.len() == 0 {
                assert(start_run(next, rest, true) == next);
                assert(start_run(step, outcomes, true) == next);
            }
        } else {
            assert(xvc_running(next));
            lemma_start_stops_xvc(next, rest);
            let j = choose|j: int| 0 <= j < rest.len() && #[trigger] stops_xvc(start_run(next, rest.take(j), true));
            assert(outcomes.take(j + 1).drop_first() =~= rest.take(j));
            assert(start_run(step, outcomes.take(j + 1), true) == start_run(next, rest.take(j), true));
        }
    }
}

/// How many steps `start` has at most left from `step`.
pub open spec fn start_rank(step: StartStep) -> nat {
    match step {
        StartStep::ExtractScripts => 6,
        StartStep::ConnectDocker => 5,
        StartStep::StartXvc => 4,
        StartStep::StartVivado => 3,
        StartStep::StopXvcAfterFailure => 1,
        StartStep::WaitForEnd => 2,
        StartStep::ShutDown => 1,
        StartStep::Done => 0,
        StartStep::Failed(_) => 0,
    }
}

/// `start` and `vivado` always come to an end, and the ends stay put.
pub proof fn lemma_start_ends(step: StartStep, ok: bool, serve_xvc: bool)
    ensures
        !(step == StartStep::Done || step is Failed) ==> start_rank(start_after(step, ok, serve_xvc))
            < start_rank(step),
        (step == StartStep::Done || step is Failed) ==> start_after(step, ok, serve_xvc) == step,
{
}

// ---------------------------------------------------------------- xvc

/// A step of `xvc`, which runs only the XVC server. The outcome given to
/// [`next_xvc_step`] is whether the server was started; for the other steps
/// it is ignored.
#[derive(Clone, Copy, PartialEq, Eq, Structural, Debug)]
pub enum XvcStep {
    StartXvc,
    /// Wait for Ctrl-C or for the server to exit.
    WaitForEnd,
    /// Kill the server and wait for it.
    StopXvc,
    Done,
    /// The server could not be started.
    Failed,
}

/// The step of `xvc` after `step`, whose outcome was `ok`.
pub open spec fn xvc_after(step: XvcStep, ok: bool) -> XvcStep {
    match step {
        XvcStep::StartXvc => if ok {
            XvcStep::WaitForEnd
        } else {
            XvcStep::Failed
        },
        XvcStep::WaitForEnd => XvcStep::StopXvc,
        XvcStep::StopXvc => XvcStep::Done,
        XvcStep::Done => XvcStep::Done,
        XvcStep::Failed => XvcStep::Failed,
    }
}

/// The step of `xvc` after `step`, whose outcome was `ok`.
pub fn next_xvc_step(step: XvcStep, ok: bool) -> (r: XvcStep)
    ensures
        r == xvc_after(step, ok),
{
    match step {
        XvcStep::StartXvc => if ok {
            XvcStep::WaitForEnd
        } else {
            XvcStep::Failed
        },
        XvcStep::WaitForEnd => XvcStep::StopXvc,
        XvcStep::StopXvc => XvcStep::Done,
        XvcStep::Done => XvcStep::Done,
        XvcStep::Failed => XvcStep::Failed,
    }
}

/// `xvc` ends well only after stopping the server it started, fails only
/// when the server could not be started, and the ends stay put.
pub proof fn lemma_xvc_stops_server(step: XvcStep, ok: bool)
    ensures
        xvc_after(step, ok) == XvcStep::Done ==> step == XvcStep::StopXvc || step == XvcStep::Done,
        xvc_after(step, ok) == XvcStep::StopXvc ==> step == XvcStep::WaitForEnd,
        xvc_after(step, ok) == XvcStep::Failed ==> step == XvcStep::Failed || (step
            == XvcStep::StartXvc && !ok),
        (step == XvcStep::Done || step == XvcStep::Failed) ==> xvc_after(step, ok) == step,
{
}

// ---------------------------------------------------------------- laws on what each command does

/// The steps of `install` whose outcome decides where it goes.
pub open spec fn install_decides(step: InstallStep) -> bool {
    !install_finished(step)
}

/// What `install` is for: it fails only for a missing Homebrew or a failed
/// `brew install`, never after a success; every question or check decides
/// where it goes; a tool that is there is handled as one the user declined
/// to install, so a missing tool is always asked about; and it ends well
/// only once XQuartz is settled (found, declined or installed).
pub proof fn lemma_install_behaviour(step: InstallStep, ok: bool)
    ensures
        !install_finished(step) ==> !(install_after(step, true) is Failed),
        install_decides(step) ==> install_after(step, true) != install_after(step, false),
        install_after(InstallStep::CheckLoader, true) == install_after(
            InstallStep::AskInstallLoader,
            false,
        ),
        install_after(InstallStep::CheckXQuartz, true) == install_after(
            InstallStep::AskInstallXQuartz,
            false,
        ),
        install_after(step, ok) == InstallStep::Failed(InstallFailure::BrewMissing) ==> step
            == InstallStep::Failed(InstallFailure::BrewMissing) || (step == InstallStep::CheckBrew
            && !ok),
        install_after(step, ok) == InstallStep::Done && step != InstallStep::Done ==> (step
            == InstallStep::CheckXQuartz && ok) || (step == InstallStep::AskInstallXQuartz && !ok)
            || (step == InstallStep::InstallXQuartz && ok),
        install_after(step, ok) == InstallStep::AskInstallLoader ==> step == InstallStep::CheckLoader
            && !ok,
        install_after(step, ok) == InstallStep::AskInstallXQuartz ==> step
            == InstallStep::CheckXQuartz && !ok,
        step == InstallStep::CheckLoader && !ok ==> install_after(step, ok)
            == InstallStep::AskInstallLoader,
        step == InstallStep::CheckXQuartz && !ok ==> install_after(step, ok)
            == InstallStep::AskInstallXQuartz,
{
}

/// The steps of `uninstall` whose outcome decides where it goes.
pub open spec fn uninstall_decides(step: UninstallStep) -> bool {
    !uninstall_finished(step) && step != UninstallStep::StopContainer && step
        != UninstallStep::RemoveImage
}

/// What `uninstall` is for: a success never makes it fail; every check and
/// question decides where it goes; a missing data directory is handled as a
/// declined removal, and a missing image as a declined image removal, so
/// the image is always looked at; it ends well only once the image is
/// settled; and stopping the container always goes on to the data directory.
pub proof fn lemma_uninstall_behaviour(step: UninstallStep, ok: bool)
    ensures
        !uninstall_finished(step) ==> !(uninstall_after(step, true) is Failed),
        uninstall_decides(step) ==> uninstall_after(step, true) != uninstall_after(step, false),
        uninstall_after(UninstallStep::CheckDataDir, false) == uninstall_after(
            UninstallStep::AskRemoveDataDir,
            false,
        ),
        uninstall_after(UninstallStep::CheckImage, false) == uninstall_after(
            UninstallStep::AskRemoveImage,
            false,
        ),
        uninstall_after(UninstallStep::CheckContainer, false) == uninstall_after(
            UninstallStep::StopContainer,
            ok,
        ),
        uninstall_after(step, ok) == UninstallStep::Done && step != UninstallStep::Done ==> (step
            == UninstallStep::CheckImage && !ok) || (step == UninstallStep::AskRemoveImage && !ok)
            || step == UninstallStep::RemoveImage,
        uninstall_after(step, ok) == UninstallStep::CheckImage ==> (step
            == UninstallStep::CheckDataDir && !ok) || (step == UninstallStep::AskRemoveDataDir
            && !ok) || (step == UninstallStep::RemoveDataDir && ok),
        uninstall_after(step, ok) == UninstallStep::CheckDataDir ==> (step
            == UninstallStep::CheckContainer && !ok) || step == UninstallStep::StopContainer,
        uninstall_after(step, ok) == UninstallStep::Failed(UninstallFailure::DataDirNotRemoved)
            ==> step == UninstallStep::Failed(UninstallFailure::DataDirNotRemoved) || (step
            == UninstallStep::RemoveDataDir && !ok),
{
}

/// The steps of `setup` whose outcome decides where it goes.
pub open spec fn setup_decides(step: SetupStep) -> bool {
    !setup_finished(step) && step != SetupStep::RecordInstaller && step
        != SetupStep::ForgetInstaller
}

/// What `setup` is for: a success never makes it fail or cancel it (but for
/// forgetting the installer path, which follows a missing installer); every
/// check and question decides where it goes; once the old installation is
/// removed, setup goes on just as when there was none; a remembered installer
/// joins the path of a copied and recorded one at the digest check; each
/// failure comes only from its own step failing.
pub proof fn lemma_setup_behaviour(step: SetupStep, ok: bool)
    ensures
        !setup_finished(step) && step != SetupStep::ForgetInstaller ==> !(setup_after(
            step,
            true,
        ) is Failed) && setup_after(step, true) != SetupStep::Cancelled,
        setup_decides(step) ==> setup_after(step, true) != setup_after(step, false),
        setup_after(SetupStep::RemoveInstall, true) == setup_after(
            SetupStep::CheckExistingInstall,
            false,
        ),
        setup_after(SetupStep::FindInstaller, true) == setup_after(SetupStep::RecordInstaller, ok),
        setup_after(SetupStep::CheckImage, true) == setup_after(SetupStep::PullImage, true),
        setup_after(step, ok) == SetupStep::Failed(SetupFailure::InstallationNotRemoved) ==> step
            == SetupStep::Failed(SetupFailure::InstallationNotRemoved) || (step
            == SetupStep::RemoveInstall && !ok),
        setup_after(step, ok) == SetupStep::Failed(SetupFailure::ScriptsNotExtracted) ==> step
            == SetupStep::Failed(SetupFailure::ScriptsNotExtracted) || (step
            == SetupStep::ExtractScripts && !ok),
        setup_after(step, ok) == SetupStep::Failed(SetupFailure::CopyFailed) ==> step
            == SetupStep::Failed(SetupFailure::CopyFailed) || (step == SetupStep::CopyInstaller
            && !ok),
        setup_after(step, ok) == SetupStep::Failed(SetupFailure::HashFailed) ==> step
            == SetupStep::Failed(SetupFailure::HashFailed) || (step == SetupStep::HashInstaller
            && !ok),
        setup_after(step, ok) == SetupStep::Failed(SetupFailure::InstallerRefused) ==> step
            == SetupStep::Failed(SetupFailure::InstallerRefused) || (step == SetupStep::CheckVersion
            && !ok),
        setup_after(step, ok) == SetupStep::Failed(SetupFailure::DockerUnavailable) ==> step
            == SetupStep::Failed(SetupFailure::DockerUnavailable) || (step
            == SetupStep::ConnectDocker && !ok),
        setup_after(step, ok) == SetupStep::Failed(SetupFailure::PullFailed) ==> step
            == SetupStep::Failed(SetupFailure::PullFailed) || (step == SetupStep::PullImage && !ok),
        setup_after(step, ok) == SetupStep::Failed(SetupFailure::InstallFailed) ==> step
            == SetupStep::Failed(SetupFailure::InstallFailed) || (step == SetupStep::RunInstaller
            && !ok),
        setup_after(step, ok) == SetupStep::FindInstaller ==> (step
            == SetupStep::CheckExistingInstall && !ok) || (step == SetupStep::RemoveInstall && ok),
        setup_after(step, ok) == SetupStep::PullImage ==> step == SetupStep::CheckImage && !ok,
{
}

/// The steps of `start` / `vivado` whose outcome decides where they go.
pub open spec fn start_decides(step: StartStep) -> bool {
    step == StartStep::ExtractScripts || step == StartStep::ConnectDocker || step
        == StartStep::StartXvc || step == StartStep::StartVivado
}

/// What `start` and `vivado` are for: a success never makes them fail (but
/// for stopping the XVC server after the container failed); every start
/// decides where they go; a started container is always waited for, and
/// shut down only after the wait, with or without the XVC server; the two
/// commands differ only in starting the XVC server and in stopping it when
/// the container fails.
pub proof fn lemma_start_behaviour(step: StartStep, ok: bool, serve_xvc: bool)
    ensures
        !(step == StartStep::Done || step is Failed) && step != StartStep::StopXvcAfterFailure
            ==> !(start_after(step, true, serve_xvc) is Failed),
        start_decides(step) ==> start_after(step, true, serve_xvc) != start_after(
            step,
            false,
            serve_xvc,
        ),
        start_after(StartStep::StartVivado, true, serve_xvc) == StartStep::WaitForEnd,
        start_after(StartStep::StartVivado, true, true) == start_after(
            StartStep::StartVivado,
            true,
            false,
        ),
        start_after(step, ok, serve_xvc) == StartStep::ShutDown ==> step == StartStep::WaitForEnd,
        start_after(step, ok, serve_xvc) == StartStep::WaitForEnd ==> step == StartStep::StartVivado
            && ok,
        start_after(step, ok, serve_xvc) == StartStep::Done && step != StartStep::Done ==> step
            == StartStep::ShutDown,
        step != StartStep::ConnectDocker && !(step == StartStep::StartVivado && !ok) ==> start_after(
            step,
            ok,
            true,
        ) == start_after(step, ok, false),
        start_after(step, ok, serve_xvc) == StartStep::StartXvc ==> serve_xvc,
{
}

/// What `xvc` is for: a started server is waited for, then stopped, and
/// only then does the command end well; starting decides where it goes.
pub proof fn lemma_xvc_behaviour(step: XvcStep, ok: bool)
    ensures
        xvc_after(XvcStep::StartXvc, true) != xvc_after(XvcStep::StartXvc, false),
        xvc_after(step, ok) == XvcStep::WaitForEnd ==> step == XvcStep::StartXvc && ok,
        xvc_after(XvcStep::WaitForEnd, ok) == XvcStep::StopXvc,
        xvc_after(step, ok) == XvcStep::Done && step != XvcStep::Done ==> step == XvcStep::StopXvc,
{
}

} // verus!
