//! The containers this tool runs: which image, which command, what is
//! mounted and how the terminal is wired.
use vstd::prelude::*;
use vstd::string::*;

verus! {

/// The image that holds the Vivado runtime.
pub const IMAGE_NAME: &'static str = "ghcr.io/yoketh/vivado-mac";

/// The name of the container that runs Vivado.
pub const CONTAINER_NAME_VIVADO: &'static str = "vivado";

/// The name of the container that installs Vivado.
pub const CONTAINER_NAME_SETUP: &'static str = "vivado_x11";

/// A container to create: its options, and one bind mount of `mount_source`
/// on the host at `mount_target` in the container.
#[derive(Debug)]
pub struct ContainerSpec {
    pub name: String,
    pub platform: String,
    pub image: String,
    pub cmd: Vec<String>,
    pub env: Option<Vec<String>>,
    pub tty: Option<bool>,
    pub open_stdin: Option<bool>,
    pub attach_stdin: Option<bool>,
    pub attach_stdout: Option<bool>,
    pub attach_stderr: Option<bool>,
    pub init: Option<bool>,
    pub auto_remove: Option<bool>,
    pub network_mode: Option<String>,
    pub mount_target: String,
    pub mount_source: String,
}

/// A container to create, its texts as character sequences.
pub struct ContainerSpecView {
    pub name: Seq<char>,
    pub platform: Seq<char>,
    pub image: Seq<char>,
    pub cmd: Seq<Seq<char>>,
    pub env: Option<Seq<Seq<char>>>,
    pub tty: Option<bool>,
    pub open_stdin: Option<bool>,
    pub attach_stdin: Option<bool>,
    pub attach_stdout: Option<bool>,
    pub attach_stderr: Option<bool>,
    pub init: Option<bool>,
    pub auto_remove: Option<bool>,
    pub network_mode: Option<Seq<char>>,
    pub mount_target: Seq<char>,
    pub mount_source: Seq<char>,
}

/// Strings as character sequences.
pub open spec fn texts(v: Seq<String>) -> Seq<Seq<char>> {
    v.map_values(|s: String| s@)
}

impl View for ContainerSpec {
    type V = ContainerSpecView;

    open spec fn view(&self) -> ContainerSpecView {
        ContainerSpecView {
            name: self.name@,
            platform: self.platform@,
            image: self.image@,
            cmd: texts(self.cmd@),
            env: match self.env {
                Some(e) => Some(texts(e@)),
                None => None,
            },
            tty: self.tty,
            open_stdin: self.open_stdin,
            attach_stdin: self.attach_stdin,
            attach_stdout: self.attach_stdout,
            attach_stderr: self.attach_stderr,
            init: self.init,
            auto_remove: self.auto_remove,
            network_mode: match self.network_mode {
                Some(m) => Some(m@),
                None => None,
            },
            mount_target: self.mount_target@,
            mount_source: self.mount_source@,
        }
    }
}

/// The container that installs Vivado: it runs `install.sh` interactively
/// (a terminal, stdin open, all streams attached), with the data directory
/// as the user's home, and is removed when it stops.
pub open spec fn setup_container(data_dir: Seq<char>) -> ContainerSpecView {
    ContainerSpecView {
        name: CONTAINER_NAME_SETUP@,
        platform: "linux/amd64"@,
        image: IMAGE_NAME@,
        cmd: seq!["bash"@, "scripts/install.sh"@],
        env: None,
        tty: Some(true),
        open_stdin: Some(true),
        attach_stdin: Some(true),
        attach_stdout: Some(true),
        attach_stderr: Some(true),
        init: Some(true),
        auto_remove: Some(true),
        network_mode: None,
        mount_target: "/home/user"@,
        mount_source: data_dir,
    }
}

/// The container that runs Vivado: `startup.sh` as `user`, shown on the
/// host's X display, on the host's network, with the data directory as the
/// user's home, and removed when it stops.
pub open spec fn vivado_container(data_dir: Seq<char>) -> ContainerSpecView {
    ContainerSpecView {
        name: CONTAINER_NAME_VIVADO@,
        platform: "linux/amd64"@,
        image: IMAGE_NAME@,
        cmd: seq!["sudo"@, "-H"@, "-u"@, "user"@, "bash"@, "scripts/startup.sh"@],
        env: Some(seq!["DISPLAY=host.docker.internal:0"@]),
        tty: None,
        open_stdin: None,
        attach_stdin: None,
        attach_stdout: None,
        attach_stderr: None,
        init: Some(true),
        auto_remove: Some(true),
        network_mode: Some("host"@),
        mount_target: "/home/user"@,
        mount_source: data_dir,
    }
}

/// The container that installs Vivado into `data_dir`.
pub fn setup_container_spec(data_dir: &str) -> (c: ContainerSpec)
    ensures
        c@ == setup_container(data_dir@),
{
    let mut cmd: Vec<String> = Vec::new();
    cmd.push("bash".to_string());
    cmd.push("scripts/install.sh".to_string());
    let c = ContainerSpec {
        name: CONTAINER_NAME_SETUP.to_string(),
        platform: "linux/amd64".to_string(),
        image: IMAGE_NAME.to_string(),
        cmd,
        env: None,
        tty: Some(true),
        open_stdin: Some(true),
        attach_stdin: Some(true),
        attach_stdout: Some(true),
        attach_stderr: Some(true),
        init: Some(true),
        auto_remove: Some(true),
        network_mode: None,
        mount_target: "/home/user".to_string(),
        mount_source: data_dir.to_string(),
    };
    assert(c@.cmd =~= setup_container(data_dir@).cmd);
    c
}

/// The container that runs Vivado installed in `data_dir`.
pub fn vivado_container_spec(data_dir: &str) -> (c: ContainerSpec)
    ensures
        c@ == vivado_container(data_dir@),
{
    let mut cmd: Vec<String> = Vec::new();
    cmd.push("sudo".to_string());
    cmd.push("-H".to_string());
    cmd.push("-u".to_string());
    cmd.push("user".to_string());
    cmd.push("bash".to_string());
    cmd.push("scripts/startup.sh".to_string());
    let mut env: Vec<String> = Vec::new();
    env.push("DISPLAY=host.docker.internal:0".to_string());
    let c = ContainerSpec {
        name: CONTAINER_NAME_VIVADO.to_string(),
        platform: "linux/amd64".to_string(),
        image: IMAGE_NAME.to_string(),
        cmd,
        env: Some(env),
        tty: None,
        open_stdin: None,
        attach_stdin: None,
        attach_stdout: None,
        attach_stderr: None,
        init: Some(true),
        auto_remove: Some(true),
        network_mode: Some("host".to_string()),
        mount_target: "/home/user".to_string(),
        mount_source: data_dir.to_string(),
    };
    assert(c@.cmd =~= vivado_container(data_dir@).cmd);
    assert(texts(env@) =~= seq!["DISPLAY=host.docker.internal:0"@]);
    c
}

/// How the setup container's session ends.
#[derive(Clone, Copy, PartialEq, Eq, Structural, Debug)]
pub enum SetupOutcome {
    /// The container exited with this non-zero code: setup failed.
    NonZeroExit(i64),
    /// The session's own result stands.
    Session,
}

/// How the setup container's session ends, given the exit code that waiting
/// for the container reported (none when the wait gave no code, as when the
/// container was already removed).
pub fn setup_outcome(exit_code: Option<i64>) -> (r: SetupOutcome)
    ensures
        r == match exit_code {
            Some(c) => if c != 0 {
                SetupOutcome::NonZeroExit(c)
            } else {
                SetupOutcome::Session
            },
            None => SetupOutcome::Session,
        },
{
    match exit_code {
        Some(c) => if c != 0 {
            SetupOutcome::NonZeroExit(c)
        } else {
            SetupOutcome::Session
        },
        None => SetupOutcome::Session,
    }
}

/// The exit code of the Vivado container from the first answer of a wait:
/// the code that came, the error that came, or 0 when no answer came.
pub fn wait_exit_code<E>(answer: Option<Result<i64, E>>) -> (r: Result<i64, E>)
    ensures
        r == match answer {
            Some(res) => res,
            None => Ok(0),
        },
{
    match answer {
        Some(res) => res,
        None => Ok(0),
    }
}

/// Whether the Vivado container runs, from its inspection: false when it
/// could not be inspected, has no state, or its state does not say.
pub fn container_running(inspected_running: Option<Option<bool>>) -> (r: bool)
    ensures
        r == (inspected_running == Some(Some(true))),
{
    match inspected_running {
        Some(Some(b)) => b,
        _ => false,
    }
}

} // verus!
