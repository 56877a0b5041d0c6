//! The command line: one subcommand, and where the data lives.
use vstd::prelude::*;

verus! {

/// The board served when none is named.
pub const DEFAULT_BOARD: &'static str = "basys3";

/// A parsed command line.
#[derive(Debug)]
pub struct Cli {
    pub command: Commands,
    /// Overrides the data directory (default: ~/.local/share/vivado-mac).
    pub data_dir: Option<String>,
}

/// The subcommands.
#[derive(Debug)]
pub enum Commands {
    /// Install host dependencies (openFPGALoader, XQuartz).
    Install,
    /// Setup Vivado: pull the Docker image and install Vivado from the
    /// installer binary at `installer`, or one asked for.
    Setup { installer: Option<String> },
    /// Start the XVC server for `board` and the Vivado container.
    Start { board: String },
    /// Start only the XVC server for `board`.
    Xvc { board: String },
    /// Start only the Vivado container.
    Vivado,
    /// Program `bitstream` into `board`.
    Program { bitstream: String, board: String },
    /// Show whether the XVC server and the Vivado container run.
    Status,
    /// Stop the Vivado container.
    Stop,
    /// Remove the Vivado installation, the data directory and, if the user
    /// agrees, the Docker image.
    Uninstall,
}

} // verus!
